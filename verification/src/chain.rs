//! Chain-level data: coins, fees, status codes and normalised responses.

pub mod coin;
pub mod error;
pub mod fee;
pub mod msg;
pub mod request;
pub mod response;
