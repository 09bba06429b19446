//! Messages in their encoded form.

use vstd::prelude::*;

verus! {

/// An encoded message together with the name of its type: the envelope in
/// which every message of a transaction travels.
#[derive(Debug, PartialEq, Eq)]
pub struct Any {
    pub type_url: String,
    pub value: Vec<u8>,
}

/// What an envelope holds: the characters of the type name, and the bytes.
pub struct AnyView {
    pub type_url: Seq<char>,
    pub value: Seq<u8>,
}

impl DeepView for Any {
    type V = AnyView;

    open spec fn deep_view(&self) -> AnyView {
        AnyView { type_url: self.type_url@, value: self.value@ }
    }
}

impl View for Any {
    type V = AnyView;

    open spec fn view(&self) -> AnyView {
        self.deep_view()
    }
}

impl Clone for Any {
    fn clone(&self) -> (r: Self)
        ensures
            r@ == self@,
    {
        Any { type_url: self.type_url.clone(), value: self.value.clone() }
    }
}

/// A message that can travel in a transaction.
///
/// A type says with `spec_any` what its envelope is, or that it has none
/// because the message is not valid; `to_any` has to give exactly that.
pub trait Msg: Sized {
    /// What goes wrong when the message is turned into its envelope or
    /// read out of one.
    type Err;

    /// The envelope of this message, or `None` where it has none.
    spec fn spec_any(&self) -> Option<AnyView>;

    /// Puts the message into its envelope.
    fn to_any(&self) -> (r: Result<Any, Self::Err>)
        ensures
            match self.spec_any() {
                Some(view) => r matches Ok(any) && any@ == view,
                None => r is Err,
            },
    ;

    /// Puts the message into its envelope and gives the message up.
    fn into_any(self) -> (r: Result<Any, Self::Err>)
        ensures
            match self.spec_any() {
                Some(view) => r matches Ok(any) && any@ == view,
                None => r is Err,
            },
    ;

    /// Reads a message out of its envelope.
    fn from_any(any: &Any) -> (r: Result<Self, Self::Err>);
}

/// The envelopes of `msgs`, in order, or `None` where one of them has
/// none.
pub open spec fn envelopes<T: Msg>(msgs: Seq<T>) -> Option<Seq<AnyView>>
    decreases msgs.len(),
{
    if msgs.len() == 0 {
        Some(Seq::empty())
    } else {
        match (envelopes(msgs.drop_last()), msgs.last().spec_any()) {
            (Some(before), Some(last)) => Some(before.push(last)),
            _ => None,
        }
    }
}

/// Puts each message of `msgs` into its envelope, in order. The first
/// message without an envelope ends the work with its error.
pub fn msgs_to_any<T: Msg>(msgs: &Vec<T>) -> (r: Result<Vec<Any>, T::Err>)
    ensures
        match envelopes(msgs@) {
            Some(views) => r matches Ok(anys) && anys.deep_view() == views,
            None => r is Err,
        },
{
    let mut out: Vec<Any> = Vec::new();
    let mut i: usize = 0;
    while i < msgs.len()
        invariant
            i <= msgs.len(),
            envelopes(msgs@.take(i as int)) == Some(out.deep_view()),
        decreases msgs.len() - i,
    {
        proof {
            assert(msgs@.take(i + 1).drop_last() =~= msgs@.take(i as int));
            assert(msgs@.take(i + 1).last() == msgs@[i as int]);
        }
        let ghost before = out.deep_view();
        match msgs[i].to_any() {
            Ok(any) => {
                out.push(any);
                assert(out.deep_view() =~= before.push(any@));
            },
            Err(e) => {
                proof {
                    lemma_envelopes_prefix(msgs@, i + 1);
                }
                return Err(e);
            },
        }
        i += 1;
    }
    assert(msgs@.take(i as int) =~= msgs@);
    Ok(out)
}

/// If a prefix of the messages has a message without an envelope, so has
/// the whole.
pub proof fn lemma_envelopes_prefix<T: Msg>(msgs: Seq<T>, n: int)
    requires
        0 <= n <= msgs.len(),
        envelopes(msgs.take(n)) is None,
    ensures
        envelopes(msgs) is None,
    decreases msgs.len() - n,
{
    if n < msgs.len() {
        assert(msgs.take(n + 1).drop_last() =~= msgs.take(n));
        lemma_envelopes_prefix(msgs, n + 1);
    } else {
        assert(msgs.take(n) =~= msgs);
    }
}

} // verus!
