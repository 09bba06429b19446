use cosm_tome::chain::request::{
    OffsetParams, PageID, PaginationRequest, PaginationResponse, TxOptions, DEFAULT_MEMO,
};
use cosm_tome::proto::{ProtoPageRequest, ProtoPageResponse};

#[test]
fn a_page_by_key_has_no_offset() {
    let req = PaginationRequest { page: PageID::Key(vec![1, 2, 3]), limit: 10, reverse: true };
    assert_eq!(
        req.into_proto(),
        ProtoPageRequest { key: vec![1, 2, 3], offset: 0, limit: 10, count_total: false, reverse: true }
    );
}

#[test]
fn a_page_by_offset_has_no_key() {
    let req = PaginationRequest {
        page: PageID::Offset(OffsetParams { offset: 40, count_total: true }),
        limit: 20,
        reverse: false,
    };
    assert_eq!(
        req.into_proto(),
        ProtoPageRequest { key: vec![], offset: 40, limit: 20, count_total: true, reverse: false }
    );
}

#[test]
fn a_page_request_message_is_read_by_its_key() {
    let by_key = ProtoPageRequest { key: vec![9], offset: 5, limit: 1, count_total: true, reverse: false };
    assert_eq!(
        PaginationRequest::from_proto(by_key),
        PaginationRequest { page: PageID::Key(vec![9]), limit: 1, reverse: false }
    );
    let by_offset = ProtoPageRequest { key: vec![], offset: 5, limit: 1, count_total: true, reverse: true };
    assert_eq!(
        PaginationRequest::from_proto(by_offset),
        PaginationRequest {
            page: PageID::Offset(OffsetParams { offset: 5, count_total: true }),
            limit: 1,
            reverse: true
        }
    );
}

#[test]
fn page_requests_survive_the_message_form() {
    let make = |page: PageID| PaginationRequest { page, limit: 3, reverse: true };
    let pages = || {
        vec![
            PageID::Key(vec![1]),
            PageID::Key(vec![0; 40]),
            PageID::Offset(OffsetParams { offset: 0, count_total: false }),
            PageID::Offset(OffsetParams { offset: u64::MAX, count_total: true }),
        ]
    };
    for (page, same) in pages().into_iter().zip(pages()) {
        assert_eq!(PaginationRequest::from_proto(make(page).into_proto()), make(same));
    }
    // an empty key cannot be told from none
    assert_eq!(
        PaginationRequest::from_proto(make(PageID::Key(vec![])).into_proto()),
        make(PageID::Offset(OffsetParams::default()))
    );
}

#[test]
fn page_responses_are_read_and_written() {
    let proto = ProtoPageResponse { next_key: vec![4, 5], total: 77 };
    let res = PaginationResponse::from_proto(proto);
    assert_eq!(res, PaginationResponse { next_key: vec![4, 5], total: 77 });
    assert_eq!(res.into_proto(), ProtoPageResponse { next_key: vec![4, 5], total: 77 });
    assert_eq!(PaginationResponse::default(), PaginationResponse { next_key: vec![], total: 0 });
}

#[test]
fn default_options_simulate_and_query() {
    let options = TxOptions::default();
    assert_eq!(options.timeout_height, Some(0));
    assert_eq!(options.fee, None);
    assert_eq!(options.account, None);
    assert_eq!(options.memo, "Made with cosm-tome client");
    assert_eq!(options.memo, DEFAULT_MEMO);
}
