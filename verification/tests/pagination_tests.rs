use crates_io_logic::pagination::{
    decode_seek, encode_seek, is_suspected_bot, is_useragent_or_ip_blocked,
    next_seek_params_forward, Page, Paginated, PaginationError, PaginationOptions,
    PaginationOptionsBuilder, PaginationQueryParams, RawSeekPayload, WithCount, DEFAULT_PER_PAGE,
};

fn params(page: Option<u32>, per_page: Option<u32>, seek: Option<&str>) -> PaginationQueryParams {
    PaginationQueryParams {
        page,
        per_page,
        seek: seek.map(|s| s.to_string()),
    }
}

fn none() -> PaginationQueryParams {
    params(None, None, None)
}

fn pagination_error(options: PaginationOptionsBuilder, query: PaginationQueryParams) -> String {
    options.gather(&query, 20, false).unwrap_err().message()
}

fn seek_json<T: serde::Serialize>(value: T) -> Vec<u8> {
    serde_json::to_vec(&value).unwrap()
}

#[test]
fn no_pagination_param() {
    let pagination = PaginationOptions::builder().gather(&none(), 20, false).unwrap();
    assert_eq!(Page::Unspecified, pagination.page);
    assert_eq!(DEFAULT_PER_PAGE, pagination.per_page);
}

#[test]
fn page_param_parsing() {
    let error = |query| pagination_error(PaginationOptions::builder(), query);
    assert_eq!(
        error(params(Some(0), None, None)),
        "Failed to deserialize query string: page: invalid value: integer `0`, expected a nonzero u32"
    );

    let pagination = PaginationOptions::builder()
        .gather(&params(Some(5), None, None), 20, false)
        .unwrap();
    assert_eq!(Page::Numeric(5), pagination.page);
}

#[test]
fn per_page_param_parsing() {
    let error = |query| pagination_error(PaginationOptions::builder(), query);
    assert_eq!(error(params(None, Some(101), None)), "cannot request more than 100 items");
    assert_eq!(
        error(params(None, Some(0), None)),
        "Failed to deserialize query string: per_page: invalid value: integer `0`, expected a nonzero u32"
    );

    let pagination = PaginationOptions::builder()
        .gather(&params(None, Some(5), None), 20, false)
        .unwrap();
    assert_eq!(pagination.per_page, 5);
}

#[test]
fn seek_param_parsing() {
    let error = pagination_error(PaginationOptions::builder(), params(None, None, Some("OTg")));
    assert_eq!(error, "?seek= is not supported for this request");

    let pagination = PaginationOptions::builder()
        .enable_seek(true)
        .gather(&params(None, None, Some("OTg")), 20, false)
        .unwrap();

    if let Page::Seek(raw) = pagination.page {
        let bytes = raw.decode().unwrap();
        assert_eq!(serde_json::from_slice::<i32>(&bytes).unwrap(), 98);
    } else {
        panic!(
            "did not parse a seek page, parsed {:?} instead",
            pagination.page
        );
    }

    // for backward
    let error = pagination_error(PaginationOptions::builder(), params(None, None, Some("-OTg")));
    assert_eq!(error, "seek backward ?seek=- is not supported for this request");

    let pagination = PaginationOptions::builder()
        .enable_seek_backward(true)
        .gather(&params(None, None, Some("-OTg")), 20, false)
        .unwrap();

    if let Page::SeekBackward(raw) = pagination.page {
        let bytes = raw.decode().unwrap();
        assert_eq!(serde_json::from_slice::<i32>(&bytes).unwrap(), 98);
    } else {
        panic!(
            "did not parse a seek page, parsed {:?} instead",
            pagination.page
        );
    }
}

#[test]
fn both_page_and_seek() {
    let error = pagination_error(
        PaginationOptions::builder(),
        params(Some(1), None, Some("OTg")),
    );
    assert_eq!(error, "providing both ?page= and ?seek= is unsupported");

    let error = pagination_error(
        PaginationOptions::builder().enable_seek(true),
        params(Some(1), None, Some("OTg")),
    );
    assert_eq!(error, "providing both ?page= and ?seek= is unsupported");

    // for backward
    let error = pagination_error(
        PaginationOptions::builder().enable_seek_backward(true),
        params(Some(1), None, Some("-OTg")),
    );
    assert_eq!(error, "providing both ?page= and ?seek= is unsupported");
}

#[test]
fn disabled_pages() {
    let error = pagination_error(
        PaginationOptions::builder().enable_pages(false),
        params(Some(1), None, None),
    );
    assert_eq!(error, "?page= is not supported for this request");
}

#[test]
fn test_seek_encode_and_decode() {
    // Encoding produces the results we expect
    assert_eq!(encode_seek(&seek_json(98)), "OTg");
    assert_eq!(encode_seek(&seek_json(("foo", 42))), "WyJmb28iLDQyXQ");

    // Encoded values can be then decoded.
    let bytes = decode_seek(&encode_seek(&seek_json(98))).unwrap();
    assert_eq!(serde_json::from_slice::<i32>(&bytes).unwrap(), 98);
    let bytes = decode_seek(&encode_seek(&seek_json(("foo", 42)))).unwrap();
    assert_eq!(
        serde_json::from_slice::<(String, i32)>(&bytes).unwrap(),
        ("foo".into(), 42)
    );
}

#[test]
fn decode_seek_rejects_invalid_base64() {
    assert_eq!(decode_seek("%%%"), None);
    let raw = RawSeekPayload("%%%".to_string());
    assert_eq!(raw.decode().unwrap_err().message(), "invalid seek parameter");
    assert!(RawSeekPayload(String::new()).is_empty());
}

#[test]
fn backward_seek_strips_every_leading_dash() {
    let pagination = PaginationOptions::builder()
        .enable_seek_backward(true)
        .gather(&params(None, None, Some("--OTg")), 20, false)
        .unwrap();
    assert_eq!(pagination.page, Page::SeekBackward(RawSeekPayload("OTg".to_string())));
    assert!(pagination.is_backward());
    assert!(!pagination.is_explicit());
}

#[test]
fn large_pages_are_refused_for_blocked_clients_only() {
    let builder = || PaginationOptions::builder().limit_page_numbers();
    let e = builder().gather(&params(Some(21), None, None), 20, true).unwrap_err();
    assert_eq!(e, PaginationError::PageUnavailable(21));
    assert_eq!(
        e.message(),
        "Page 21 is unavailable for performance reasons. Please take a look at https://crates.io/data-access for alternatives."
    );
    assert!(builder().gather(&params(Some(21), None, None), 20, false).is_ok());
    assert!(builder().gather(&params(Some(20), None, None), 20, true).is_ok());
    assert!(PaginationOptions::builder()
        .gather(&params(Some(21), None, None), 20, true)
        .is_ok());
}

#[test]
fn user_agent_block_list_matches_substrings() {
    let list = vec!["BadBot".to_string(), "crawler".to_string()];
    assert!(is_useragent_or_ip_blocked(&list, "Mozilla BadBot/1.0", false));
    assert!(!is_useragent_or_ip_blocked(&list, "Mozilla/5.0", false));
    assert!(is_useragent_or_ip_blocked(&list, "Mozilla/5.0", true));
    assert!(is_suspected_bot(11));
    assert!(!is_suspected_bot(10));
}

#[test]
fn offsets_of_numeric_pages() {
    let options = PaginationOptions::builder()
        .gather(&params(Some(3), Some(20), None), 20, false)
        .unwrap();
    assert_eq!(options.offset(), Some(40));
    let options = PaginationOptions::builder().gather(&none(), 20, false).unwrap();
    assert_eq!(options.offset(), None);
}

fn rows(ids: &[i32], total: i64) -> Vec<WithCount<i32>> {
    ids.iter().map(|&record| WithCount { record, total }).collect()
}

fn options(page: Page, per_page: i64) -> PaginationOptions {
    PaginationOptions { page, per_page }
}

#[test]
fn numeric_page_neighbours() {
    let p = Paginated::from_rows(rows(&[1, 2], 7), options(Page::Numeric(2), 2));
    assert_eq!(p.total(), 7);
    let next = p.next_page_params().unwrap();
    assert_eq!(next.get("page").unwrap(), "3");
    let prev = p.prev_page_params().unwrap();
    assert_eq!(prev.get("page").unwrap(), "1");

    let first = Paginated::from_rows(rows(&[1, 2], 7), options(Page::Unspecified, 2));
    assert_eq!(first.next_page_params().unwrap().get("page").unwrap(), "2");
    assert!(first.prev_page_params().is_none());

    let short = Paginated::from_rows(rows(&[1], 7), options(Page::Numeric(1), 2));
    assert!(short.next_page_params().is_none());
    assert!(short.prev_page_params().is_none());

    let empty = Paginated::<i32>::from_rows(vec![], options(Page::Unspecified, 2));
    assert_eq!(empty.total(), 0);
}

#[test]
fn seek_page_neighbours() {
    let key = |r: &i32| serde_json::to_vec(r).unwrap();
    let raw = RawSeekPayload(encode_seek(b"1"));
    let p = Paginated::from_rows(rows(&[2, 3], 9), options(Page::Seek(raw), 2));
    let next = p.next_seek_params(key).unwrap();
    assert_eq!(next.get("seek").unwrap(), &encode_seek(b"3"));
    let prev = p.prev_seek_params(key).unwrap();
    assert_eq!(prev.get("seek").unwrap(), &format!("-{}", encode_seek(b"2")));

    // the first page offers no previous page
    let first = Paginated::from_rows(rows(&[1, 2], 9), options(Page::Unspecified, 2));
    assert!(first.prev_seek_params(key).is_none());
    assert!(first.next_seek_params(key).is_some());

    // numeric pages offer no seek keys
    let numeric = Paginated::from_rows(rows(&[1, 2], 9), options(Page::Numeric(1), 2));
    assert!(numeric.next_seek_params(key).is_none());
    assert!(numeric.prev_seek_params(key).is_none());
}

#[test]
fn backward_pages_are_turned_around() {
    let raw = RawSeekPayload(encode_seek(b"9"));
    let p = Paginated::from_rows(rows(&[8, 7, 6], 9), options(Page::SeekBackward(raw), 3));
    let records: Vec<i32> = p.records().iter().map(|r| r.record).collect();
    assert_eq!(records, vec![6, 7, 8]);
    assert_eq!(p.into_records(), vec![6, 7, 8]);

    // a short backward page is the first page: it offers a next page only
    let key = |r: &i32| serde_json::to_vec(r).unwrap();
    let raw = RawSeekPayload(encode_seek(b"3"));
    let short = Paginated::from_rows(rows(&[2, 1], 9), options(Page::SeekBackward(raw), 3));
    assert!(short.prev_seek_params(key).is_none());
    assert_eq!(
        short.next_seek_params(key).unwrap().get("seek").unwrap(),
        &encode_seek(b"2")
    );
}

#[test]
fn forward_seek_params_of_versions() {
    let key = |r: &i32| serde_json::to_vec(r).unwrap();
    let full = vec![5, 4];
    let next = next_seek_params_forward(&full, &options(Page::Unspecified, 2), key).unwrap();
    assert_eq!(next.get("seek").unwrap(), &encode_seek(b"4"));
    assert!(next_seek_params_forward(&vec![5], &options(Page::Unspecified, 2), key).is_none());
    assert!(next_seek_params_forward(&full, &options(Page::Numeric(1), 2), key).is_none());
}
