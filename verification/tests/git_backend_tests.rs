use crates_io_logic::git_backend::{cgi_status, is_header_end, split_header_line};

#[test]
fn header_block_ends_at_an_empty_line() {
    assert!(is_header_end(""));
    assert!(is_header_end("\r"));
    assert!(!is_header_end("Status: 200 OK"));
    assert!(!is_header_end("\r\r"));
}

#[test]
fn header_lines_split_at_the_first_colon() {
    assert_eq!(
        split_header_line("Content-Type: application/x-git-upload-pack-advertisement"),
        (
            "Content-Type".to_string(),
            "application/x-git-upload-pack-advertisement".to_string()
        )
    );
    assert_eq!(
        split_header_line("Expires: Fri, 01 Jan 1980 00:00:00 GMT"),
        ("Expires".to_string(), "Fri, 01 Jan 1980 00:00:00 GMT".to_string())
    );
    // Only the one character after the colon is dropped.
    assert_eq!(split_header_line("X:  two"), ("X".to_string(), " two".to_string()));
    assert_eq!(split_header_line("X:y"), ("X".to_string(), "".to_string()));
}

#[test]
fn status_comes_from_the_first_word_of_the_status_header() {
    assert_eq!(cgi_status(Some("404 Not Found")), 404);
    assert_eq!(cgi_status(Some("500")), 500);
    assert_eq!(cgi_status(None), 200);
    assert_eq!(cgi_status(Some("")), 200);
    assert_eq!(cgi_status(Some("abc def")), 200);
    assert_eq!(cgi_status(Some("099 Low")), 200);
    assert_eq!(cgi_status(Some(" 404")), 200);
}

#[test]
fn status_codes_read_as_http_reads_them() {
    let samples = ["100", "200", "999", "099", "1000", "20", "2a0", "", "+12", "\u{663}\u{660}\u{660}"];
    for s in samples {
        let expected = s.parse::<http::StatusCode>().ok().map(|c| c.as_u16()).unwrap_or(200);
        assert_eq!(cgi_status(Some(s)), expected, "input {:?}", s);
    }
}
