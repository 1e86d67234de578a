use meili::http::{is_http_get, parse_out_host_from_http_get, redirect_response};

#[test]
fn host_of_a_request_ending_after_the_host_line() {
    let req = b"GET / HTTP/1.1\r\nHost: example.com\r\n";
    assert_eq!(parse_out_host_from_http_get(req), b"example.com".to_vec());
}

#[test]
fn host_ends_at_the_first_line_break() {
    let req = b"GET / HTTP/1.1\r\nHost: example.com\r\n\r\n";
    assert_eq!(parse_out_host_from_http_get(req), b"example.com".to_vec());
    let req = b"GET / HTTP/1.1\r\nHost: example.com\r\nAccept: */*\r\nUser-Agent: x\r\n\r\n";
    assert_eq!(parse_out_host_from_http_get(req), b"example.com".to_vec());
}

#[test]
fn the_last_host_line_wins() {
    let req = b"GET / HTTP/1.1\r\nHost: a.example\r\nHost: b.example\r\n\r\n";
    assert_eq!(parse_out_host_from_http_get(req), b"b.example".to_vec());
}

#[test]
fn a_host_line_at_the_start_is_read() {
    assert_eq!(parse_out_host_from_http_get(b"Host: a\r\n"), b"a".to_vec());
    assert_eq!(parse_out_host_from_http_get(b"Host: \r\n"), Vec::<u8>::new());
}

#[test]
fn without_a_host_line_the_host_is_empty() {
    assert_eq!(parse_out_host_from_http_get(b"GET /abc\r\n"), Vec::<u8>::new());
    assert_eq!(parse_out_host_from_http_get(b"GET / HTTP/1.1\r\nAccept: */*\r\n\r\n"), Vec::<u8>::new());
}

#[test]
fn without_a_line_break_after_the_host_the_host_is_empty() {
    assert_eq!(parse_out_host_from_http_get(b"GET / HTTP/1.1\r\nHost: example.com"), Vec::<u8>::new());
    assert_eq!(parse_out_host_from_http_get(b"GET / HTTP/1.1\r\nHost: example.com\r"), Vec::<u8>::new());
    assert_eq!(parse_out_host_from_http_get(b"GET / Host: "), Vec::<u8>::new());
}

#[test]
fn any_input_is_accepted() {
    assert_eq!(parse_out_host_from_http_get(b""), Vec::<u8>::new());
    assert_eq!(parse_out_host_from_http_get(b"GET "), Vec::<u8>::new());
    assert_eq!(parse_out_host_from_http_get(b"\r"), Vec::<u8>::new());
    assert_eq!(parse_out_host_from_http_get(b"GET /\r"), Vec::<u8>::new());
    assert_eq!(parse_out_host_from_http_get(b"xxxxxx"), Vec::<u8>::new());
}

#[test]
fn http_get_is_recognised_by_its_first_four_bytes() {
    assert!(is_http_get(b"GET / HTTP/1.1\r\n"));
    assert!(is_http_get(b"GET "));
    assert!(!is_http_get(b"GET"));
    assert!(!is_http_get(b"POST / HTTP/1.1\r\n"));
    assert!(!is_http_get(b"get / HTTP/1.1\r\n"));
    assert!(!is_http_get(&[0x16, 0x03, 0x01, 0x00, 0xa5]));
}

#[test]
fn redirect_names_the_host_over_https() {
    assert_eq!(
        redirect_response(b"example.com"),
        b"HTTP/1.1 301 Moved Permanently\nLocation: https://example.com\n".to_vec()
    );
    assert_eq!(
        redirect_response(b""),
        b"HTTP/1.1 301 Moved Permanently\nLocation: https://\n".to_vec()
    );
}
