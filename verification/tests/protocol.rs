use tinyhttp::engine::{plan_request, route_request, FileAction, Rejection, RequestAction};
use tinyhttp::parse::{parse_request, ParseError};
use tinyhttp::response::{
    create_error_response, error_response, handle_get_request, handle_post_request,
    FileReadOutcome, Status,
};
use tinyhttp::utf8::check_utf8;

fn find(haystack: &[u8], needle: &[u8]) -> Option<usize> {
    if needle.len() > haystack.len() {
        return None;
    }
    (0..=haystack.len() - needle.len()).find(|&i| &haystack[i..i + needle.len()] == needle)
}

#[test]
fn get_existing_file_is_200_with_length_and_body() {
    let action = plan_request(b"GET /hello.txt HTTP/1.1\r\nHost: localhost\r\n\r\n");
    let file_name = match action {
        RequestAction::Get { file_name } => file_name,
        other => panic!("expected a GET action, got {:?}", kind_of(&other)),
    };
    assert_eq!(file_name, b"public/hello.txt".to_vec());

    let contents = b"hi there".to_vec();
    let resp = handle_get_request(&file_name, FileReadOutcome::Content(contents.clone()));
    assert!(resp.starts_with(b"HTTP/1.1 200 OK\r\nDate: "));
    assert!(find(&resp, b"\r\nContent-Length: 8\r\n").is_some());
    assert!(find(&resp, b"\r\nContent-Type: text/plain\r\n\r\n").is_some());
    assert!(resp.ends_with(&contents));
}

fn kind_of(a: &RequestAction) -> &'static str {
    match a {
        RequestAction::Respond(_) => "Respond",
        RequestAction::Get { .. } => "Get",
        RequestAction::Post { .. } => "Post",
    }
}

#[test]
fn get_missing_file_is_exactly_404() {
    let resp = handle_get_request(b"public/nothing", FileReadOutcome::NotFound);
    assert_eq!(resp, b"HTTP/1.1 404 Not Found\r\n\r\n".to_vec());
}

#[test]
fn get_io_failure_is_exactly_500() {
    let resp = handle_get_request(b"public/secret", FileReadOutcome::IoFailure);
    assert_eq!(resp, b"HTTP/1.1 500 Internal Server Error\r\n\r\n".to_vec());
}

#[test]
fn post_then_get_round_trip_serves_the_same_body() {
    let raw = b"POST /notes.txt HTTP/1.1\r\nHost: localhost\r\n\r\nremember the milk";
    let (file_name, body) = match plan_request(raw) {
        RequestAction::Post { file_name, body } => (file_name, body),
        other => panic!("expected a POST action, got {:?}", kind_of(&other)),
    };
    assert_eq!(file_name, b"public/notes.txt".to_vec());
    assert_eq!(body, b"remember the milk".to_vec());

    let post_resp = handle_post_request(&file_name, &body, true);
    assert!(post_resp.starts_with(b"HTTP/1.1 200 OK\r\nDate: "));
    assert!(post_resp.ends_with(&body[..]));

    // The write stored `body`; a later GET reads exactly those bytes back.
    let get_resp = handle_get_request(&file_name, FileReadOutcome::Content(body.clone()));
    let post_body = &post_resp[post_resp.len() - body.len()..];
    let get_body = &get_resp[get_resp.len() - body.len()..];
    assert_eq!(post_body, get_body);
    assert_eq!(get_body, &body[..]);
}

#[test]
fn post_write_failure_is_exactly_500() {
    let resp = handle_post_request(b"public/notes.txt", b"some text", false);
    assert_eq!(resp, b"HTTP/1.1 500 Internal Server Error\r\n\r\n".to_vec());
}

#[test]
fn post_of_10001_bytes_is_413_and_writes_nothing() {
    let mut raw = b"POST /big.txt HTTP/1.1\r\n\r\n".to_vec();
    raw.extend(std::iter::repeat(b'a').take(10001));
    match plan_request(&raw) {
        RequestAction::Respond(resp) => {
            assert_eq!(resp, b"HTTP/1.1 413 Payload Too Large\r\n\r\n".to_vec());
        }
        other => panic!("expected an immediate response, got {:?}", kind_of(&other)),
    }
}

#[test]
fn post_of_10000_bytes_is_accepted() {
    let mut raw = b"POST /big.txt HTTP/1.1\r\n\r\n".to_vec();
    raw.extend(std::iter::repeat(b'a').take(10000));
    match plan_request(&raw) {
        RequestAction::Post { file_name, body } => {
            assert_eq!(file_name, b"public/big.txt".to_vec());
            assert_eq!(body.len(), 10000);
        }
        other => panic!("expected a POST action, got {:?}", kind_of(&other)),
    }
}

#[test]
fn post_with_invalid_utf8_body_is_exactly_400() {
    let mut raw = b"POST /x HTTP/1.1\r\n\r\n".to_vec();
    raw.push(0xff);
    match plan_request(&raw) {
        RequestAction::Respond(resp) => {
            assert_eq!(resp, b"HTTP/1.1 400 Bad Request\r\n\r\n".to_vec());
        }
        other => panic!("expected an immediate response, got {:?}", kind_of(&other)),
    }
}

#[test]
fn malformed_request_line_is_exactly_400() {
    match plan_request(b"NONSENSE\r\n\r\n") {
        RequestAction::Respond(resp) => {
            assert_eq!(resp, b"HTTP/1.1 400 Bad Request\r\n\r\n".to_vec());
        }
        other => panic!("expected an immediate response, got {:?}", kind_of(&other)),
    }
}

#[test]
fn truncated_head_is_exactly_400() {
    match plan_request(b"GET /x HTTP/1.1\r\n") {
        RequestAction::Respond(resp) => {
            assert_eq!(resp, b"HTTP/1.1 400 Bad Request\r\n\r\n".to_vec());
        }
        other => panic!("expected an immediate response, got {:?}", kind_of(&other)),
    }
}

#[test]
fn empty_buffer_is_exactly_400() {
    match plan_request(b"") {
        RequestAction::Respond(resp) => {
            assert_eq!(resp, b"HTTP/1.1 400 Bad Request\r\n\r\n".to_vec());
        }
        other => panic!("expected an immediate response, got {:?}", kind_of(&other)),
    }
}

#[test]
fn put_is_exactly_501_and_touches_no_file() {
    match plan_request(b"PUT /x HTTP/1.1\r\n\r\n") {
        RequestAction::Respond(resp) => {
            assert_eq!(resp, b"HTTP/1.1 501 Not Implemented\r\n\r\n".to_vec());
        }
        other => panic!("expected an immediate response, got {:?}", kind_of(&other)),
    }
}

#[test]
fn two_gets_differ_only_in_the_date() {
    let contents = b"constant contents".to_vec();
    let r1 = handle_get_request(b"public/a.txt", FileReadOutcome::Content(contents.clone()));
    let r2 = handle_get_request(b"public/a.txt", FileReadOutcome::Content(contents));
    let prefix = b"HTTP/1.1 200 OK\r\nDate: ";
    assert_eq!(&r1[..prefix.len()], &r2[..prefix.len()]);
    let t1 = find(&r1, b"\r\nContent-Length: ").expect("no length header");
    let t2 = find(&r2, b"\r\nContent-Length: ").expect("no length header");
    assert_eq!(&r1[t1..], &r2[t2..]);
    // The date between the fixed prefix and the tail is printable ASCII.
    for &b in &r1[prefix.len()..t1] {
        assert!((32..=126).contains(&b), "unprintable byte {} in date", b);
    }
}

#[test]
fn content_type_is_inferred_from_the_extension() {
    let resp = handle_get_request(
        b"public/index.html",
        FileReadOutcome::Content(b"<html></html>".to_vec()),
    );
    assert!(find(&resp, b"\r\nContent-Type: text/html\r\n\r\n").is_some());
}

#[test]
fn extensionless_file_is_octet_stream() {
    let resp = handle_get_request(b"public/README", FileReadOutcome::Content(b"x".to_vec()));
    assert!(find(&resp, b"\r\nContent-Type: application/octet-stream\r\n\r\n").is_some());
}

#[test]
fn content_length_is_the_decimal_byte_length() {
    let contents = vec![b'z'; 1234];
    let resp = handle_get_request(b"public/z.bin", FileReadOutcome::Content(contents));
    assert!(find(&resp, b"\r\nContent-Length: 1234\r\n").is_some());
}

#[test]
fn error_response_is_status_line_and_empty_line_only() {
    let resp = create_error_response(b"HTTP/1.1", b"404 Not Found");
    assert_eq!(resp, b"HTTP/1.1 404 Not Found\r\n\r\n".to_vec());
    let resp = error_response(Status::BadRequest);
    assert_eq!(resp, b"HTTP/1.1 400 Bad Request\r\n\r\n".to_vec());
}

#[test]
fn parser_extracts_method_path_and_body_offset() {
    let raw = b"POST /a/b.c?q=1 HTTP/1.1\r\nContent-Type: text/plain\r\n\r\npayload";
    let pr = parse_request(raw).expect("head should parse");
    assert_eq!(pr.method, b"POST".to_vec());
    assert_eq!(pr.path, b"/a/b.c?q=1".to_vec());
    assert_eq!(&raw[pr.body_start..], b"payload");
}

#[test]
fn parser_rejects_path_without_leading_slash() {
    let r = parse_request(b"GET x HTTP/1.1\r\n\r\n");
    assert!(matches!(r, Err(ParseError::Malformed)));
}

#[test]
fn parser_reports_incomplete_head() {
    let r = parse_request(b"GET /x HTTP/1.1\r\nHost: x");
    assert!(matches!(r, Err(ParseError::Incomplete)));
}

#[test]
fn router_names_each_rejection() {
    let r = route_request(b"GET /x HTTP/1.1\r\n");
    assert!(matches!(r, Err(Rejection::Parse(ParseError::Incomplete))));

    let r = route_request(b"GET\t/x HTTP/1.1\r\n\r\n");
    assert!(matches!(r, Err(Rejection::Parse(ParseError::Malformed))));

    let mut raw = b"POST /x HTTP/1.1\r\n\r\n".to_vec();
    raw.extend([0xc3, 0x28]);
    let r = route_request(&raw);
    assert!(matches!(r, Err(Rejection::Parse(ParseError::InvalidEncoding))));

    let mut raw = b"POST /x HTTP/1.1\r\n\r\n".to_vec();
    raw.extend(std::iter::repeat(b'y').take(10001));
    let r = route_request(&raw);
    assert!(matches!(r, Err(Rejection::PayloadTooLarge)));

    let r = route_request(b"DELETE /x HTTP/1.1\r\n\r\n");
    assert!(matches!(r, Err(Rejection::UnsupportedMethod)));

    let r = route_request(b"GET /x HTTP/1.1\r\n\r\n");
    match r {
        Ok(FileAction::Get { file_name }) => assert_eq!(file_name, b"public/x".to_vec()),
        _ => panic!("expected a GET file action"),
    }
}

#[test]
fn utf8_checker_matches_the_standard_library() {
    let cases: Vec<Vec<u8>> = vec![
        b"plain ascii".to_vec(),
        "héllo wörld €".as_bytes().to_vec(),
        vec![0xff, 0xfe],
        vec![0xc3],
        vec![0xc3, 0x28],
        vec![0xe2, 0x82, 0xac],
        vec![0xe0, 0x80, 0x80],
        vec![0xed, 0xa0, 0x80],
        vec![0xf0, 0x90, 0x8d, 0x88],
        vec![0xf4, 0x90, 0x80, 0x80],
        vec![],
    ];
    for c in cases {
        assert_eq!(check_utf8(&c), std::str::from_utf8(&c).is_ok(), "bytes {:?}", c);
    }
}
