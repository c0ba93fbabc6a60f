//! Formatting of the wire responses.
//!
//! A success response is, exactly,
//! `HTTP/1.1 200 OK\r\nDate: {date}\r\nContent-Length: {len}\r\nContent-Type: {type}\r\n\r\n{body}`,
//! where `{len}` is the decimal byte length of the body. An error response
//! is, exactly, `{version} {status}\r\n\r\n`: status line only, no headers,
//! no body. The date comes from the clock and the content type from the
//! file name's extension; both calls stand behind trusted wrappers, and
//! everything around them is verified.

use vstd::prelude::*;
use crate::bytes::{dec_digits, format_usize, push_bytes};

verus! {

/// The protocol version every response carries.
pub open spec fn http_version() -> Seq<u8> {
    seq![72u8, 84u8, 84u8, 80u8, 47u8, 49u8, 46u8, 49u8]
}

/// `"HTTP/1.1 200 OK\r\nDate: "`, the fixed opening of a success response.
pub open spec fn ok_date_prefix() -> Seq<u8> {
    seq![
        72u8, 84u8, 84u8, 80u8, 47u8, 49u8, 46u8, 49u8, 32u8, 50u8, 48u8, 48u8, 32u8, 79u8, 75u8,
        13u8, 10u8, 68u8, 97u8, 116u8, 101u8, 58u8, 32u8,
    ]
}

/// `"\r\nContent-Length: "`.
pub open spec fn content_length_prefix() -> Seq<u8> {
    seq![
        13u8, 10u8, 67u8, 111u8, 110u8, 116u8, 101u8, 110u8, 116u8, 45u8, 76u8, 101u8, 110u8,
        103u8, 116u8, 104u8, 58u8, 32u8,
    ]
}

/// `"\r\nContent-Type: "`.
pub open spec fn content_type_prefix() -> Seq<u8> {
    seq![
        13u8, 10u8, 67u8, 111u8, 110u8, 116u8, 101u8, 110u8, 116u8, 45u8, 84u8, 121u8, 112u8,
        101u8, 58u8, 32u8,
    ]
}

/// `"\r\n\r\n"`, the end of the head.
pub open spec fn crlf_crlf() -> Seq<u8> {
    seq![13u8, 10u8, 13u8, 10u8]
}

/// The error statuses a response can carry.
#[derive(Clone, Copy, Debug, PartialEq, Eq, Structural)]
pub enum Status {
    BadRequest,
    NotFound,
    PayloadTooLarge,
    InternalError,
    NotImplemented,
}

/// The status text of each error status, as it stands on the wire.
pub open spec fn status_text(st: Status) -> Seq<u8> {
    match st {
        Status::BadRequest => seq![
            52u8, 48u8, 48u8, 32u8, 66u8, 97u8, 100u8, 32u8, 82u8, 101u8, 113u8, 117u8, 101u8,
            115u8, 116u8,
        ],
        Status::NotFound => seq![
            52u8, 48u8, 52u8, 32u8, 78u8, 111u8, 116u8, 32u8, 70u8, 111u8, 117u8, 110u8, 100u8,
        ],
        Status::PayloadTooLarge => seq![
            52u8, 49u8, 51u8, 32u8, 80u8, 97u8, 121u8, 108u8, 111u8, 97u8, 100u8, 32u8, 84u8,
            111u8, 111u8, 32u8, 76u8, 97u8, 114u8, 103u8, 101u8,
        ],
        Status::InternalError => seq![
            53u8, 48u8, 48u8, 32u8, 73u8, 110u8, 116u8, 101u8, 114u8, 110u8, 97u8, 108u8, 32u8,
            83u8, 101u8, 114u8, 118u8, 101u8, 114u8, 32u8, 69u8, 114u8, 114u8, 111u8, 114u8,
        ],
        Status::NotImplemented => seq![
            53u8, 48u8, 49u8, 32u8, 78u8, 111u8, 116u8, 32u8, 73u8, 109u8, 112u8, 108u8, 101u8,
            109u8, 101u8, 110u8, 116u8, 101u8, 100u8,
        ],
    }
}

/// The status text of `st` as a byte vector.
pub fn status_bytes(st: Status) -> (r: Vec<u8>)
    ensures
        r@ == status_text(st),
{
    let v: Vec<u8> = match st {
        Status::BadRequest => vec![
            52u8, 48u8, 48u8, 32u8, 66u8, 97u8, 100u8, 32u8, 82u8, 101u8, 113u8, 117u8, 101u8,
            115u8, 116u8,
        ],
        Status::NotFound => vec![
            52u8, 48u8, 52u8, 32u8, 78u8, 111u8, 116u8, 32u8, 70u8, 111u8, 117u8, 110u8, 100u8,
        ],
        Status::PayloadTooLarge => vec![
            52u8, 49u8, 51u8, 32u8, 80u8, 97u8, 121u8, 108u8, 111u8, 97u8, 100u8, 32u8, 84u8,
            111u8, 111u8, 32u8, 76u8, 97u8, 114u8, 103u8, 101u8,
        ],
        Status::InternalError => vec![
            53u8, 48u8, 48u8, 32u8, 73u8, 110u8, 116u8, 101u8, 114u8, 110u8, 97u8, 108u8, 32u8,
            83u8, 101u8, 114u8, 118u8, 101u8, 114u8, 32u8, 69u8, 114u8, 114u8, 111u8, 114u8,
        ],
        Status::NotImplemented => vec![
            53u8, 48u8, 49u8, 32u8, 78u8, 111u8, 116u8, 32u8, 73u8, 109u8, 112u8, 108u8, 101u8,
            109u8, 101u8, 110u8, 116u8, 101u8, 100u8,
        ],
    };
    proof {
        assert(v@ =~= status_text(st));
    }
    v
}

/// An error response: `{version} {status}\r\n\r\n`, nothing more.
pub open spec fn error_bytes(version: Seq<u8>, status: Seq<u8>) -> Seq<u8> {
    version + seq![32u8] + status + crlf_crlf()
}

/// The full error response for `st`, under the fixed version.
pub open spec fn error_response_bytes(st: Status) -> Seq<u8> {
    error_bytes(http_version(), status_text(st))
}

/// Serializes the status line of an error response: the version, a space,
/// the status text, and an empty line; no headers and no body.
pub fn create_error_response(version: &[u8], status: &[u8]) -> (r: Vec<u8>)
    ensures
        r@ == error_bytes(version@, status@),
{
    let mut r: Vec<u8> = Vec::new();
    push_bytes(&mut r, version);
    r.push(32u8);
    push_bytes(&mut r, status);
    let tail: Vec<u8> = vec![13u8, 10u8, 13u8, 10u8];
    push_bytes(&mut r, tail.as_slice());
    proof {
        assert(r@ =~= error_bytes(version@, status@));
    }
    r
}

/// The full error response for `st` as a byte vector.
pub fn error_response(st: Status) -> (r: Vec<u8>)
    ensures
        r@ == error_response_bytes(st),
{
    let version: Vec<u8> = vec![72u8, 84u8, 84u8, 80u8, 47u8, 49u8, 46u8, 49u8];
    proof {
        assert(version@ =~= http_version());
    }
    let status = status_bytes(st);
    create_error_response(version.as_slice(), status.as_slice())
}

/// Every byte is printable ASCII.
pub open spec fn all_printable(s: Seq<u8>) -> bool {
    forall|j: int| 0 <= j < s.len() ==> 32 <= #[trigger] s[j] <= 126
}

/// The MIME type that the file name's extension maps to.
pub uninterp spec fn mime_of(name: Seq<u8>) -> Seq<u8>;

/// Relies on mime_guess::from_path and first_or_octet_stream: the MIME
/// type guessed from the file name's extension, with
/// "application/octet-stream" when none is recognized. The result depends
/// on the name's bytes alone.
#[verifier::external_body]
pub(crate) fn guess_content_type(file_name: &[u8]) -> (r: Vec<u8>)
    ensures
        r@ == mime_of(file_name@),
{
    let name = String::from_utf8_lossy(file_name);
    let mime = mime_guess::from_path(name.as_ref()).first_or_octet_stream();
    format!("{}", mime).into_bytes()
}

/// Relies on chrono's Utc::now and its strftime formatting with
/// `%Y-%m-%d %H:%M:%S %Z`: the current UTC time rendered with digits,
/// `-`, `:`, spaces and the letters of "UTC", all printable ASCII.
#[verifier::external_body]
pub(crate) fn current_date() -> (r: Vec<u8>)
    ensures
        all_printable(r@),
{
    let now = chrono::Utc::now();
    format!("{}", now.format("%Y-%m-%d %H:%M:%S %Z")).into_bytes()
}

/// Everything of a success response that follows the date: the
/// Content-Length and Content-Type headers, the empty line, and the body.
pub open spec fn success_tail(ctype: Seq<u8>, body: Seq<u8>) -> Seq<u8> {
    content_length_prefix() + dec_digits(body.len()) + content_type_prefix() + ctype + crlf_crlf()
        + body
}

/// A success response: the fixed `200 OK` opening, the date, and the tail.
pub open spec fn success_bytes(date: Seq<u8>, ctype: Seq<u8>, body: Seq<u8>) -> Seq<u8> {
    ok_date_prefix() + date + success_tail(ctype, body)
}

/// Serializes a success response from its date, content type and body.
pub fn build_success(date: &[u8], ctype: &[u8], body: &[u8]) -> (r: Vec<u8>)
    ensures
        r@ == success_bytes(date@, ctype@, body@),
{
    let mut r: Vec<u8> = vec![
        72u8, 84u8, 84u8, 80u8, 47u8, 49u8, 46u8, 49u8, 32u8, 50u8, 48u8, 48u8, 32u8, 79u8, 75u8,
        13u8, 10u8, 68u8, 97u8, 116u8, 101u8, 58u8, 32u8,
    ];
    proof {
        assert(r@ =~= ok_date_prefix());
    }
    push_bytes(&mut r, date);
    let clp: Vec<u8> = vec![
        13u8, 10u8, 67u8, 111u8, 110u8, 116u8, 101u8, 110u8, 116u8, 45u8, 76u8, 101u8, 110u8,
        103u8, 116u8, 104u8, 58u8, 32u8,
    ];
    proof {
        assert(clp@ =~= content_length_prefix());
    }
    push_bytes(&mut r, clp.as_slice());
    let len = format_usize(body.len());
    push_bytes(&mut r, len.as_slice());
    let ctp: Vec<u8> = vec![
        13u8, 10u8, 67u8, 111u8, 110u8, 116u8, 101u8, 110u8, 116u8, 45u8, 84u8, 121u8, 112u8,
        101u8, 58u8, 32u8,
    ];
    proof {
        assert(ctp@ =~= content_type_prefix());
    }
    push_bytes(&mut r, ctp.as_slice());
    push_bytes(&mut r, ctype);
    let tail: Vec<u8> = vec![13u8, 10u8, 13u8, 10u8];
    push_bytes(&mut r, tail.as_slice());
    push_bytes(&mut r, body);
    proof {
        assert(r@ =~= success_bytes(date@, ctype@, body@));
    }
    r
}

/// What reading the target file yielded, as the caller saw it.
pub enum FileReadOutcome {
    /// The file was read whole; these are its bytes.
    Content(Vec<u8>),
    /// The file does not exist.
    NotFound,
    /// Some other I/O failure.
    IoFailure,
}

/// Builds the response to a GET from what reading the target file
/// yielded: on content, a success response whose body is the content,
/// whose Content-Length is the content's byte length, and whose
/// Content-Type is inferred from the file name; on a missing file, the
/// exact `404 Not Found` error response; on any other failure, the exact
/// `500 Internal Server Error` one.
pub fn handle_get_request(file_name: &[u8], outcome: FileReadOutcome) -> (r: Vec<u8>)
    ensures
        match outcome {
            FileReadOutcome::Content(c) => exists|d: Seq<u8>|
                all_printable(d) && r@ == success_bytes(d, mime_of(file_name@), c@),
            FileReadOutcome::NotFound => r@ == error_response_bytes(Status::NotFound),
            FileReadOutcome::IoFailure => r@ == error_response_bytes(Status::InternalError),
        },
{
    match outcome {
        FileReadOutcome::Content(c) => {
            let date = current_date();
            let ctype = guess_content_type(file_name);
            let r = build_success(date.as_slice(), ctype.as_slice(), c.as_slice());
            proof {
                assert(all_printable(date@) && r@ == success_bytes(
                    date@,
                    mime_of(file_name@),
                    c@,
                ));
            }
            r
        },
        FileReadOutcome::NotFound => error_response(Status::NotFound),
        FileReadOutcome::IoFailure => error_response(Status::InternalError),
    }
}

/// Builds the response to a POST from whether the body was written whole
/// to the target file: on success, a success response that echoes the
/// written body, with its byte length as Content-Length and the content
/// type inferred from the file name; otherwise the exact
/// `500 Internal Server Error` error response.
pub fn handle_post_request(file_name: &[u8], body: &[u8], write_ok: bool) -> (r: Vec<u8>)
    ensures
        write_ok ==> exists|d: Seq<u8>|
            all_printable(d) && r@ == success_bytes(d, mime_of(file_name@), body@),
        !write_ok ==> r@ == error_response_bytes(Status::InternalError),
{
    if write_ok {
        let date = current_date();
        let ctype = guess_content_type(file_name);
        let r = build_success(date.as_slice(), ctype.as_slice(), body);
        proof {
            assert(all_printable(date@) && r@ == success_bytes(date@, mime_of(file_name@), body@));
        }
        r
    } else {
        error_response(Status::InternalError)
    }
}

} // verus!
