//! Routing: from the raw request buffer to what the server must do.
//!
//! `route_request` parses the buffer and decides the whole request short
//! of the file system: it either rejects the request — a head that fails
//! to parse or a POST body that is not UTF-8 earns `400 Bad Request`, a
//! body over `MAX_BODY_LEN` bytes `413 Payload Too Large`, a method other
//! than GET or POST `501 Not Implemented` — or it yields the file
//! operation to perform, with the target file name (`public` + path)
//! and, for POST, the body bytes to write.
//!
//! `plan_request` folds every rejection into its exact error response, so
//! a caller only ever sends bytes, reads a file, or writes one.

use vstd::prelude::*;
use crate::bytes::{bytes_eq, push_bytes};
use crate::parse::{parse_request, spec_parse, ParseError, SpecParse};
use crate::response::{error_response, error_response_bytes, Status};
use crate::utf8::is_utf8;

verus! {

/// The largest POST body accepted, in bytes.
pub const MAX_BODY_LEN: usize = 10000;

/// The directory all target files live under.
pub open spec fn public_root() -> Seq<u8> {
    seq![112u8, 117u8, 98u8, 108u8, 105u8, 99u8]
}

/// The method bytes of a GET.
pub open spec fn method_get() -> Seq<u8> {
    seq![71u8, 69u8, 84u8]
}

/// The method bytes of a POST.
pub open spec fn method_post() -> Seq<u8> {
    seq![80u8, 79u8, 83u8, 84u8]
}

/// Why a request earns an error response instead of a file operation.
#[derive(Clone, Copy, Debug, PartialEq, Eq, Structural)]
pub enum Rejection {
    /// The head failed to parse, or a POST body is not UTF-8.
    Parse(ParseError),
    /// A POST body is longer than `MAX_BODY_LEN` bytes.
    PayloadTooLarge,
    /// A method other than GET or POST.
    UnsupportedMethod,
}

/// The status each rejection is answered with: every parse failure maps
/// to `400 Bad Request`, an oversized body to `413 Payload Too Large`,
/// and an unsupported method to `501 Not Implemented`.
pub open spec fn rejection_status(rej: Rejection) -> Status {
    match rej {
        Rejection::Parse(_) => Status::BadRequest,
        Rejection::PayloadTooLarge => Status::PayloadTooLarge,
        Rejection::UnsupportedMethod => Status::NotImplemented,
    }
}

/// Maps a rejection to the status it is answered with.
pub fn status_of_rejection(rej: Rejection) -> (st: Status)
    ensures
        st == rejection_status(rej),
{
    match rej {
        Rejection::Parse(_) => Status::BadRequest,
        Rejection::PayloadTooLarge => Status::PayloadTooLarge,
        Rejection::UnsupportedMethod => Status::NotImplemented,
    }
}

/// The file operation a request asks for.
pub enum FileAction {
    /// Read this file and answer from what the read yields.
    Get { file_name: Vec<u8> },
    /// Write this body to this file and answer from whether it succeeded.
    Post { file_name: Vec<u8>, body: Vec<u8> },
}

/// The file operation at the specification level.
#[verifier::ext_equal]
pub enum SpecFileAction {
    Get(Seq<u8>),
    Post(Seq<u8>, Seq<u8>),
}

impl View for FileAction {
    type V = SpecFileAction;

    open spec fn view(&self) -> SpecFileAction {
        match self {
            FileAction::Get { file_name } => SpecFileAction::Get(file_name@),
            FileAction::Post { file_name, body } => SpecFileAction::Post(file_name@, body@),
        }
    }
}

/// The file operation owed to the raw buffer `s`, or why it is rejected:
/// a failed parse is a parse rejection; a GET maps to reading
/// `public` + path; a POST whose body (everything past the head) is not
/// UTF-8 is rejected as badly encoded, one whose body is longer than
/// `MAX_BODY_LEN` bytes as too large, and any other maps to writing the
/// body; any other method is rejected as unsupported.
pub open spec fn spec_route(s: Seq<u8>) -> Result<SpecFileAction, Rejection> {
    match spec_parse(s) {
        SpecParse::Fail(e) => Err(Rejection::Parse(e)),
        SpecParse::Head(h) => {
            let file_name = public_root() + h.path;
            if h.method == method_get() {
                Ok(SpecFileAction::Get(file_name))
            } else if h.method == method_post() {
                let body = s.subrange(h.end, s.len() as int);
                if !is_utf8(body) {
                    Err(Rejection::Parse(ParseError::InvalidEncoding))
                } else if body.len() > MAX_BODY_LEN {
                    Err(Rejection::PayloadTooLarge)
                } else {
                    Ok(SpecFileAction::Post(file_name, body))
                }
            } else {
                Err(Rejection::UnsupportedMethod)
            }
        },
    }
}

/// Routes the request in the raw buffer `s`, returning exactly the file
/// operation or the rejection that `spec_route` owes it.
pub fn route_request(s: &[u8]) -> (r: Result<FileAction, Rejection>)
    ensures
        match r {
            Ok(a) => {
                &&& spec_route(s@) matches Ok(sa)
                &&& a@ == sa
            },
            Err(rej) => spec_route(s@) == Err::<SpecFileAction, Rejection>(rej),
        },
{
    match parse_request(s) {
        Err(e) => Err(Rejection::Parse(e)),
        Ok(pr) => {
            let mut file_name: Vec<u8> = vec![112u8, 117u8, 98u8, 108u8, 105u8, 99u8];
            proof {
                assert(file_name@ =~= public_root());
            }
            push_bytes(&mut file_name, pr.path.as_slice());
            let get: Vec<u8> = vec![71u8, 69u8, 84u8];
            let post: Vec<u8> = vec![80u8, 79u8, 83u8, 84u8];
            proof {
                assert(get@ =~= method_get());
                assert(post@ =~= method_post());
            }
            if bytes_eq(pr.method.as_slice(), get.as_slice()) {
                let a = FileAction::Get { file_name };
                proof {
                    assert(a@ =~~= spec_route(s@)->Ok_0);
                }
                Ok(a)
            } else if bytes_eq(pr.method.as_slice(), post.as_slice()) {
                let body_slice = &s[pr.body_start..s.len()];
                if !crate::utf8::check_utf8(body_slice) {
                    Err(Rejection::Parse(ParseError::InvalidEncoding))
                } else if body_slice.len() > MAX_BODY_LEN {
                    Err(Rejection::PayloadTooLarge)
                } else {
                    let body = vstd::slice::slice_to_vec(body_slice);
                    let a = FileAction::Post { file_name, body };
                    proof {
                        assert(a@ =~~= spec_route(s@)->Ok_0);
                    }
                    Ok(a)
                }
            } else {
                Err(Rejection::UnsupportedMethod)
            }
        },
    }
}

/// What the server must do for a request.
pub enum RequestAction {
    /// Send these bytes; no file is touched.
    Respond(Vec<u8>),
    /// Read this file and answer from what the read yields.
    Get { file_name: Vec<u8> },
    /// Write this body to this file and answer from whether it succeeded.
    Post { file_name: Vec<u8>, body: Vec<u8> },
}

/// The action at the specification level.
#[verifier::ext_equal]
pub enum SpecAction {
    Respond(Seq<u8>),
    Get(Seq<u8>),
    Post(Seq<u8>, Seq<u8>),
}

impl View for RequestAction {
    type V = SpecAction;

    open spec fn view(&self) -> SpecAction {
        match self {
            RequestAction::Respond(r) => SpecAction::Respond(r@),
            RequestAction::Get { file_name } => SpecAction::Get(file_name@),
            RequestAction::Post { file_name, body } => SpecAction::Post(file_name@, body@),
        }
    }
}

/// The action owed to the raw buffer `s`: every rejection becomes its
/// exact error response, and a routed GET or POST passes through.
pub open spec fn spec_plan(s: Seq<u8>) -> SpecAction {
    match spec_route(s) {
        Err(rej) => SpecAction::Respond(error_response_bytes(rejection_status(rej))),
        Ok(SpecFileAction::Get(file_name)) => SpecAction::Get(file_name),
        Ok(SpecFileAction::Post(file_name, body)) => SpecAction::Post(file_name, body),
    }
}

/// Decides the request in the raw buffer `s`, returning exactly the
/// action that `spec_plan` owes it.
pub fn plan_request(s: &[u8]) -> (r: RequestAction)
    ensures
        r@ == spec_plan(s@),
{
    match route_request(s) {
        Err(rej) => {
            let r = RequestAction::Respond(error_response(status_of_rejection(rej)));
            proof {
                assert(r@ =~~= spec_plan(s@));
            }
            r
        },
        Ok(FileAction::Get { file_name }) => {
            let r = RequestAction::Get { file_name };
            proof {
                assert(r@ =~~= spec_plan(s@));
            }
            r
        },
        Ok(FileAction::Post { file_name, body }) => {
            let r = RequestAction::Post { file_name, body };
            proof {
                assert(r@ =~~= spec_plan(s@));
            }
            r
        },
    }
}

} // verus!
