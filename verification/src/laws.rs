//! Laws that relate the responses to each other.

use vstd::prelude::*;
use crate::response::{ok_date_prefix, success_bytes, success_tail};

verus! {

/// The shape of every success response: it opens with the 23 fixed bytes
/// `"HTTP/1.1 200 OK\r\nDate: "`, then carries the date, and everything
/// after the date is `success_tail`, which depends on the content type
/// and the body alone.
pub proof fn lemma_success_structure(d: Seq<u8>, ct: Seq<u8>, body: Seq<u8>)
    ensures
        success_bytes(d, ct, body).len() == 23 + d.len() as int + success_tail(ct, body).len(),
        success_bytes(d, ct, body).subrange(0, 23) == ok_date_prefix(),
        success_bytes(d, ct, body).subrange(
            23 + d.len() as int,
            success_bytes(d, ct, body).len() as int,
        ) == success_tail(ct, body),
{
    assert(ok_date_prefix().len() == 23);
    assert(success_bytes(d, ct, body).subrange(0, 23) =~= ok_date_prefix());
    assert(success_bytes(d, ct, body).subrange(
        23 + d.len() as int,
        success_bytes(d, ct, body).len() as int,
    ) =~= success_tail(ct, body));
}

/// Serving the same content twice yields byte-identical responses except
/// for the date: whatever dates the two responses carry, the bytes before
/// the date agree, and so do all the bytes after it.
pub proof fn lemma_get_idempotent(d1: Seq<u8>, d2: Seq<u8>, ct: Seq<u8>, body: Seq<u8>)
    ensures
        success_bytes(d1, ct, body).subrange(0, 23) == success_bytes(d2, ct, body).subrange(0, 23),
        success_bytes(d1, ct, body).subrange(
            23 + d1.len() as int,
            success_bytes(d1, ct, body).len() as int,
        ) == success_bytes(d2, ct, body).subrange(
            23 + d2.len() as int,
            success_bytes(d2, ct, body).len() as int,
        ),
{
    lemma_success_structure(d1, ct, body);
    lemma_success_structure(d2, ct, body);
}

/// The body a success response serves is exactly its last `body.len()`
/// bytes: the response embeds the content unchanged.
pub proof fn lemma_success_serves_body(d: Seq<u8>, ct: Seq<u8>, body: Seq<u8>)
    ensures
        success_bytes(d, ct, body).subrange(
            success_bytes(d, ct, body).len() - body.len() as int,
            success_bytes(d, ct, body).len() as int,
        ) == body,
{
    assert(success_bytes(d, ct, body).subrange(
        success_bytes(d, ct, body).len() - body.len() as int,
        success_bytes(d, ct, body).len() as int,
    ) =~= body);
}

/// A write-then-read round trip: the body a POST response echoes and the
/// body a later GET serves from the written file are the same bytes,
/// whatever dates and content types the two responses carry.
pub proof fn lemma_post_get_round_trip(
    dp: Seq<u8>,
    ctp: Seq<u8>,
    dg: Seq<u8>,
    ctg: Seq<u8>,
    body: Seq<u8>,
)
    ensures
        success_bytes(dp, ctp, body).subrange(
            success_bytes(dp, ctp, body).len() - body.len() as int,
            success_bytes(dp, ctp, body).len() as int,
        ) == success_bytes(dg, ctg, body).subrange(
            success_bytes(dg, ctg, body).len() - body.len() as int,
            success_bytes(dg, ctg, body).len() as int,
        ),
{
    lemma_success_serves_body(dp, ctp, body);
    lemma_success_serves_body(dg, ctg, body);
}

} // verus!
