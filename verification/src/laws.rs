use vstd::prelude::*;

use crate::codec::{decode_dims, pixel_count, png_encoding, webp_encoding};
use crate::limits::MAX_PIXELS;
use crate::pipeline::{
    reply_matches, sanitize_spec, spec_content_type, HttpReply, OutputFormat, ReplyBody,
};
use crate::reject::{spec_reject_body, spec_status, RejectKind};
use crate::request::{request_spec, UploadPart};

verus! {

/// A success reply: status 200, an image body, and one of the two output
/// content-types.
pub open spec fn is_success_reply(r: HttpReply) -> bool {
    &&& r.status == 200
    &&& r.body is Image
    &&& (r.content_type@ == spec_content_type(OutputFormat::Webp) || r.content_type@
        == spec_content_type(OutputFormat::Png))
}

/// A reply that reports the given rejection: its status, the JSON
/// content-type, and its fixed JSON body.
pub open spec fn is_reject_reply_for(r: HttpReply, k: RejectKind) -> bool {
    &&& r.status == spec_status(k)
    &&& r.content_type@ == "application/json"@
    &&& (r.body matches ReplyBody::Json(s) && s@ == spec_reject_body(k))
}

/// One of the five documented error replies.
pub open spec fn is_reject_reply(r: HttpReply) -> bool {
    exists|k: RejectKind| is_reject_reply_for(r, k)
}

/// Every reply the request pipeline owes is exactly one of: a 200 response
/// carrying an image body, or one of the five documented error responses —
/// never a response mixing a success status with an error body.
pub proof fn lemma_reply_classified(parts: Seq<UploadPart>, r: HttpReply)
    requires
        reply_matches(r, request_spec(parts)),
    ensures
        is_success_reply(r) || is_reject_reply(r),
        !(is_success_reply(r) && is_reject_reply(r)),
{
    match request_spec(parts) {
        Ok(ok) => {
            assert(is_success_reply(r));
        },
        Err(k) => {
            assert(is_reject_reply_for(r, k));
        },
    }
    if is_success_reply(r) && is_reject_reply(r) {
        let k = choose|k: RejectKind| is_reject_reply_for(r, k);
        assert(r.body is Image);
        assert(r.body is Json);
    }
}

/// Determinism: the sanitization outcome is a function of the collected
/// bytes alone — re-running the same input yields a byte-for-byte identical
/// outcome, encoded bytes included.
pub proof fn lemma_sanitize_deterministic(a: Seq<u8>, b: Seq<u8>)
    requires
        a == b,
    ensures
        sanitize_spec(a) == sanitize_spec(b),
{
}

/// Determinism at the request level: equal part streams yield equal
/// outcomes.
pub proof fn lemma_request_deterministic(a: Seq<UploadPart>, b: Seq<UploadPart>)
    requires
        a == b,
    ensures
        request_spec(a) == request_spec(b),
{
}

/// Success is owed exactly when the buffer is non-empty, decodes, passes the
/// pixel-count guard, and at least one of the two encoders accepts the
/// resized pixels.
pub proof fn lemma_success_characterized(bytes: Seq<u8>)
    ensures
        sanitize_spec(bytes) is Ok <==> {
            &&& bytes.len() > 0
            &&& decode_dims(bytes) is Some
            &&& pixel_count(decode_dims(bytes)->0) <= MAX_PIXELS as nat
            &&& (webp_encoding(bytes) is Some || png_encoding(bytes) is Some)
        },
{
}

/// Fallback: when the preferred encoder fails on a collected, decodable,
/// guard-passing buffer and the fallback encoder succeeds, the outcome is a
/// success carrying the fallback encoding — never an error.
pub proof fn lemma_fallback_is_success(bytes: Seq<u8>)
    requires
        bytes.len() > 0,
        decode_dims(bytes) is Some,
        pixel_count(decode_dims(bytes)->0) <= MAX_PIXELS as nat,
        webp_encoding(bytes) is None,
        png_encoding(bytes) is Some,
    ensures
        sanitize_spec(bytes) == Ok::<(Seq<u8>, OutputFormat), RejectKind>(
            (png_encoding(bytes)->0, OutputFormat::Png),
        ),
{
}

} // verus!
