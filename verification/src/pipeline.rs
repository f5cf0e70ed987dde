use vstd::prelude::*;

use crate::codec::{
    decode_and_guard, decode_dims, encode_png, encode_webp, pixel_count, png_encoding,
    resize_to_box, webp_encoding, ResizedImage,
};
use crate::limits::MAX_PIXELS;
use crate::reject::{reject_body, spec_reject_body, spec_status, status_code, RejectKind};

verus! {

/// The two mutually exclusive output encodings; exactly one is chosen per
/// request.
#[derive(Clone, Copy, Debug, PartialEq, Eq, Structural)]
pub enum OutputFormat {
    Webp,
    Png,
}

/// The content-type string declared for each output encoding.
pub open spec fn spec_content_type(fmt: OutputFormat) -> Seq<char> {
    match fmt {
        OutputFormat::Webp => "image/webp"@,
        OutputFormat::Png => "image/png"@,
    }
}

pub fn content_type_of(fmt: OutputFormat) -> (s: String)
    ensures
        s@ == spec_content_type(fmt),
{
    match fmt {
        OutputFormat::Webp => "image/webp".to_owned(),
        OutputFormat::Png => "image/png".to_owned(),
    }
}

/// A complete, fully written encoding of the sanitized image in exactly one
/// of the two output formats.
pub struct SanitizedOutput {
    pub bytes: Vec<u8>,
    pub format: OutputFormat,
}

/// What the encode stage owes for an image resized from `bytes`: the
/// preferred encoding when its encoder accepts the pixels, the fallback
/// encoding when only that one does, and the internal fault when both
/// encoders refuse.
pub open spec fn encode_outcome(bytes: Seq<u8>) -> Result<(Seq<u8>, OutputFormat), RejectKind> {
    match webp_encoding(bytes) {
        Some(b) => Ok((b, OutputFormat::Webp)),
        None => match png_encoding(bytes) {
            Some(b) => Ok((b, OutputFormat::Png)),
            None => Err(RejectKind::ProcessingFailed),
        },
    }
}

/// How an executable encode result must relate to the specified outcome.
pub open spec fn output_matches(
    r: Result<SanitizedOutput, RejectKind>,
    outcome: Result<(Seq<u8>, OutputFormat), RejectKind>,
) -> bool {
    match outcome {
        Ok(ok) => r is Ok && r->Ok_0.bytes@ == ok.0 && r->Ok_0.format == ok.1,
        Err(k) => r is Err && r->Err_0 == k,
    }
}

/// The ordered-fallback policy on the two encoder outcomes, taken as plain
/// values: the preferred encoding wins whenever it exists, the fallback is
/// used only in its absence, and only the absence of both is the internal
/// `ProcessingFailed` fault.
pub fn select_encoding(webp: Option<Vec<u8>>, png: Option<Vec<u8>>) -> (r: Result<
    SanitizedOutput,
    RejectKind,
>)
    ensures
        webp matches Some(b) ==> r is Ok && r->Ok_0.bytes@ == b@ && r->Ok_0.format
            == OutputFormat::Webp,
        webp is None ==> (png matches Some(b) ==> r is Ok && r->Ok_0.bytes@ == b@
            && r->Ok_0.format == OutputFormat::Png),
        webp is None && png is None ==> r is Err && r->Err_0 == RejectKind::ProcessingFailed,
{
    match webp {
        Some(bytes) => Ok(SanitizedOutput { bytes, format: OutputFormat::Webp }),
        None => match png {
            Some(bytes) => Ok(SanitizedOutput { bytes, format: OutputFormat::Png }),
            None => Err(RejectKind::ProcessingFailed),
        },
    }
}

/// Transcode: attempt the preferred compact encoding of the resized image,
/// fall back to the universal encoding only when the preferred encoder
/// fails, and report the internal fault only when both fail.
pub fn transcode(img: &ResizedImage) -> (r: Result<SanitizedOutput, RejectKind>)
    ensures
        output_matches(r, encode_outcome(img.src_bytes())),
{
    let webp = match encode_webp(img) {
        Ok(bytes) => Some(bytes),
        Err(_) => None,
    };
    if webp.is_some() {
        select_encoding(webp, None)
    } else {
        let png = match encode_png(img) {
            Ok(bytes) => Some(bytes),
            Err(_) => None,
        };
        select_encoding(None, png)
    }
}

/// The full sanitization outcome owed for a collected upload buffer: the
/// empty buffer is `MissingFile`, undecodable bytes are `InvalidImage`, a
/// decoded pixel count over the cap is `ImageTooLarge`, and everything else
/// is the encode stage's outcome for the resized image.
pub open spec fn sanitize_spec(bytes: Seq<u8>) -> Result<(Seq<u8>, OutputFormat), RejectKind> {
    if bytes.len() == 0 {
        Err(RejectKind::MissingFile)
    } else {
        match decode_dims(bytes) {
            None => Err(RejectKind::InvalidImage),
            Some(dims) => {
                if pixel_count(dims) > MAX_PIXELS as nat {
                    Err(RejectKind::ImageTooLarge)
                } else {
                    encode_outcome(bytes)
                }
            },
        }
    }
}

/// Decode & Guard then Transcode, strictly in that order, over an already
/// collected buffer; every outcome is pinned by `sanitize_spec`.
pub fn sanitize_bytes(data: &Vec<u8>) -> (r: Result<SanitizedOutput, RejectKind>)
    ensures
        output_matches(r, sanitize_spec(data@)),
{
    if data.len() == 0 {
        return Err(RejectKind::MissingFile);
    }
    let decoded = match decode_and_guard(data) {
        Ok(img) => img,
        Err(k) => {
            return Err(k);
        },
    };
    let resized = resize_to_box(&decoded);
    transcode(&resized)
}

/// The response handed back to the transport: an HTTP-style status, a
/// content-type, and either sanitized image bytes or a fixed JSON error
/// body.
pub enum ReplyBody {
    Image(Vec<u8>),
    Json(String),
}

pub struct HttpReply {
    pub status: u16,
    pub content_type: String,
    pub body: ReplyBody,
}

/// How a reply must relate to a sanitization outcome: a success is status
/// 200 with the encoded bytes under the matching content-type; a rejection
/// is the kind's status with its fixed JSON body under `application/json`.
pub open spec fn reply_matches(
    r: HttpReply,
    outcome: Result<(Seq<u8>, OutputFormat), RejectKind>,
) -> bool {
    match outcome {
        Ok(ok) => r.status == 200 && r.content_type@ == spec_content_type(ok.1)
            && (r.body matches ReplyBody::Image(v) && v@ == ok.0),
        Err(k) => r.status == spec_status(k) && r.content_type@ == "application/json"@
            && (r.body matches ReplyBody::Json(s) && s@ == spec_reject_body(k)),
    }
}

/// Maps a sanitization outcome onto the transport's response table.
pub fn respond(outcome: Result<SanitizedOutput, RejectKind>) -> (r: HttpReply)
    ensures
        outcome matches Ok(out) ==> reply_matches(r, Ok((out.bytes@, out.format))),
        outcome matches Err(k) ==> reply_matches(
            r,
            Err::<(Seq<u8>, OutputFormat), RejectKind>(k),
        ),
{
    match outcome {
        Ok(out) => HttpReply {
            status: 200,
            content_type: content_type_of(out.format),
            body: ReplyBody::Image(out.bytes),
        },
        Err(k) => HttpReply {
            status: status_code(k),
            content_type: "application/json".to_owned(),
            body: ReplyBody::Json(reject_body(k)),
        },
    }
}

/// The whole per-buffer pipeline: sanitize the collected bytes and wrap the
/// outcome as a transport reply.
pub fn handle_upload(data: &Vec<u8>) -> (r: HttpReply)
    ensures
        reply_matches(r, sanitize_spec(data@)),
{
    respond(sanitize_bytes(data))
}

} // verus!
