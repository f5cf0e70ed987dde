use vstd::prelude::*;

use crate::limits::{MAX_PIXELS, TARGET_DIM};
use crate::reject::RejectKind;

verus! {

/// What decoding an upload yields: `None` when the bytes are not a
/// well-formed image in any auto-detected format, otherwise the true decoded
/// width and height. Decoding reads only the bytes themselves, so the result
/// is a function of them alone.
pub uninterp spec fn decode_dims(bytes: Seq<u8>) -> Option<(u32, u32)>;

/// The dimensions the fixed bounding-box resize produces for the image
/// decoded from `bytes`: a deterministic function of the source bytes, since
/// both decoding and the resampling arithmetic are.
pub uninterp spec fn resized_dims(bytes: Seq<u8>) -> (u32, u32);

/// The preferred-format encoding of the resized image decoded from `bytes`:
/// `None` when that encoder refuses the pixel buffer, otherwise the exact
/// encoded byte sequence. Deterministic in the source bytes.
pub uninterp spec fn webp_encoding(bytes: Seq<u8>) -> Option<Seq<u8>>;

/// The fallback-format encoding of the resized image decoded from `bytes`,
/// on the same terms as `webp_encoding`.
pub uninterp spec fn png_encoding(bytes: Seq<u8>) -> Option<Seq<u8>>;

#[verifier::external_type_specification]
#[verifier::external_body]
pub struct ExDynamicImage(image::DynamicImage);

#[verifier::external_type_specification]
#[verifier::external_body]
pub struct ExImageError(image::ImageError);

/// A decoded in-memory pixel grid, carrying its true post-decode dimensions
/// and, in ghost form, the upload bytes it was decoded from. Its fields are
/// private: only `decode_and_guard` builds one, so the held image is always
/// the decode of `src_bytes` — which is what lets later stages' contracts
/// speak of the source bytes alone.
pub struct DecodedImage {
    img: image::DynamicImage,
    width: u32,
    height: u32,
    src: Ghost<Seq<u8>>,
}

impl DecodedImage {
    /// The upload bytes this image was decoded from.
    pub closed spec fn src_bytes(&self) -> Seq<u8> {
        self.src@
    }

    pub closed spec fn spec_width(&self) -> u32 {
        self.width
    }

    pub closed spec fn spec_height(&self) -> u32 {
        self.height
    }

    pub fn width(&self) -> (w: u32)
        ensures
            w == self.spec_width(),
    {
        self.width
    }

    pub fn height(&self) -> (h: u32)
        ensures
            h == self.spec_height(),
    {
        self.height
    }
}

/// The decoded image after the bounding-box resize, still tied in ghost form
/// to the upload bytes the pipeline started from. Only `resize_to_box`
/// builds one, from a `DecodedImage`, preserving that tie.
pub struct ResizedImage {
    img: image::DynamicImage,
    width: u32,
    height: u32,
    src: Ghost<Seq<u8>>,
}

impl ResizedImage {
    /// The upload bytes the pre-resize image was decoded from.
    pub closed spec fn src_bytes(&self) -> Seq<u8> {
        self.src@
    }

    pub closed spec fn spec_width(&self) -> u32 {
        self.width
    }

    pub closed spec fn spec_height(&self) -> u32 {
        self.height
    }

    pub fn width(&self) -> (w: u32)
        ensures
            w == self.spec_width(),
    {
        self.width
    }

    pub fn height(&self) -> (h: u32)
        ensures
            h == self.spec_height(),
    {
        self.height
    }
}

/// Relies on `image::load_from_memory`: it auto-detects the format from the
/// byte content alone (never from client-supplied names or types) and
/// decodes deterministically, and on `DynamicImage::width`/`height`, which
/// report the true decoded dimensions.
#[verifier::external_body]
fn load_image(data: &Vec<u8>) -> (r: Result<(image::DynamicImage, u32, u32), image::ImageError>)
    ensures
        r is Ok <==> decode_dims(data@) is Some,
        r is Ok ==> Some((r->Ok_0.1, r->Ok_0.2)) == decode_dims(data@),
{
    match image::load_from_memory(data) {
        Ok(img) => {
            let width = img.width();
            let height = img.height();
            Ok((img, width, height))
        },
        Err(e) => Err(e),
    }
}

/// Relies on `image::DynamicImage::resize`: it scales to the maximum size
/// that fits within the given bounds, preserves aspect ratio, clamps each
/// resulting dimension into `1..=TARGET_DIM`, and resamples
/// deterministically with the requested Lanczos filter.
#[verifier::external_body]
fn resize_lanczos(d: &DecodedImage) -> (r: (image::DynamicImage, u32, u32))
    ensures
        (r.1, r.2) == resized_dims(d.src_bytes()),
        1 <= r.1 <= TARGET_DIM,
        1 <= r.2 <= TARGET_DIM,
{
    let img = d.img.resize(TARGET_DIM, TARGET_DIM, image::imageops::FilterType::Lanczos3);
    let width = img.width();
    let height = img.height();
    (img, width, height)
}

/// Relies on `image::DynamicImage::write_to` with `ImageFormat::WebP`:
/// whether the encoder accepts the pixel buffer and what bytes it writes
/// depend only on that buffer, and a write into a fresh in-memory vector
/// either completes in full or errors without a partial result being kept.
#[verifier::external_body]
pub(crate) fn encode_webp(img: &ResizedImage) -> (r: Result<Vec<u8>, image::ImageError>)
    ensures
        r is Ok <==> webp_encoding(img.src_bytes()) is Some,
        r is Ok ==> Some(r->Ok_0@) == webp_encoding(img.src_bytes()),
{
    let mut out: Vec<u8> = Vec::new();
    match img.img.write_to(&mut std::io::Cursor::new(&mut out), image::ImageFormat::WebP) {
        Ok(()) => Ok(out),
        Err(e) => Err(e),
    }
}

/// Relies on `image::DynamicImage::write_to` with `ImageFormat::Png`, on the
/// same terms as the preferred-format encoder.
#[verifier::external_body]
pub(crate) fn encode_png(img: &ResizedImage) -> (r: Result<Vec<u8>, image::ImageError>)
    ensures
        r is Ok <==> png_encoding(img.src_bytes()) is Some,
        r is Ok ==> Some(r->Ok_0@) == png_encoding(img.src_bytes()),
{
    let mut out: Vec<u8> = Vec::new();
    match img.img.write_to(&mut std::io::Cursor::new(&mut out), image::ImageFormat::Png) {
        Ok(()) => Ok(out),
        Err(e) => Err(e),
    }
}

/// The decoded pixel count, as the unbounded product of the dimensions.
pub open spec fn pixel_count(dims: (u32, u32)) -> nat {
    (dims.0 as nat) * (dims.1 as nat)
}

/// Decode & Guard: decode the collected bytes, rejecting anything that is
/// not a well-formed image, then reject images whose true decoded pixel
/// count exceeds the cap even though decoding succeeded.
pub fn decode_and_guard(data: &Vec<u8>) -> (r: Result<DecodedImage, RejectKind>)
    ensures
        match decode_dims(data@) {
            None => r is Err && r->Err_0 == RejectKind::InvalidImage,
            Some(dims) => {
                if pixel_count(dims) > MAX_PIXELS as nat {
                    r is Err && r->Err_0 == RejectKind::ImageTooLarge
                } else {
                    r is Ok && r->Ok_0.src_bytes() == data@
                        && (r->Ok_0.spec_width(), r->Ok_0.spec_height()) == dims
                }
            },
        },
{
    let (img, w, h) = match load_image(data) {
        Ok(t) => t,
        Err(_) => {
            return Err(RejectKind::InvalidImage);
        },
    };
    proof {
        assert((w as nat) * (h as nat) <= (u32::MAX as nat) * (u32::MAX as nat)
            && (w as nat) * (h as nat) == ((w as u64) * (h as u64)) as nat) by (nonlinear_arith)
            requires
                w <= u32::MAX && h <= u32::MAX,
        ;
    }
    if (w as u64) * (h as u64) > MAX_PIXELS {
        return Err(RejectKind::ImageTooLarge);
    }
    Ok(DecodedImage { img, width: w, height: h, src: Ghost(data@) })
}

/// Resize: scale the guarded image so it fits within the fixed target box,
/// aspect ratio preserved; images smaller than the box are scaled up to it,
/// the one uniform policy.
pub fn resize_to_box(d: &DecodedImage) -> (r: ResizedImage)
    ensures
        r.src_bytes() == d.src_bytes(),
        (r.spec_width(), r.spec_height()) == resized_dims(d.src_bytes()),
        1 <= r.spec_width() <= TARGET_DIM,
        1 <= r.spec_height() <= TARGET_DIM,
{
    let (img, width, height) = resize_lanczos(d);
    ResizedImage { img, width, height, src: Ghost(d.src_bytes()) }
}

} // verus!
