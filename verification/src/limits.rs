use vstd::prelude::*;

verus! {

/// Hard ceiling on the collected upload, in bytes (6 MiB). Any write that
/// would push the buffer past this is rejected outright.
pub const MAX_UPLOAD_BYTES: usize = 6 * 1024 * 1024;

/// Cap on the decoded pixel count (width times height), the guard against
/// small files that expand into enormous pixel buffers.
pub const MAX_PIXELS: u64 = 30_000_000;

/// Side of the square bounding box every sanitized image is resized to fit,
/// aspect ratio preserved.
pub const TARGET_DIM: u32 = 256;

} // verus!
