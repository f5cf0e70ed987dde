//! Untrusted-image sanitization: a bounded ingestion-and-transcode pipeline.
//!
//! An uploaded byte stream is collected under a hard byte ceiling, decoded
//! with format auto-detection, guarded against decompression bombs by a
//! pixel-count cap, deterministically resized into a fixed bounding box, and
//! re-encoded into a preferred compact format with a universal fallback.

pub mod codec;
pub mod collector;
pub mod laws;
pub mod limits;
pub mod pipeline;
pub mod reject;
pub mod request;
