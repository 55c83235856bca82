//! Recompresses the embedded binary streams of a PDF document: raster images
//! are re-encoded as quality-controlled JPEG, remaining compressible streams
//! are re-run through lossless compression, and a non-standard extra zlib
//! layer that some producers wrap around JPEG data is detected, removed and
//! restored around the result.

pub mod extra;
pub mod pipeline;
pub mod recode;
pub mod sniff;
pub mod stream;
