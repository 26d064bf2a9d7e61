//! Facade over a two-stage optical character recognition pipeline.
//!
//! An engine is built once from a text-detection model file and a
//! text-recognition model file; it then turns image files into recognized
//! text.  Every failure along that path is classified into a closed set of
//! error kinds, each carrying a human-readable message.
//!
//! The library's own functions are verified; the model parser, the image
//! codec and the inference pipeline are relied on as stated at each trusted
//! declaration, and the malformed-model cases they are assumed to reject
//! rather than abort on are named there too.

pub mod engine;
pub mod errors;
pub mod ingest;
