//! Normalises the character encoding of subtitle files in two decoupled
//! phases: detection records a best-guess encoding label for every file, and
//! transcoding rewrites the files named by those records as UTF-8.
//!
//! The crate holds the decisions of both phases. Reading and writing files is
//! left to the caller, which hands the outcome of each file operation back in.

pub mod charset;
pub mod detect;
pub mod discovery;
pub mod label;
pub mod laws;
pub mod manifest;
pub mod report;
pub mod transcode;
