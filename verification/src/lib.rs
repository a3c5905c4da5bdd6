//! Core logic of a command-line music downloader: search-result records,
//! selection validation, download-file naming, request-URL construction,
//! and the bounded-retry download engine with clamped progress tracking.

pub mod args;
pub mod download;
pub mod errors;
pub mod filename;
pub mod numfmt;
pub mod select;
pub mod track;
pub mod urls;
