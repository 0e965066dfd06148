//! Archiving of imageboard threads: board addressing, URL normalization,
//! extraction of image links from a parsed page, and download bookkeeping.
pub mod board;
pub mod document;
pub mod download;
pub mod file;
pub mod text;
pub mod thread;
