//! A polite downloader for Common Crawl data: the command-line model,
//! the crawl-name format, the error kinds and the download builders.

pub mod cli;
pub mod errors;

pub use errors::DownloadError;
pub mod client;
