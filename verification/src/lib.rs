//! Download a single-file ZIP archive over HTTP and read its content.
//!
//! The pipeline fetches a remote archive, checks that the response declares
//! a ZIP payload before anything else, opens the bytes as a ZIP container,
//! refuses containers with more than one entry, and decompresses the sole
//! entry into an owned buffer. The buffer is then readable as raw bytes, as
//! UTF-8 text, or as a single line of that text, any number of times.

pub mod archive;
pub mod downloader;
pub mod errors;
pub mod lines;
pub mod response;
mod textio;

pub use archive::unzip;
pub use downloader::lemma_bytes_idempotent;
pub use downloader::lemma_bytes_round_trip;
pub use downloader::lemma_text_idempotent;
pub use downloader::lemma_text_round_trip;
pub use downloader::ZipDownloader;
pub use errors::Error;
pub use response::validate_response;
