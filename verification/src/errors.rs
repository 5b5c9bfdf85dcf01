use vstd::prelude::*;

verus! {

/// `zip::result::ZipError` is the error type of the ZIP codec; values of it
/// are carried through unread.
#[verifier::external_type_specification]
#[verifier::external_body]
pub struct ExZipError(zip::result::ZipError);

/// `std::io::Error` is returned by the stream copy that drains an entry;
/// values of it are carried through unread.
#[verifier::external_type_specification]
#[verifier::external_body]
pub struct ExIoError(std::io::Error);

/// `std::string::FromUtf8Error` is returned by `String::from_utf8`; values
/// of it are carried through unread.
#[verifier::external_type_specification]
#[verifier::external_body]
pub struct ExFromUtf8Error(std::string::FromUtf8Error);

/// ZIP downloading and unpacking errors.
///
/// Every stage of the pipeline reports its own failure, so a caller can tell
/// apart a transport failure, a wrong content type, a corrupt archive, an
/// archive with more than one entry, a payload that is not UTF-8, and a line
/// index that is out of range.
#[derive(Debug)]
pub enum Error {
    /// The HTTP status code did not indicate success.
    Download(u16),
    /// The HTTP request itself could not complete; carries the transport
    /// error's description.
    UrlGet(String),
    /// The status was success but reading the body failed; carries the
    /// transport error's description.
    UrlResp(String),
    /// The byte buffer is not a well-formed ZIP container.
    ZipArc(zip::result::ZipError),
    /// The first entry could not be opened (an empty archive, for one).
    ZipIdx(zip::result::ZipError),
    /// The unpacked content is not valid UTF-8.
    ZipToStr(std::string::FromUtf8Error),
    /// Streaming the entry's decompressed bytes failed.
    IoCopy(std::io::Error),
    /// The response carried no content-type header.
    Header,
    /// The content-type header is not readable as text; carries its raw
    /// bytes.
    HeaderStr(Vec<u8>),
    /// The content-type header does not name a ZIP payload; carries the
    /// header's text.
    NotZipFile(String),
    /// The requested line index is at or past the line count.
    NoSuchLine(usize),
    /// The archive holds more than one entry; carries the entry count.
    TooManyFiles(usize),
}

} // verus!
