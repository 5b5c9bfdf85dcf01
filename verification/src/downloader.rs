use vstd::prelude::*;
use vstd::utf8::decode_utf8;
use vstd::utf8::valid_utf8;
use crate::archive::unzip;
use crate::archive::zip_decode;
use crate::archive::zip_entry_ok;
use crate::archive::zip_entry_opens;
use crate::errors::Error;
use crate::lines::nth_line;
use crate::lines::spec_lines;
use crate::response::contains_seq;
use crate::response::header_readable;
use crate::response::spec_status_ok;
use crate::response::validate_response;
use crate::response::zip_marker;
use crate::textio::bytes_to_string;
use crate::textio::copy_bytes;

verus! {

/// A downloaded and unpacked single-entry ZIP archive.
///
/// An instance is populated by one run of the download-then-unzip pipeline
/// and is immutable afterwards; every read hands out a fresh copy of the
/// unpacked content, so completed instances are safe to share and to clone.
#[derive(Clone)]
pub struct ZipDownloader {
    url: String,
    unpacked: Vec<u8>,
}

impl ZipDownloader {
    /// The URL the instance was built from.
    pub closed spec fn spec_url(&self) -> Seq<char> {
        self.url@
    }

    /// The decompressed content of the archive's sole entry.
    pub closed spec fn content(&self) -> Seq<u8> {
        self.unpacked@
    }

    /// Builds an instance in the empty state, before any payload has been
    /// unpacked into it.
    fn new(url: &str) -> (r: Result<Self, Error>)
        ensures
            r matches Ok(d) && d.spec_url() == url@ && d.content() == Seq::<u8>::empty(),
    {
        Ok(ZipDownloader { url: url.to_owned(), unpacked: Vec::new() })
    }

    /// Validates a fetched response and unpacks its body as a single-entry
    /// ZIP archive.
    ///
    /// The checks run in a fixed order, and the first that fails decides
    /// the error: a missing content-type header, an unreadable one, one
    /// that does not name a ZIP payload, a failing status, an unparseable
    /// container, a container with more than one entry, and a failing
    /// decompression each report their own cause. A validated response
    /// whose body is a well-formed single-entry container that extracts
    /// cleanly is owed an instance holding the sole entry's decompressed
    /// bytes.
    ///
    /// The network round trip itself stays with the caller, who hands in
    /// the response's status code, its raw content-type header, and its
    /// body.
    pub fn get(url: &str, status: u16, content_type: Option<Vec<u8>>, body: Vec<u8>) -> (r: Result<
        Self,
        Error,
    >)
        ensures
            match content_type {
                None => r == Err::<Self, Error>(Error::Header),
                Some(h) => {
                    if !header_readable(h@) {
                        r matches Err(e) && e matches Error::HeaderStr(b) && b@ == h@
                    } else if !contains_seq(decode_utf8(h@), zip_marker()) {
                        r matches Err(e) && e matches Error::NotZipFile(s) && s@ == decode_utf8(h@)
                    } else if !spec_status_ok(status) {
                        r == Err::<Self, Error>(Error::Download(status))
                    } else {
                        match zip_decode(body@) {
                            Some(entries) => match r {
                                Ok(d) => entries.len() == 1 && zip_entry_ok(body@) && d.content()
                                    == entries[0] && d.spec_url() == url@,
                                Err(e) => {
                                    if entries.len() > 1 {
                                        e == Error::TooManyFiles(entries.len() as usize)
                                    } else if entries.len() == 0 {
                                        e matches Error::ZipIdx(_)
                                    } else {
                                        &&& !zip_entry_ok(body@)
                                        &&& if !zip_entry_opens(body@) {
                                            e matches Error::ZipIdx(_)
                                        } else {
                                            e matches Error::IoCopy(_)
                                        }
                                    }
                                },
                            },
                            None => r matches Err(e) && e matches Error::ZipArc(_),
                        }
                    }
                },
            },
    {
        let mut c = match Self::new(url) {
            Ok(c) => c,
            Err(e) => {
                return Err(e);
            },
        };
        match validate_response(status, &content_type) {
            Ok(()) => (),
            Err(e) => {
                return Err(e);
            },
        }
        let data = match unzip(body) {
            Ok(v) => v,
            Err(e) => {
                return Err(e);
            },
        };
        c.unpacked = data;
        Ok(c)
    }

    /// Returns the unpacked content decoded as UTF-8 text. Fails exactly
    /// when the content is not valid UTF-8, and never changes the
    /// instance.
    pub fn text(&self) -> (r: Result<String, Error>)
        ensures
            match r {
                Ok(s) => valid_utf8(self.content()) && s@ == decode_utf8(self.content()),
                Err(e) => !valid_utf8(self.content()) && e matches Error::ZipToStr(_),
            },
    {
        let vec = copy_bytes(&self.unpacked);
        match bytes_to_string(vec) {
            Ok(s) => Ok(s),
            Err(e) => Err(Error::ZipToStr(e)),
        }
    }

    /// Returns line `n` of the unpacked text, terminator stripped and
    /// zero-indexed. Inherits the text decoding failure; past the last
    /// line it fails with the requested index.
    pub fn line(&self, n: usize) -> (r: Result<String, Error>)
        ensures
            match r {
                Ok(l) => valid_utf8(self.content()) && n < spec_lines(
                    decode_utf8(self.content()),
                ).len() && l@ == spec_lines(decode_utf8(self.content()))[n as int],
                Err(e) => {
                    if !valid_utf8(self.content()) {
                        e matches Error::ZipToStr(_)
                    } else {
                        n >= spec_lines(decode_utf8(self.content())).len() && e
                            == Error::NoSuchLine(n)
                    }
                },
            },
    {
        let text = match self.text() {
            Ok(t) => t,
            Err(e) => {
                return Err(e);
            },
        };
        match nth_line(text.as_str(), n) {
            Some(l) => Ok(l),
            None => Err(Error::NoSuchLine(n)),
        }
    }

    /// Returns a fresh copy of the unpacked content, verbatim. Cannot fail
    /// and never changes the instance.
    pub fn bytes(&self) -> (r: Vec<u8>)
        ensures
            r@ == self.content(),
    {
        copy_bytes(&self.unpacked)
    }
}

/// Round trip through the pipeline, read as bytes: an instance built from a
/// body holding a single-entry ZIP carries that entry's decompressed bytes,
/// so any result the bytes accessor admits for it is those bytes verbatim.
pub proof fn lemma_bytes_round_trip(
    body: Seq<u8>,
    entry: Seq<u8>,
    d: &ZipDownloader,
    r: Seq<u8>,
)
    requires
        zip_decode(body) == Some(seq![entry]),
        d.content() == zip_decode(body)->Some_0[0],
        r == d.content(),
    ensures
        r == entry,
{
}

/// Round trip through the pipeline, read as text: when the single entry's
/// decompressed bytes are valid UTF-8, any text the accessor admits for an
/// instance built from them is the decoding of the entry itself.
pub proof fn lemma_text_round_trip(
    body: Seq<u8>,
    entry: Seq<u8>,
    d: &ZipDownloader,
    t: Seq<char>,
)
    requires
        zip_decode(body) == Some(seq![entry]),
        d.content() == zip_decode(body)->Some_0[0],
        valid_utf8(entry),
        t == decode_utf8(d.content()),
    ensures
        t == decode_utf8(entry),
{
}

/// Reading the bytes of a completed instance is idempotent: the accessor's
/// contract pins the result to the instance's content, so any two results
/// it admits for the same instance are equal, and the instance itself is
/// never changed.
pub proof fn lemma_bytes_idempotent(d: &ZipDownloader, r1: Seq<u8>, r2: Seq<u8>)
    requires
        r1 == d.content(),
        r2 == d.content(),
    ensures
        r1 == r2,
{
}

/// Reading the text of a completed instance is idempotent: the accessor's
/// contract pins the decoding of the instance's content, so any two texts
/// it admits for the same instance are equal, and the instance itself is
/// never changed.
pub proof fn lemma_text_idempotent(d: &ZipDownloader, r1: Seq<char>, r2: Seq<char>)
    requires
        valid_utf8(d.content()),
        r1 == decode_utf8(d.content()),
        r2 == decode_utf8(d.content()),
    ensures
        r1 == r2,
{
}

} // verus!
