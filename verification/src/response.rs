use vstd::prelude::*;
use vstd::utf8::decode_utf8;
use vstd::utf8::partial_valid_utf8_extend_ascii_block;
use vstd::utf8::valid_utf8;
use vstd::string::StrSliceExecFns;
use crate::errors::Error;
use crate::textio::bytes_to_string;
use crate::textio::copy_bytes;

verus! {

/// True when a status code counts as a success: the 2xx class, the same
/// classification that HTTP clients report for a response.
pub open spec fn spec_status_ok(status: u16) -> bool {
    200 <= status < 300
}

/// Reports whether an HTTP status code indicates success.
pub fn status_ok(status: u16) -> (r: bool)
    ensures
        r == spec_status_ok(status),
{
    200 <= status && status < 300
}

/// A byte that a header value may carry while still reading as text:
/// printable ASCII or horizontal tab. Bytes outside this set make the
/// header unreadable, the way HTTP clients refuse them when asked for the
/// header as a string.
pub open spec fn readable_byte(b: u8) -> bool {
    b == 9 || (32 <= b < 127)
}

/// True when every byte of a header value reads as text.
pub open spec fn header_readable(h: Seq<u8>) -> bool {
    forall|i: int| 0 <= i < h.len() ==> readable_byte(#[trigger] h[i])
}

/// The word that the content-type header must carry for the payload to be
/// accepted as a ZIP container.
pub open spec fn zip_marker() -> Seq<char> {
    seq!['z', 'i', 'p']
}

/// True when `needle` occurs as a contiguous run inside `hay`.
pub open spec fn contains_seq(hay: Seq<char>, needle: Seq<char>) -> bool {
    exists|i: int|
        0 <= i && i + needle.len() <= hay.len() && #[trigger] hay.subrange(i, i + needle.len())
            == needle
}

/// True when the marker's three characters stand at position `i` of `hay`.
pub open spec fn marker_at(hay: Seq<char>, i: int) -> bool {
    hay[i] == 'z' && hay[i + 1] == 'i' && hay[i + 2] == 'p'
}

/// The marker occurs in `hay` exactly when its characters stand at some
/// position.
proof fn lemma_contains_marker(hay: Seq<char>)
    ensures
        contains_seq(hay, zip_marker()) <==> (exists|i: int|
            0 <= i && i + 3 <= hay.len() && #[trigger] marker_at(hay, i)),
{
    if contains_seq(hay, zip_marker()) {
        let i = choose|i: int|
            0 <= i && i + zip_marker().len() <= hay.len() && #[trigger] hay.subrange(
                i,
                i + zip_marker().len(),
            ) == zip_marker();
        assert(hay.subrange(i, i + 3)[0] == 'z');
        assert(hay.subrange(i, i + 3)[1] == 'i');
        assert(hay.subrange(i, i + 3)[2] == 'p');
        assert(marker_at(hay, i));
    }
    if exists|i: int| 0 <= i && i + 3 <= hay.len() && #[trigger] marker_at(hay, i) {
        let i = choose|i: int| 0 <= i && i + 3 <= hay.len() && #[trigger] marker_at(hay, i);
        assert(hay.subrange(i, i + 3) =~= zip_marker());
        assert(contains_seq(hay, zip_marker()));
    }
}

/// Reports whether the text carries the marker word as a substring.
fn contains_zip(s: &str) -> (r: bool)
    ensures
        r == contains_seq(s@, zip_marker()),
{
    proof {
        lemma_contains_marker(s@);
    }
    let len = s.unicode_len();
    if len < 3 {
        return false;
    }
    let mut i: usize = 0;
    while i <= len - 3
        invariant
            len == s@.len(),
            3 <= len,
            i <= len - 2,
            forall|j: int| 0 <= j < i ==> !marker_at(s@, j),
        decreases len - i,
    {
        if s.get_char(i) == 'z' && s.get_char(i + 1) == 'i' && s.get_char(i + 2) == 'p' {
            assert(marker_at(s@, i as int));
            proof {
                lemma_contains_marker(s@);
            }
            return true;
        }
        i = i + 1;
    }
    proof {
        lemma_contains_marker(s@);
    }
    false
}

/// A header whose bytes all read as text is valid UTF-8.
proof fn lemma_readable_valid_utf8(h: Seq<u8>)
    requires
        header_readable(h),
    ensures
        valid_utf8(h),
{
    assert(h.subrange(0, 0) =~= Seq::<u8>::empty());
    assert(valid_utf8(h.subrange(0, 0)));
    assert forall|i: int| 0 <= i < h.len() implies #[trigger] vstd::utf8::is_leading_byte_width_1(
        h[i],
    ) by {
        assert(readable_byte(h[i]));
    }
    partial_valid_utf8_extend_ascii_block(h, 0, h.len() as int);
    assert(h.subrange(0, h.len() as int) =~= h);
}

/// Decodes a readable header value into its text.
fn decode_header(h: &Vec<u8>) -> (s: String)
    requires
        header_readable(h@),
    ensures
        s@ == decode_utf8(h@),
{
    proof {
        lemma_readable_valid_utf8(h@);
    }
    match bytes_to_string(copy_bytes(h)) {
        Ok(s) => s,
        Err(_) => vstd::pervasive::unreached(),
    }
}

/// Reports whether every byte of the header value reads as text.
fn header_is_readable(h: &Vec<u8>) -> (r: bool)
    ensures
        r == header_readable(h@),
{
    let mut i: usize = 0;
    while i < h.len()
        invariant
            i <= h.len(),
            forall|j: int| 0 <= j < i ==> readable_byte(#[trigger] h@[j]),
        decreases h.len() - i,
    {
        let b = h[i];
        if !(b == 9 || (32 <= b && b < 127)) {
            return false;
        }
        i = i + 1;
    }
    true
}

/// Validates a response before its body is accepted: the content-type
/// header must be present, readable as text, and name a ZIP payload, in
/// that order, and only then must the status indicate success. Each check
/// that fails reports its own error, so the first broken precondition
/// decides the outcome.
pub fn validate_response(status: u16, content_type: &Option<Vec<u8>>) -> (r: Result<(), Error>)
    ensures
        match *content_type {
            None => r == Err::<(), Error>(Error::Header),
            Some(h) => {
                if !header_readable(h@) {
                    r matches Err(e) && e matches Error::HeaderStr(b) && b@ == h@
                } else if !contains_seq(decode_utf8(h@), zip_marker()) {
                    r matches Err(e) && e matches Error::NotZipFile(s) && s@ == decode_utf8(h@)
                } else if !spec_status_ok(status) {
                    r == Err::<(), Error>(Error::Download(status))
                } else {
                    r == Ok::<(), Error>(())
                }
            },
        },
{
    let h = match content_type {
        None => {
            return Err(Error::Header);
        },
        Some(h) => h,
    };
    if !header_is_readable(h) {
        return Err(Error::HeaderStr(copy_bytes(h)));
    }
    let s = decode_header(h);
    if !contains_zip(s.as_str()) {
        return Err(Error::NotZipFile(s));
    }
    if status_ok(status) {
        Ok(())
    } else {
        Err(Error::Download(status))
    }
}

} // verus!
