use vstd::prelude::*;
use crate::errors::Error;

verus! {

/// `zip::read::ZipArchive` is the ZIP codec's handle over a byte source; it
/// parses the container's directory once and hands out entries by index.
#[verifier::external_type_specification]
#[verifier::external_body]
#[verifier::reject_recursive_types(R)]
pub struct ExZipArchive<R>(zip::read::ZipArchive<R>);

/// `std::io::Cursor` turns an owned buffer into a seekable byte source for
/// the codec to read from.
#[verifier::external_type_specification]
#[verifier::external_body]
#[verifier::reject_recursive_types(T)]
pub struct ExCursor<T>(std::io::Cursor<T>);

/// The decompressed contents of a ZIP container's entries, in directory
/// order, when the bytes parse as a container; `None` when they do not.
/// Parsing reads nothing but the bytes, so the outcome is a function of
/// them alone.
pub uninterp spec fn zip_decode(data: Seq<u8>) -> Option<Seq<Seq<u8>>>;

/// True when the codec can open the first entry of the container whose
/// bytes these are: the entry exists, is not encrypted, and uses a
/// supported compression method. Opening reads nothing but the bytes, so
/// the outcome is a function of them alone.
pub uninterp spec fn zip_entry_opens(data: Seq<u8>) -> bool;

/// True when extracting the first entry of the container whose bytes these
/// are succeeds outright: the entry opens and its compressed stream drains
/// cleanly to its end. A function of the bytes alone, for the same reason.
pub uninterp spec fn zip_entry_ok(data: Seq<u8>) -> bool;

/// The decompressed contents of the entries that an open archive handle
/// holds, in directory order.
pub uninterp spec fn archive_entries(a: zip::read::ZipArchive<std::io::Cursor<Vec<u8>>>) -> Seq<
    Seq<u8>,
>;

/// True when the codec can open the first entry held by this handle; the
/// handle's reading of `zip_entry_opens`.
pub uninterp spec fn first_entry_opens(a: zip::read::ZipArchive<std::io::Cursor<Vec<u8>>>) -> bool;

/// True when extracting the first entry held by this handle succeeds
/// outright; the handle's reading of `zip_entry_ok`.
pub uninterp spec fn first_entry_ok(a: zip::read::ZipArchive<std::io::Cursor<Vec<u8>>>) -> bool;

/// Relies on `zip::read::ZipArchive::new`: it parses the central directory
/// of the buffer and succeeds exactly on well-formed containers, whose
/// entries — and whose extraction outcomes — are then those that the bytes
/// describe.
#[verifier::external_body]
fn open_archive(data: Vec<u8>) -> (r: Result<
    zip::read::ZipArchive<std::io::Cursor<Vec<u8>>>,
    zip::result::ZipError,
>)
    ensures
        match r {
            Ok(a) => {
                &&& zip_decode(data@) == Some(archive_entries(a))
                &&& first_entry_opens(a) == zip_entry_opens(data@)
                &&& first_entry_ok(a) == zip_entry_ok(data@)
            },
            Err(_) => zip_decode(data@) is None,
        },
{
    zip::read::ZipArchive::new(std::io::Cursor::new(data))
}

/// Relies on `zip::read::ZipArchive::len`: the number of entries the
/// archive holds.
#[verifier::external_body]
fn archive_len(a: &zip::read::ZipArchive<std::io::Cursor<Vec<u8>>>) -> (n: usize)
    ensures
        n == archive_entries(*a).len(),
{
    a.len()
}

/// Relies on `zip::read::ZipArchive::by_index` and `std::io::copy`: the
/// first call opens entry 0 as a decompressing stream, failing with
/// `ZipError::FileNotFound` when the archive holds no entry there and with
/// the codec's error when the entry cannot be opened; the second drains
/// that stream into a fresh buffer and surfaces the stream's own failures.
/// Both calls read nothing but the archive's bytes, so extraction succeeds
/// exactly when those bytes allow it. The entry stream borrows the handle,
/// so both calls stand together here.
#[verifier::external_body]
fn read_first_entry(a: &mut zip::read::ZipArchive<std::io::Cursor<Vec<u8>>>) -> (r: Result<
    Vec<u8>,
    Error,
>)
    ensures
        archive_entries(*final(a)) == archive_entries(*old(a)),
        match r {
            Ok(v) => archive_entries(*old(a)).len() > 0 && first_entry_ok(*old(a)) && v@
                == archive_entries(*old(a))[0],
            Err(e) => {
                &&& !(archive_entries(*old(a)).len() > 0 && first_entry_ok(*old(a)))
                &&& if archive_entries(*old(a)).len() == 0 || !first_entry_opens(*old(a)) {
                    e matches Error::ZipIdx(_)
                } else {
                    e matches Error::IoCopy(_)
                }
            },
        },
{
    let mut file = match a.by_index(0) {
        Ok(f) => f,
        Err(e) => {
            return Err(Error::ZipIdx(e));
        },
    };
    let mut out: Vec<u8> = Vec::new();
    match std::io::copy(&mut file, &mut out) {
        Ok(_) => Ok(out),
        Err(e) => Err(Error::IoCopy(e)),
    }
}

/// Opens the buffer as a ZIP container, refuses containers that hold more
/// than one entry, and decompresses the sole entry. On a well-formed
/// single-entry container whose entry extracts cleanly the result is owed:
/// it holds exactly the entry's decompressed bytes. An unparseable buffer,
/// a missing or unopenable first entry, a container with several entries,
/// and a failing decompression stream each report their own error.
pub fn unzip(data: Vec<u8>) -> (r: Result<Vec<u8>, Error>)
    ensures
        match zip_decode(data@) {
            Some(entries) => match r {
                Ok(v) => entries.len() == 1 && zip_entry_ok(data@) && v@ == entries[0],
                Err(e) => {
                    if entries.len() > 1 {
                        e == Error::TooManyFiles(entries.len() as usize)
                    } else if entries.len() == 0 {
                        e matches Error::ZipIdx(_)
                    } else {
                        &&& !zip_entry_ok(data@)
                        &&& if !zip_entry_opens(data@) {
                            e matches Error::ZipIdx(_)
                        } else {
                            e matches Error::IoCopy(_)
                        }
                    }
                },
            },
            None => r matches Err(e) && e matches Error::ZipArc(_),
        },
{
    let mut archive = match open_archive(data) {
        Ok(a) => a,
        Err(e) => {
            return Err(Error::ZipArc(e));
        },
    };
    let num = archive_len(&archive);
    if num > 1 {
        return Err(Error::TooManyFiles(num));
    }
    read_first_entry(&mut archive)
}

} // verus!
