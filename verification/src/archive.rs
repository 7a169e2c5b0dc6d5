//! Reading a downloaded archive from memory.
//!
//! The archive format is read by the `zip` crate. What this module states of
//! it is believed, not proved: the declarations and the functions marked
//! `external_body` below are the whole of it.

use std::io::Cursor;
use std::io::Read;
use vstd::prelude::*;
use zip::result::ZipError;
use zip::ZipArchive;

use crate::error::PipelineError;
use crate::path::is_separator;

verus! {

/// `std::io::Cursor`, the reader that `zip` is given over the bytes in
/// memory. Nothing is said of what it holds.
#[verifier::external_type_specification]
#[verifier::external_body]
#[verifier::reject_recursive_types(T)]
pub struct ExCursor<T>(Cursor<T>);

/// `zip::ZipArchive`, an opened archive. What it holds is named by
/// `zip_entries`.
#[verifier::external_type_specification]
#[verifier::external_body]
#[verifier::reject_recursive_types(R)]
pub struct ExZipArchive<R>(ZipArchive<R>);

/// `zip::result::ZipError`, the error of `zip`. Nothing is said of what it
/// holds.
#[verifier::external_type_specification]
#[verifier::external_body]
pub struct ExZipError(ZipError);

/// The entries of the archive that `bytes` hold, in the order of its central
/// directory: of each its name, and its content where the entry can be read.
/// `None` where `bytes` are not an archive that `zip` reads.
pub uninterp spec fn zip_archive_of(bytes: Seq<u8>) -> Option<Seq<(Seq<char>, Option<Seq<u8>>)>>;

/// The entries that an opened archive holds, in the order of its central
/// directory: of each its name, and its content where the entry can be read.
pub uninterp spec fn zip_entries(archive: ZipArchive<Cursor<Vec<u8>>>) -> Seq<
    (Seq<char>, Option<Seq<u8>>),
>;

/// A name that ends in a separator names a directory.
pub open spec fn names_directory(name: Seq<char>) -> bool {
    name.len() > 0 && is_separator(name.last())
}

/// `ZipArchive::new` on a cursor over `bytes`. The outcome depends on the
/// bytes alone: it is an archive with the entries that `zip_archive_of`
/// names, or an error where that is `None`.
#[verifier::external_body]
fn zip_open(bytes: Vec<u8>) -> (opened: Result<ZipArchive<Cursor<Vec<u8>>>, ZipError>)
    ensures
        match opened {
            Ok(archive) => zip_archive_of(bytes@) == Some(zip_entries(archive)),
            Err(_) => zip_archive_of(bytes@) is None,
        },
{
    ZipArchive::new(Cursor::new(bytes))
}

/// `ZipArchive::len`: the number of entries.
#[verifier::external_body]
fn zip_len(archive: &ZipArchive<Cursor<Vec<u8>>>) -> (n: usize)
    ensures
        n == zip_entries(*archive).len(),
{
    archive.len()
}

/// `ZipArchive::by_index_raw`, then `ZipFile::name` and `ZipFile::is_dir`:
/// the name of the entry at `index` and whether it is a directory, which
/// `zip` tells by the last character of the name. The call fails for an index
/// past the end and where the entry's own header cannot be found; such an
/// entry cannot be read either, since reading looks for the same header
/// first. The call leaves the entries as they are.
#[verifier::external_body]
fn zip_entry_head(archive: &mut ZipArchive<Cursor<Vec<u8>>>, index: usize) -> (head: Result<
    (String, bool),
    ZipError,
>)
    ensures
        zip_entries(*final(archive)) == zip_entries(*old(archive)),
        match head {
            Ok((name, is_dir)) => {
                &&& index < zip_entries(*old(archive)).len()
                &&& name@ == zip_entries(*old(archive))[index as int].0
                &&& is_dir == names_directory(name@)
            },
            Err(_) => index < zip_entries(*old(archive)).len() ==> zip_entries(
                *old(archive),
            )[index as int].1 is None,
        },
{
    archive.by_index_raw(index).map(|file| (file.name().to_string(), file.is_dir()))
}

/// `ZipArchive::by_index_decrypt` with the empty password, then
/// `Read::read_to_end` on the entry: the content of the entry at `index`,
/// decompressed and checked against its checksum, or `None` where the entry
/// cannot be opened or read. Asked with a password, `zip` answers an entry
/// that wants one with an error value where `by_index` would panic. The call
/// leaves the entries as they are.
#[verifier::external_body]
fn zip_entry_content(archive: &mut ZipArchive<Cursor<Vec<u8>>>, index: usize) -> (content: Option<
    Vec<u8>,
>)
    ensures
        zip_entries(*final(archive)) == zip_entries(*old(archive)),
        index < zip_entries(*old(archive)).len() ==> match content {
            Some(data) => zip_entries(*old(archive))[index as int].1 == Some(data@),
            None => zip_entries(*old(archive))[index as int].1 is None,
        },
        index >= zip_entries(*old(archive)).len() ==> content is None,
{
    let mut data = Vec::new();
    match archive.by_index_decrypt(index, b"") {
        Ok(Ok(mut file)) => file.read_to_end(&mut data).ok().map(|_| data),
        _ => None,
    }
}

/// An archive held in memory.
pub struct Archive {
    zip: ZipArchive<Cursor<Vec<u8>>>,
}

impl Archive {
    /// The entries of the archive, in its order: of each its name, and its
    /// content where the entry can be read.
    pub closed spec fn entries(&self) -> Seq<(Seq<char>, Option<Seq<u8>>)> {
        zip_entries(self.zip)
    }

    /// Opens the archive that `bytes` hold. Bytes that are no archive are
    /// refused as corrupt.
    pub fn open(bytes: Vec<u8>) -> (opened: Result<Archive, PipelineError>)
        ensures
            match opened {
                Ok(archive) => zip_archive_of(bytes@) == Some(archive.entries()),
                Err(e) => e == PipelineError::CorruptArchive && zip_archive_of(bytes@) is None,
            },
    {
        match zip_open(bytes) {
            Ok(zip) => Ok(Archive { zip }),
            Err(_) => Err(PipelineError::CorruptArchive),
        }
    }

    /// The number of entries.
    pub fn len(&self) -> (n: usize)
        ensures
            n == self.entries().len(),
    {
        zip_len(&self.zip)
    }

    /// The name of the entry at `index`, and whether it names a directory.
    /// An entry that cannot be found in the archive, which then cannot be
    /// read either, makes the archive corrupt.
    pub fn entry_name(&mut self, index: usize) -> (head: Result<(String, bool), PipelineError>)
        ensures
            final(self).entries() == old(self).entries(),
            match head {
                Ok((name, is_dir)) => {
                    &&& index < old(self).entries().len()
                    &&& name@ == old(self).entries()[index as int].0
                    &&& is_dir == names_directory(name@)
                },
                Err(e) => {
                    &&& e == PipelineError::CorruptArchive
                    &&& index < old(self).entries().len() ==> old(
                        self,
                    ).entries()[index as int].1 is None
                },
            },
    {
        match zip_entry_head(&mut self.zip, index) {
            Ok(head) => Ok(head),
            Err(_) => Err(PipelineError::CorruptArchive),
        }
    }

    /// The content of the entry at `index`. An entry that cannot be read
    /// makes the archive corrupt.
    pub fn entry_content(&mut self, index: usize) -> (content: Result<Vec<u8>, PipelineError>)
        ensures
            final(self).entries() == old(self).entries(),
            match content {
                Ok(data) => {
                    &&& index < old(self).entries().len()
                    &&& old(self).entries()[index as int].1 == Some(data@)
                },
                Err(e) => {
                    &&& e == PipelineError::CorruptArchive
                    &&& index < old(self).entries().len() ==> old(
                        self,
                    ).entries()[index as int].1 is None
                },
            },
    {
        match zip_entry_content(&mut self.zip, index) {
            Some(data) => Ok(data),
            None => Err(PipelineError::CorruptArchive),
        }
    }
}

} // verus!
