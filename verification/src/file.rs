//! File identifiers and the two forms in which a file is served.

use crate::error::FileError;
use crate::package::{PackageSpec, PackageSpecView};
use crate::path::{normalize, normalized};
use vstd::prelude::*;

verus! {

/// Identifies a file in a project or package.
///
/// Two identifiers with the same package and path denote the same file. A
/// synthetic identifier stands for content that was handed over in memory: no
/// path on disk belongs to it.
#[derive(Debug, PartialEq, Eq, Hash)]
pub struct FileId {
    pub package: Option<PackageSpec>,
    pub vpath: String,
    pub synthetic: bool,
}

/// What a file identifier holds.
pub struct FileIdView {
    pub package: Option<PackageSpecView>,
    pub vpath: Seq<char>,
    pub synthetic: bool,
}

impl View for FileId {
    type V = FileIdView;

    open spec fn view(&self) -> FileIdView {
        FileIdView {
            package: match self.package {
                Some(spec) => Some(spec@),
                None => None,
            },
            vpath: self.vpath@,
            synthetic: self.synthetic,
        }
    }
}

impl Clone for FileId {
    fn clone(&self) -> (r: Self)
        ensures
            r == *self,
    {
        let package = match &self.package {
            Some(spec) => Some(spec.clone()),
            None => None,
        };
        FileId { package, vpath: self.vpath.clone(), synthetic: self.synthetic }
    }
}

impl FileId {
    /// The identifier of the file at `path` in the project, or in the given
    /// package. The path is brought to its normal form.
    pub fn new(package: Option<PackageSpec>, path: &str) -> (id: Self)
        ensures
            id.package == package,
            id.vpath@ == normalized(path@),
            !id.synthetic,
    {
        FileId { package, vpath: normalize(path), synthetic: false }
    }

    /// A synthetic identifier, for content that is not read from a path.
    pub fn new_fake(path: &str) -> (id: Self)
        ensures
            id.package is None,
            id.vpath@ == normalized(path@),
            id.synthetic,
    {
        FileId { package: None, vpath: normalize(path), synthetic: true }
    }
}

/// A versioned text buffer that belongs to one file.
///
/// Replacing the text keeps the buffer and advances its revision, so that a
/// changed file is still the same source, one generation on.
#[derive(Debug)]
pub struct Source {
    pub id: FileId,
    pub text: String,
    pub revision: u64,
}

impl Clone for Source {
    fn clone(&self) -> (r: Self)
        ensures
            r == *self,
    {
        Source { id: self.id.clone(), text: self.text.clone(), revision: self.revision }
    }
}

/// The revision that follows `revision`.
pub open spec fn next_revision(revision: u64) -> u64 {
    if revision < u64::MAX {
        (revision + 1) as u64
    } else {
        revision
    }
}

impl Source {
    /// A new source with the given text, at revision zero.
    pub fn new(id: FileId, text: String) -> (source: Self)
        ensures
            source.id == id,
            source.text == text,
            source.revision == 0,
    {
        Source { id, text, revision: 0 }
    }

    /// Replaces the full text in place. The identifier stays and the revision
    /// advances.
    pub fn replace(&mut self, text: String)
        ensures
            final(self).id == old(self).id,
            final(self).text == text,
            final(self).revision == next_revision(old(self).revision),
    {
        self.text = text;
        if self.revision < u64::MAX {
            self.revision = self.revision + 1;
        }
    }
}

/// An immutable raw buffer.
#[derive(Debug)]
pub struct Bytes {
    pub data: Vec<u8>,
}

impl View for Bytes {
    type V = Seq<u8>;

    open spec fn view(&self) -> Seq<u8> {
        self.data@
    }
}

impl Clone for Bytes {
    fn clone(&self) -> (r: Self)
        ensures
            r@ == self@,
    {
        let data = self.data.clone();
        Bytes { data }
    }
}

impl Bytes {
    /// Wraps raw bytes.
    pub fn new(data: Vec<u8>) -> (bytes: Self)
        ensures
            bytes.data == data,
    {
        Bytes { data }
    }
}

/// The bytes without a leading UTF-8 byte order mark.
pub open spec fn without_bom(bytes: Seq<u8>) -> Seq<u8> {
    if bytes.len() >= 3 && bytes[0] == 0xef && bytes[1] == 0xbb && bytes[2] == 0xbf {
        bytes.skip(3)
    } else {
        bytes
    }
}

/// The text that the bytes encode, a byte order mark aside, or `None` where
/// they are not valid UTF-8.
pub open spec fn decoded(bytes: Seq<u8>) -> Option<Seq<char>> {
    if vstd::utf8::valid_utf8(without_bom(bytes)) {
        Some(vstd::utf8::decode_utf8(without_bom(bytes)))
    } else {
        None
    }
}

/// Calls `std::str::from_utf8` and copies the text it gives. That function
/// succeeds exactly on valid UTF-8 and then views the same bytes as text.
#[verifier::external_body]
pub(crate) fn text_of(bytes: &[u8]) -> (text: Option<String>)
    ensures
        text is Some <==> vstd::utf8::valid_utf8(bytes@),
        text is Some ==> text->0@ == vstd::utf8::decode_utf8(bytes@),
{
    match std::str::from_utf8(bytes) {
        Ok(text) => Some(text.to_owned()),
        Err(_) => None,
    }
}

/// Decodes UTF-8 with an optional byte order mark.
pub fn decode_utf8(buf: &[u8]) -> (text: Result<String, FileError>)
    ensures
        match decoded(buf@) {
            Some(chars) => text is Ok && text->Ok_0@ == chars,
            None => text == Err::<String, FileError>(FileError::InvalidUtf8),
        },
{
    let rest = if buf.len() >= 3 && buf[0] == 0xef && buf[1] == 0xbb && buf[2] == 0xbf {
        vstd::slice::slice_subrange(buf, 3, buf.len())
    } else {
        buf
    };
    match text_of(rest) {
        Some(text) => Ok(text),
        None => Err(FileError::InvalidUtf8),
    }
}

} // verus!
