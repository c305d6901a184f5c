//! Failures of file access.

use crate::package::{bracketed, clone_detail, with_detail, PackageError};
use vstd::prelude::*;

verus! {

/// Why a file could not be loaded. Failures are data: they are stored,
/// fingerprinted and handed back like any other value.
#[derive(Debug, PartialEq, Eq, Hash)]
pub enum FileError {
    /// No file was found at this path.
    NotFound(String),
    /// The file may not be accessed: its path leaves the root.
    AccessDenied,
    /// A directory was found where a file was expected.
    IsDirectory,
    /// The file holds bytes that are not valid UTF-8.
    InvalidUtf8,
    /// The package of the file could not be made available.
    Package(PackageError),
    /// Another failure, with details where there are any.
    Other(Option<String>),
}

impl Clone for FileError {
    fn clone(&self) -> (r: Self)
        ensures
            r == *self,
    {
        match self {
            FileError::NotFound(path) => FileError::NotFound(path.clone()),
            FileError::AccessDenied => FileError::AccessDenied,
            FileError::IsDirectory => FileError::IsDirectory,
            FileError::InvalidUtf8 => FileError::InvalidUtf8,
            FileError::Package(error) => FileError::Package(error.clone()),
            FileError::Other(detail) => FileError::Other(clone_detail(detail)),
        }
    }
}

impl FileError {
    /// What the error says to a reader.
    pub open spec fn message_text(self) -> Seq<char> {
        match self {
            FileError::NotFound(path) => bracketed("file not found"@, "searched at "@ + path@),
            FileError::AccessDenied => bracketed("failed to load file"@, "access denied"@),
            FileError::IsDirectory => bracketed("failed to load file"@, "is a directory"@),
            FileError::InvalidUtf8 => "file is not valid utf-8"@,
            FileError::Package(error) => error.message_text(),
            FileError::Other(Some(detail)) => bracketed("failed to load file"@, detail@),
            FileError::Other(None) => "failed to load file"@,
        }
    }

    /// The message of the error.
    pub fn message(&self) -> (text: String)
        ensures
            text@ == self.message_text(),
    {
        match self {
            FileError::NotFound(path) => {
                let mut detail = String::from_str("searched at ");
                detail.append(path.as_str());
                with_detail("file not found", detail.as_str())
            },
            FileError::AccessDenied => with_detail("failed to load file", "access denied"),
            FileError::IsDirectory => with_detail("failed to load file", "is a directory"),
            FileError::InvalidUtf8 => String::from_str("file is not valid utf-8"),
            FileError::Package(error) => error.message(),
            FileError::Other(Some(detail)) => with_detail("failed to load file", detail.as_str()),
            FileError::Other(None) => String::from_str("failed to load file"),
        }
    }
}

} // verus!
