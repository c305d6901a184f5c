//! The cache record of one file: its decoded text and its raw bytes.

use crate::cell::{clone_result, content_hash, raw_view, SlotCell};
use crate::error::FileError;
use crate::file::{decode_utf8, decoded, next_revision, Bytes, FileId, Source};
use crate::package::{PackageError, PackageSpec};
use crate::path::{resolve, resolved};
use vstd::prelude::*;

verus! {

/// `path` is what resolving `vpath` below `root` gives: the joined path, or
/// a denial where the virtual path leaves the root.
pub open spec fn resolves_to(
    vpath: Seq<char>,
    root: Seq<char>,
    path: Result<String, FileError>,
) -> bool {
    match resolved(vpath, root) {
        Some(joined) => path is Ok && path->Ok_0@ == joined,
        None => path == Err::<String, FileError>(FileError::AccessDenied),
    }
}

/// `path` is a possible result of locating the file `id` on the system, with
/// `prepare` making packages available.
///
/// A synthetic identifier has no path. A file of a package is resolved below
/// the directory that `prepare` gives for the package, any other below
/// `root`.
pub open spec fn located<P: FnOnce(PackageSpec) -> Result<String, PackageError>>(
    root: Seq<char>,
    id: FileId,
    prepare: P,
    path: Result<String, FileError>,
) -> bool {
    if id.synthetic {
        path == Err::<String, FileError>(FileError::NotFound(id.vpath))
    } else {
        match id.package {
            Some(spec) => exists|prepared: Result<String, PackageError>|
                #[trigger] prepare.ensures((spec,), prepared) && match prepared {
                    Ok(dir) => resolves_to(id.vpath@, dir@, path),
                    Err(error) => path == Err::<String, FileError>(FileError::Package(error)),
                },
            None => resolves_to(id.vpath@, root, path),
        }
    }
}

/// The path of the file on the system.
///
/// Determines the root relative to which the path is resolved, the package's
/// directory or the project root, and joins the virtual path to it. A path
/// that tries to escape is denied. (It can still escape via symlinks.)
pub fn system_path<P>(root: &str, id: &FileId, prepare: P) -> (path: Result<
    String,
    FileError,
>) where P: FnOnce(PackageSpec) -> Result<String, PackageError>
    requires
        !id.synthetic && id.package is Some ==> prepare.requires((id.package->0,)),
    ensures
        located(root@, *id, prepare, path),
{
    if id.synthetic {
        return Err(FileError::NotFound(id.vpath.clone()));
    }
    let joined = match &id.package {
        Some(spec) => {
            let prepared = prepare(spec.clone());
            match prepared {
                Ok(dir) => resolve(id.vpath.as_str(), dir.as_str()),
                Err(error) => {
                    return Err(FileError::Package(error));
                },
            }
        },
        None => resolve(id.vpath.as_str(), root),
    };
    match joined {
        Some(path) => Ok(path),
        None => Err(FileError::AccessDenied),
    }
}

/// `raw` is a possible outcome of loading the file `id`: the failure to
/// locate it, or what `read_from_disk` gives for the path it was located at.
pub open spec fn fetched<
    P: FnOnce(PackageSpec) -> Result<String, PackageError>,
    R: FnOnce(String) -> Result<Vec<u8>, FileError>,
>(root: Seq<char>, id: FileId, prepare: P, read_from_disk: R, raw: Result<Vec<u8>, FileError>) -> bool {
    exists|path: Result<String, FileError>| #[trigger]
        located(root, id, prepare, path) && match path {
            Ok(at) => read_from_disk.ensures((at,), raw),
            Err(error) => raw == Err::<Vec<u8>, FileError>(error),
        }
}

/// `read_from_disk` accepts every path at which the file `id` may be
/// located.
pub open spec fn reads_located<
    P: FnOnce(PackageSpec) -> Result<String, PackageError>,
    R: FnOnce(String) -> Result<Vec<u8>, FileError>,
>(root: Seq<char>, id: FileId, prepare: P, read_from_disk: R) -> bool {
    forall|at: String| #[trigger]
        located(root, id, prepare, Ok(at)) ==> read_from_disk.requires((at,))
}

/// Loads the file `id`: locates it, then reads it from disk. A file that
/// cannot be located is not read.
pub fn read<P, R>(id: &FileId, project_root: &str, prepare: P, read_from_disk: R) -> (raw: Result<
    Vec<u8>,
    FileError,
>) where
    P: FnOnce(PackageSpec) -> Result<String, PackageError>,
    R: FnOnce(String) -> Result<Vec<u8>, FileError>,

    requires
        !id.synthetic && id.package is Some ==> prepare.requires((id.package->0,)),
        reads_located(project_root@, *id, prepare, read_from_disk),
    ensures
        fetched(project_root@, *id, prepare, read_from_disk, raw),
{
    match system_path(project_root, id, prepare) {
        Ok(at) => read_from_disk(at),
        Err(error) => Err(error),
    }
}

/// `made` is the source that the bytes of the file `id` give: their text in
/// a new source, or in the previous one, a revision on; or the failure to
/// decode them.
pub open spec fn made_source(
    id: FileId,
    bytes: Seq<u8>,
    prev: Option<Source>,
    made: Result<Source, FileError>,
) -> bool {
    match decoded(bytes) {
        Some(text) => {
            &&& made is Ok
            &&& made->Ok_0.text@ == text
            &&& match prev {
                Some(before) => {
                    &&& made->Ok_0.id == before.id
                    &&& made->Ok_0.revision == next_revision(before.revision)
                },
                None => made->Ok_0.id == id && made->Ok_0.revision == 0,
            }
        },
        None => made == Err::<Source, FileError>(FileError::InvalidUtf8),
    }
}

/// Turns raw bytes into a source: decodes them, then replaces the text of
/// the previous source in place, or constructs a new one.
pub fn make_source(id: FileId, data: Vec<u8>, prev: Option<Source>) -> (made: Result<
    Source,
    FileError,
>)
    ensures
        made_source(id, data@, prev, made),
{
    match decode_utf8(data.as_slice()) {
        Ok(text) => match prev {
            Some(before) => {
                let mut source = before;
                source.replace(text);
                Ok(source)
            },
            None => Ok(Source::new(id, text)),
        },
        Err(error) => Err(error),
    }
}

/// Wraps raw bytes, as they are.
pub fn make_bytes(data: Vec<u8>) -> (made: Result<Bytes, FileError>)
    ensures
        made is Ok,
        made->Ok_0.data == data,
{
    Ok(Bytes::new(data))
}

/// Two results hold the same bytes, or the same failure.
pub open spec fn same_file(a: Result<Bytes, FileError>, b: Result<Bytes, FileError>) -> bool {
    match (a, b) {
        (Ok(x), Ok(y)) => x@ == y@,
        (Err(e), Err(g)) => e == g,
        _ => false,
    }
}

/// What taking in the load outcome `raw` makes of the text cell of the file
/// `id`: the cell `after` and the value `served`.
///
/// With an unchanged fingerprint the data stays and is served as it is: the
/// same source, at the same revision. Otherwise the bytes are decoded into
/// the previous source or a new one, and a failure takes the place of the
/// data.
pub open spec fn source_taken(
    before: SlotCell<Source>,
    id: FileId,
    raw: Result<Vec<u8>, FileError>,
    after: SlotCell<Source>,
    served: Result<Source, FileError>,
) -> bool {
    &&& after.accessed
    &&& after.fingerprint == content_hash(raw_view(raw))
    &&& if before.unchanged_by(raw_view(raw)) {
        after.data == before.data && served == before.data->0
    } else {
        &&& after.data == Some(served)
        &&& match raw {
            Ok(bytes) => made_source(id, bytes@, before.hint(), served),
            Err(error) => served == Err::<Source, FileError>(error),
        }
    }
}

/// What taking in the load outcome `raw` makes of the byte cell of a file:
/// the cell `after` and the value `served`.
pub open spec fn file_taken(
    before: SlotCell<Bytes>,
    raw: Result<Vec<u8>, FileError>,
    after: SlotCell<Bytes>,
    served: Result<Bytes, FileError>,
) -> bool {
    &&& after.accessed
    &&& after.fingerprint == content_hash(raw_view(raw))
    &&& if before.unchanged_by(raw_view(raw)) {
        after.data == before.data && same_file(before.data->0, served)
    } else {
        &&& after.data is Some
        &&& same_file(served, after.data->0)
        &&& match raw {
            Ok(bytes) => served is Ok && served->Ok_0@ == bytes@,
            Err(error) => served == Err::<Bytes, FileError>(error),
        }
    }
}

/// Holds canonical data for all paths pointing to the same entity.
///
/// Both cells can be populated if the file is both imported and read.
pub struct FileSlot {
    /// The slot's canonical file id.
    pub id: FileId,
    /// The lazily loaded and incrementally updated source file.
    pub source: SlotCell<Source>,
    /// The lazily loaded raw byte buffer.
    pub file: SlotCell<Bytes>,
}

impl FileSlot {
    /// The text is served from its cell, without locating or reading the
    /// file: it was accessed in this compilation, or the file is synthetic
    /// and was handed over in memory.
    pub open spec fn serves_source(self) -> bool {
        self.source.is_current() || (self.id.synthetic && self.source.data is Some)
    }

    /// The bytes are served from their cell, without locating or reading the
    /// file.
    pub open spec fn serves_file(self) -> bool {
        self.file.is_current() || (self.id.synthetic && self.file.data is Some)
    }

    /// The empty slot of the file `id`.
    pub open spec fn empty(id: FileId) -> Self {
        FileSlot {
            id,
            source: SlotCell { data: None, fingerprint: 0, accessed: false },
            file: SlotCell { data: None, fingerprint: 0, accessed: false },
        }
    }

    /// The slot as `reset` leaves it: no cell is marked as accessed, data and
    /// fingerprints are kept.
    pub open spec fn after_reset(self) -> Self {
        FileSlot {
            id: self.id,
            source: SlotCell { accessed: false, ..self.source },
            file: SlotCell { accessed: false, ..self.file },
        }
    }

    /// The slot holds the file `id` as it was handed over in `bytes`: both
    /// cells are filled and marked as accessed, the text is that of the
    /// bytes in a new source, and the fingerprints are those of a load of
    /// the same bytes.
    pub open spec fn holds_inline(self, id: FileId, bytes: Vec<u8>) -> bool {
        &&& self.id == id
        &&& self.source.accessed
        &&& self.source.fingerprint == content_hash(Ok(bytes@))
        &&& self.source.data is Some
        &&& made_source(id, bytes@, None, self.source.data->0)
        &&& self.file.accessed
        &&& self.file.fingerprint == content_hash(Ok(bytes@))
        &&& self.file.data == Some(Ok::<Bytes, FileError>(Bytes { data: bytes }))
    }

    /// The file may be loaded with `prepare` and `read_from_disk`: each
    /// accepts what this slot would hand to it.
    pub open spec fn may_load<
        P: FnOnce(PackageSpec) -> Result<String, PackageError>,
        R: FnOnce(String) -> Result<Vec<u8>, FileError>,
    >(self, root: Seq<char>, prepare: P, read_from_disk: R) -> bool {
        &&& !self.id.synthetic && self.id.package is Some ==> prepare.requires(
            (self.id.package->0,),
        )
        &&& reads_located(root, self.id, prepare, read_from_disk)
    }

    /// What a lookup of the text makes of the slot: the slot `after` and the
    /// value `served`.
    ///
    /// A slot that serves its text stays as it is and hands out its data.
    /// Otherwise the file is loaded and the text cell takes in the outcome.
    /// The byte cell is not touched.
    pub open spec fn sourced<
        P: FnOnce(PackageSpec) -> Result<String, PackageError>,
        R: FnOnce(String) -> Result<Vec<u8>, FileError>,
    >(
        self,
        root: Seq<char>,
        prepare: P,
        read_from_disk: R,
        after: Self,
        served: Result<Source, FileError>,
    ) -> bool {
        &&& after.id == self.id
        &&& after.file == self.file
        &&& if self.serves_source() {
            after.source == self.source && served == self.source.data->0
        } else {
            exists|raw: Result<Vec<u8>, FileError>|
                {
                    &&& #[trigger] fetched(root, self.id, prepare, read_from_disk, raw)
                    &&& source_taken(self.source, self.id, raw, after.source, served)
                }
        }
    }

    /// What a lookup of the bytes makes of the slot: the slot `after` and
    /// the value `served`. The text cell is not touched.
    pub open spec fn filed<
        P: FnOnce(PackageSpec) -> Result<String, PackageError>,
        R: FnOnce(String) -> Result<Vec<u8>, FileError>,
    >(
        self,
        root: Seq<char>,
        prepare: P,
        read_from_disk: R,
        after: Self,
        served: Result<Bytes, FileError>,
    ) -> bool {
        &&& after.id == self.id
        &&& after.source == self.source
        &&& if self.serves_file() {
            after.file == self.file && same_file(self.file.data->0, served)
        } else {
            exists|raw: Result<Vec<u8>, FileError>|
                {
                    &&& #[trigger] fetched(root, self.id, prepare, read_from_disk, raw)
                    &&& file_taken(self.file, raw, after.file, served)
                }
        }
    }

    /// Create a new, empty slot.
    pub fn new(id: FileId) -> (slot: Self)
        ensures
            slot == Self::empty(id),
    {
        FileSlot { id, file: SlotCell::new(), source: SlotCell::new() }
    }

    /// Create a slot backed by explicitly provided bytes.
    ///
    /// Both cells are filled and marked as accessed, with the fingerprint
    /// that a load of the same bytes would have. Bytes that are not valid
    /// UTF-8 give no slot.
    pub fn from_inline_bytes(id: FileId, bytes: Vec<u8>) -> (made: Result<Self, FileError>)
        ensures
            match decoded(bytes@) {
                Some(text) => made is Ok && made->Ok_0.holds_inline(id, bytes),
                None => made == Err::<Self, FileError>(FileError::InvalidUtf8),
            },
    {
        let text = match decode_utf8(bytes.as_slice()) {
            Ok(text) => text,
            Err(error) => {
                return Err(error);
            },
        };
        let raw: Result<Vec<u8>, FileError> = Ok(bytes);
        let fingerprint = crate::cell::hash_raw(&raw);
        let bytes = match raw {
            Ok(bytes) => bytes,
            Err(error) => {
                return Err(error);
            },
        };
        let mut slot = FileSlot::new(id.clone());
        slot.source.init(Source::new(id, text), fingerprint);
        slot.file.init(Bytes::new(bytes), fingerprint);
        Ok(slot)
    }

    /// Marks the file as not yet accessed in preparation of the next
    /// compilation. Data and fingerprints stay.
    pub fn reset(&mut self)
        ensures
            *final(self) == old(self).after_reset(),
    {
        self.source.reset();
        self.file.reset();
    }

    /// Retrieve the source of the file.
    ///
    /// A slot that serves its text does so without a call of `prepare` or
    /// `read_from_disk`. Otherwise the file is loaded, once, and the text
    /// cell takes in the outcome.
    pub fn source<P, R>(&mut self, project_root: &str, prepare: P, read_from_disk: R) -> (served:
        Result<Source, FileError>) where
        P: FnOnce(PackageSpec) -> Result<String, PackageError>,
        R: FnOnce(String) -> Result<Vec<u8>, FileError>,

        requires
            !old(self).serves_source() ==> old(self).may_load(
                project_root@,
                prepare,
                read_from_disk,
            ),
        ensures
            old(self).sourced(project_root@, prepare, read_from_disk, *final(self), served),
    {
        if self.id.synthetic {
            match self.source.get() {
                Some(data) => {
                    return clone_result(data);
                },
                None => {},
            }
        }
        let id = self.id.clone();
        let owner = self.id.clone();
        let load = || -> (raw: Result<Vec<u8>, FileError>)
            requires
                !id.synthetic && id.package is Some ==> prepare.requires((id.package.unwrap(),)),
                reads_located(project_root@, id, prepare, read_from_disk),
            ensures
                fetched(project_root@, id, prepare, read_from_disk, raw),
        {
            read(&id, project_root, prepare, read_from_disk)
        };
        let process = |data: Vec<u8>, prev: Option<Source>| -> (made: Result<Source, FileError>)
            ensures
                made_source(owner, data@, prev, made),
        {
            make_source(owner, data, prev)
        };
        self.source.get_or_init(load, process)
    }

    /// Retrieve the file's bytes.
    ///
    /// A slot that serves its bytes does so without a call of `prepare` or
    /// `read_from_disk`. Otherwise the file is loaded, once, and the byte
    /// cell takes in the outcome.
    pub fn file<P, R>(&mut self, project_root: &str, prepare: P, read_from_disk: R) -> (served:
        Result<Bytes, FileError>) where
        P: FnOnce(PackageSpec) -> Result<String, PackageError>,
        R: FnOnce(String) -> Result<Vec<u8>, FileError>,

        requires
            !old(self).serves_file() ==> old(self).may_load(project_root@, prepare, read_from_disk),
        ensures
            old(self).filed(project_root@, prepare, read_from_disk, *final(self), served),
    {
        if self.id.synthetic {
            match self.file.get() {
                Some(data) => {
                    return clone_result(data);
                },
                None => {},
            }
        }
        let id = self.id.clone();
        let load = || -> (raw: Result<Vec<u8>, FileError>)
            requires
                !id.synthetic && id.package is Some ==> prepare.requires((id.package.unwrap(),)),
                reads_located(project_root@, id, prepare, read_from_disk),
            ensures
                fetched(project_root@, id, prepare, read_from_disk, raw),
        {
            read(&id, project_root, prepare, read_from_disk)
        };
        let process = |data: Vec<u8>, prev: Option<Bytes>| -> (made: Result<Bytes, FileError>)
            ensures
                made is Ok,
                made.unwrap().data == data,
        {
            make_bytes(data)
        };
        self.file.get_or_init(load, process)
    }
}

} // verus!
