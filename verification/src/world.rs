//! The world that a compilation sees: the main file, the slots of all files
//! that were asked for, and one sampled instant per compilation.

use crate::clock::{date_at, date_of, local_now, shifted, Date, Instant};
use crate::error::FileError;
use crate::file::{decoded, text_of, Bytes, FileId, FileIdView, Source};
use crate::package::{push_spec, spec_text, PackageError, PackageSpec};
use crate::path::{
    diff_paths,
    normalized,
    relative_to,
    resolve,
    resolved,
    rooted_in,
    rootless,
    within_root,
    without_root,
};
use crate::slot::FileSlot;
use crate::table::{
    no_slots,
    table_insert,
    table_keys,
    table_new,
    table_remove,
    table_slots,
    SlotTable,
};
use vstd::prelude::*;

verus! {

/// What is compiled: a file on disk or bytes in memory.
#[derive(Debug)]
pub enum Input {
    /// A file on disk, as the outcome of making its path canonical: the
    /// canonical path, or the reason why there is none.
    Path(Result<String, String>),
    /// The content itself.
    Bytes(Vec<u8>),
}

/// Where packages are stored.
#[derive(Debug)]
pub struct PackageStorage {
    /// The directory that takes the place of the default one, if any.
    pub package_path: Option<String>,
}

/// The virtual path under which in-memory content is known.
pub open spec fn bytes_path() -> Seq<char> {
    normalized("<bytes>"@)
}

/// Why an input cannot become the main file of a world rooted at `root`,
/// or `None` if it can.
///
/// A path must have been made canonical and lie in the root; bytes must be
/// valid UTF-8.
pub open spec fn input_error(root: Seq<char>, input: Input) -> Option<Seq<char>> {
    match input {
        Input::Path(Err(reason)) => Some("Failed to canonicalize path: "@ + reason@),
        Input::Path(Ok(path)) => if rooted_in(path@, root) is None {
            Some("input file must be contained in project root"@)
        } else {
            None
        },
        Input::Bytes(bytes) => if decoded(bytes@) is None {
            Some(FileError::InvalidUtf8.message_text())
        } else {
            None
        },
    }
}

/// A world that provides access to the operating system.
///
/// `F` is the table of fonts. The world keeps it and hands it out; it looks
/// at nothing in it.
pub struct SystemWorld<F> {
    /// The working directory.
    pub workdir: Option<String>,
    /// The root relative to which absolute paths are resolved.
    pub root: String,
    /// The input path.
    pub main: FileId,
    /// Reusable file id for in-memory inputs.
    pub bytes_main: Option<FileId>,
    /// The values handed to the document as system inputs.
    pub inputs: Vec<(String, String)>,
    /// Locations of and storage for lazily loaded fonts.
    pub fonts: F,
    /// Maps file ids to source files and buffers.
    pub slots: SlotTable,
    /// Holds information about where packages are stored.
    pub package_storage: PackageStorage,
    /// The current instant if requested. It is kept to be the same within
    /// one compilation, and reset between compilations.
    pub now: Option<Instant>,
}

impl<F> SystemWorld<F> {
    /// The slots of the world, each under what its file identifier holds.
    pub open spec fn slot_map(self) -> Map<FileIdView, FileSlot> {
        table_slots(self.slots)
    }

    /// Each slot is stored under its own identifier.
    pub open spec fn wf(self) -> bool {
        forall|key: FileIdView| #[trigger]
            self.slot_map().contains_key(key) ==> self.slot_map()[key].id@ == key
    }

    /// The slot that a lookup of `id` works on: the stored one, or an empty
    /// one where none is stored yet.
    pub open spec fn slot_or_new(self, id: FileId) -> FileSlot {
        if self.slot_map().contains_key(id@) {
            self.slot_map()[id@]
        } else {
            FileSlot::empty(id)
        }
    }

    /// `after` differs from this world in its slots and its instant at
    /// most: working directory, root, main file, inputs, fonts and package
    /// storage are the same.
    pub open spec fn same_setup(self, after: Self) -> bool {
        &&& after.workdir == self.workdir
        &&& after.root == self.root
        &&& after.main == self.main
        &&& after.bytes_main == self.bytes_main
        &&& after.inputs == self.inputs
        &&& after.fonts == self.fonts
        &&& after.package_storage == self.package_storage
    }

    /// `after` is this world at the start of the next compilation: every
    /// slot is reset, the instant is forgotten, and nothing else differs.
    pub open spec fn resets_to(self, after: Self) -> bool {
        &&& self.same_setup(after)
        &&& after.now is None
        &&& after.slot_map().dom() == self.slot_map().dom()
        &&& forall|key: FileIdView| #[trigger]
            self.slot_map().contains_key(key) ==> after.slot_map()[key]
                == self.slot_map()[key].after_reset()
    }

    /// Starts the construction of a world.
    pub fn builder(root: String, input: Input) -> (builder: SystemWorldBuilder<F>)
        ensures
            builder.is_fresh(root, input),
    {
        SystemWorldBuilder::new(root, input)
    }

    /// The identifier of the main file.
    pub fn main(&self) -> (id: FileId)
        ensures
            id == self.main,
    {
        self.main.clone()
    }

    /// The root relative to which absolute paths are resolved.
    pub fn root(&self) -> (root: &str)
        ensures
            root@ == self.root@,
    {
        self.root.as_str()
    }

    /// The current working directory: the one the world was built with, or
    /// `.` where there was none.
    pub fn workdir(&self) -> (dir: &str)
        ensures
            dir@ == match self.workdir {
                Some(workdir) => workdir@,
                None => "."@,
            },
    {
        match &self.workdir {
            Some(workdir) => workdir.as_str(),
            None => ".",
        }
    }

    /// The table of fonts.
    pub fn fonts(&self) -> (fonts: &F)
        ensures
            *fonts == self.fonts,
    {
        &self.fonts
    }

    /// Reset the compilation state in preparation of a new compilation.
    pub fn reset(&mut self)
        requires
            old(self).wf(),
        ensures
            final(self).wf(),
            old(self).resets_to(*final(self)),
    {
        let ids = table_keys(&self.slots);
        let mut i: usize = 0;
        while i < ids.len()
            invariant
                0 <= i <= ids.len(),
                old(self).wf(),
                old(self).same_setup(*self),
                self.now == old(self).now,
                forall|j: int|
                    0 <= j < ids.len() ==> old(self).slot_map().contains_key(#[trigger] ids[j]@),
                self.slot_map().dom() == old(self).slot_map().dom(),
                forall|key: FileIdView| #[trigger]
                    self.slot_map().contains_key(key) ==> {
                        ||| self.slot_map()[key] == old(self).slot_map()[key]
                        ||| self.slot_map()[key] == old(self).slot_map()[key].after_reset()
                    },
                forall|j: int|
                    0 <= j < i ==> self.slot_map()[#[trigger] ids[j]@] == old(
                        self,
                    ).slot_map()[ids[j]@].after_reset(),
            decreases ids.len() - i,
        {
            let id = &ids[i];
            match table_remove(&mut self.slots, id) {
                Some(slot) => {
                    let mut slot = slot;
                    slot.reset();
                    table_insert(&mut self.slots, id.clone(), slot);
                },
                None => {},
            }
            i += 1;
        }
        // Reset the instant for each compilation.
        self.now = None;
        proof {
            assert forall|key: FileIdView| #[trigger]
                old(self).slot_map().contains_key(key) implies self.slot_map()[key] == old(
                self,
            ).slot_map()[key].after_reset() by {
                let j = choose|j: int| 0 <= j < ids.len() && ids[j]@ == key;
            }
        }
    }
}

impl<F> SystemWorld<F> {
    /// `after` is this world with the slot `slot` stored for `id`, and
    /// nothing else changed.
    pub open spec fn stores(self, id: FileId, slot: FileSlot, after: Self) -> bool {
        &&& self.same_setup(after)
        &&& after.now == self.now
        &&& after.slot_map() == self.slot_map().insert(id@, slot)
    }

    /// What a lookup of the text of `id` makes of the world: the world
    /// `after` and the value `served`. The slot of the file does what
    /// `FileSlot::sourced` says and is stored; nothing else changes.
    pub open spec fn sources<
        P: FnOnce(PackageSpec) -> Result<String, PackageError>,
        R: FnOnce(String) -> Result<Vec<u8>, FileError>,
    >(
        self,
        id: FileId,
        prepare: P,
        read_from_disk: R,
        after: Self,
        served: Result<Source, FileError>,
    ) -> bool {
        exists|slot: FileSlot|
            {
                &&& #[trigger] self.stores(id, slot, after)
                &&& self.slot_or_new(id).sourced(self.root@, prepare, read_from_disk, slot, served)
            }
    }

    /// What a lookup of the bytes of `id` makes of the world: the world
    /// `after` and the value `served`.
    pub open spec fn files<
        P: FnOnce(PackageSpec) -> Result<String, PackageError>,
        R: FnOnce(String) -> Result<Vec<u8>, FileError>,
    >(
        self,
        id: FileId,
        prepare: P,
        read_from_disk: R,
        after: Self,
        served: Result<Bytes, FileError>,
    ) -> bool {
        exists|slot: FileSlot|
            {
                &&& #[trigger] self.stores(id, slot, after)
                &&& self.slot_or_new(id).filed(self.root@, prepare, read_from_disk, slot, served)
            }
    }

    /// What asking for the date makes of the world: the world `after` and
    /// the date. An instant that is held stays; otherwise `clock` gives
    /// one, and it is held from then on. The date is that of the instant
    /// held in the end. Nothing else changes.
    pub open spec fn dated<K: FnOnce() -> Instant>(
        self,
        offset: Option<i64>,
        clock: K,
        after: Self,
        date: Option<Date>,
    ) -> bool {
        &&& self.same_setup(after)
        &&& after.slots == self.slots
        &&& after.now is Some
        &&& match self.now {
            Some(now) => after.now == Some(now),
            None => clock.ensures((), after.now->0),
        }
        &&& date == date_of(shifted(after.now->0, offset))
    }

    /// Retrieve the source of the file `id`.
    ///
    /// The slot of the file is looked up, or created empty, and asked for
    /// its text; no other slot changes. Within one compilation the file is
    /// loaded at most once: a slot that serves its text needs neither
    /// `prepare` nor `read_from_disk`.
    pub fn source<P, R>(&mut self, id: &FileId, prepare: P, read_from_disk: R) -> (served: Result<
        Source,
        FileError,
    >) where
        P: FnOnce(PackageSpec) -> Result<String, PackageError>,
        R: FnOnce(String) -> Result<Vec<u8>, FileError>,

        requires
            old(self).wf(),
            !old(self).slot_or_new(*id).serves_source() ==> old(self).slot_or_new(*id).may_load(
                old(self).root@,
                prepare,
                read_from_disk,
            ),
        ensures
            final(self).wf(),
            old(self).sources(*id, prepare, read_from_disk, *final(self), served),
    {
        let mut slot = match table_remove(&mut self.slots, id) {
            Some(slot) => slot,
            None => FileSlot::new(id.clone()),
        };
        let served = slot.source(self.root.as_str(), prepare, read_from_disk);
        table_insert(&mut self.slots, id.clone(), slot);
        proof {
            assert(self.slot_map() =~= old(self).slot_map().insert(id@, slot));
            assert(old(self).stores(*id, slot, *self));
        }
        served
    }

    /// Retrieve the bytes of the file `id`.
    ///
    /// The slot of the file is looked up, or created empty, and asked for
    /// its bytes; no other slot changes. A slot that serves its bytes needs
    /// neither `prepare` nor `read_from_disk`.
    pub fn file<P, R>(&mut self, id: &FileId, prepare: P, read_from_disk: R) -> (served: Result<
        Bytes,
        FileError,
    >) where
        P: FnOnce(PackageSpec) -> Result<String, PackageError>,
        R: FnOnce(String) -> Result<Vec<u8>, FileError>,

        requires
            old(self).wf(),
            !old(self).slot_or_new(*id).serves_file() ==> old(self).slot_or_new(*id).may_load(
                old(self).root@,
                prepare,
                read_from_disk,
            ),
        ensures
            final(self).wf(),
            old(self).files(*id, prepare, read_from_disk, *final(self), served),
    {
        let mut slot = match table_remove(&mut self.slots, id) {
            Some(slot) => slot,
            None => FileSlot::new(id.clone()),
        };
        let served = slot.file(self.root.as_str(), prepare, read_from_disk);
        table_insert(&mut self.slots, id.clone(), slot);
        proof {
            assert(self.slot_map() =~= old(self).slot_map().insert(id@, slot));
            assert(old(self).stores(*id, slot, *self));
        }
        served
    }

    /// The date of the current compilation, with the instant taken from
    /// `clock` where none was sampled yet.
    ///
    /// The clock is asked at most once per compilation: once an instant is
    /// held, it stays, and every date is computed from it, whatever the
    /// offset.
    pub fn today_at<K>(&mut self, offset: Option<i64>, clock: K) -> (date: Option<Date>) where
        K: FnOnce() -> Instant,

        requires
            old(self).now is None ==> clock.requires(()),
        ensures
            old(self).dated(offset, clock, *final(self), date),
    {
        let now = match self.now {
            Some(now) => now,
            None => {
                let now = clock();
                self.now = Some(now);
                now
            },
        };
        date_at(now, offset)
    }

    /// The date of the current compilation: local time without an offset,
    /// else UTC moved by `offset` hours. The wall clock is sampled on the
    /// first call of a compilation only.
    pub fn today(&mut self, offset: Option<i64>) -> (date: Option<Date>)
        ensures
            old(self).same_setup(*final(self)),
            final(self).slots == old(self).slots,
            final(self).now is Some,
            old(self).now is Some ==> final(self).now == old(self).now,
            date == date_of(shifted(final(self).now->0, offset)),
    {
        let clock = || -> (now: Instant) { local_now() };
        self.today_at(offset, clock)
    }

    /// Update the system inputs of the world. Files, fonts and everything
    /// else stay.
    pub fn set_inputs(&mut self, inputs: Vec<(String, String)>)
        ensures
            final(self).inputs == inputs,
            final(self).workdir == old(self).workdir,
            final(self).root == old(self).root,
            final(self).main == old(self).main,
            final(self).bytes_main == old(self).bytes_main,
            final(self).fonts == old(self).fonts,
            final(self).slots == old(self).slots,
            final(self).package_storage == old(self).package_storage,
            final(self).now == old(self).now,
    {
        self.inputs = inputs;
    }
}

/// What the identifier of the project file with the virtual path `vpath`
/// holds.
pub open spec fn project_file(vpath: Seq<char>) -> FileIdView {
    FileIdView { package: None, vpath, synthetic: false }
}

/// What the identifier of in-memory content holds.
pub open spec fn memory_file() -> FileIdView {
    FileIdView { package: None, vpath: bytes_path(), synthetic: true }
}

/// The main file for a canonical path, or why there is none.
pub fn main_for_path(root: &str, canonical: Result<String, String>) -> (main: Result<
    FileId,
    String,
>)
    ensures
        match input_error(root@, Input::Path(canonical)) {
            Some(reason) => main is Err && main->Err_0@ == reason,
            None => main is Ok && main->Ok_0@ == project_file(
                rooted_in(canonical->Ok_0@, root@)->0,
            ),
        },
{
    match canonical {
        Ok(path) => match within_root(path.as_str(), root) {
            Some(vpath) => Ok(FileId { package: None, vpath, synthetic: false }),
            None => Err(String::from_str("input file must be contained in project root")),
        },
        Err(reason) => {
            let mut text = String::from_str("Failed to canonicalize path: ");
            text.append(reason.as_str());
            Err(text)
        },
    }
}

/// The text that a slot holds for diagnostics: that of its source, or
/// else that of its bytes. `None` where the slot holds a failure, bytes
/// that are not valid UTF-8, or nothing at all.
pub open spec fn slot_text(slot: FileSlot) -> Option<Seq<char>> {
    match slot.source.data {
        Some(Ok(source)) => Some(source.text@),
        Some(Err(_)) => None,
        None => match slot.file.data {
            Some(Ok(bytes)) => if vstd::utf8::valid_utf8(bytes@) {
                Some(vstd::utf8::decode_utf8(bytes@))
            } else {
                None
            },
            _ => None,
        },
    }
}

/// The text of a slot, as `slot_text` says.
pub fn text_in(slot: &FileSlot) -> (text: Option<String>)
    ensures
        match slot_text(*slot) {
            Some(chars) => text is Some && text->0@ == chars,
            None => text is None,
        },
{
    match &slot.source.data {
        Some(Ok(source)) => Some(source.text.clone()),
        Some(Err(_)) => None,
        None => match &slot.file.data {
            Some(Ok(bytes)) => text_of(bytes.data.as_slice()),
            _ => None,
        },
    }
}

impl<F> SystemWorld<F> {
    /// What making the file behind `canonical` the main file makes of the
    /// world: the world `after` and the result. A path that is not canonical
    /// or not in the root leaves the world as it is.
    pub open spec fn takes_path(
        self,
        canonical: Result<String, String>,
        after: Self,
        result: Result<(), String>,
    ) -> bool {
        &&& after.workdir == self.workdir
        &&& after.root == self.root
        &&& after.bytes_main == self.bytes_main
        &&& after.inputs == self.inputs
        &&& after.fonts == self.fonts
        &&& after.package_storage == self.package_storage
        &&& after.now == self.now
        &&& after.slots == self.slots
        &&& match input_error(self.root@, Input::Path(canonical)) {
            Some(reason) => result is Err && result->Err_0@ == reason && after.main == self.main,
            None => result is Ok && after.main@ == project_file(
                rooted_in(canonical->Ok_0@, self.root@)->0,
            ),
        }
    }

    /// What making `bytes` the main file makes of the world: the world
    /// `after` and the result.
    ///
    /// The identifier for in-memory content is made on first use and kept.
    /// Valid bytes get a slot of their own under it, filled from them, and
    /// become the main file; all other slots stay. Invalid bytes change
    /// neither the main file nor any slot.
    pub open spec fn takes_bytes(self, bytes: Vec<u8>, after: Self, result: Result<(), String>) -> bool {
        &&& after.workdir == self.workdir
        &&& after.root == self.root
        &&& after.inputs == self.inputs
        &&& after.fonts == self.fonts
        &&& after.package_storage == self.package_storage
        &&& after.now == self.now
        &&& after.bytes_main is Some
        &&& match self.bytes_main {
            Some(id) => after.bytes_main == Some(id),
            None => after.bytes_main->0@ == memory_file(),
        }
        &&& match input_error(self.root@, Input::Bytes(bytes)) {
            Some(reason) => {
                &&& result is Err
                &&& result->Err_0@ == reason
                &&& after.main == self.main
                &&& after.slot_map() == self.slot_map()
            },
            None => {
                &&& result is Ok
                &&& after.main == after.bytes_main->0
                &&& exists|slot: FileSlot|
                    {
                        &&& #[trigger] slot.holds_inline(after.main, bytes)
                        &&& after.slot_map() == self.slot_map().insert(after.main@, slot)
                    }
            },
        }
    }

    /// What taking a new input makes of the world.
    pub open spec fn takes_input(self, input: Input, after: Self, result: Result<(), String>) -> bool {
        match input {
            Input::Path(canonical) => self.takes_path(canonical, after, result),
            Input::Bytes(bytes) => self.takes_bytes(bytes, after, result),
        }
    }

    /// Makes the file behind a canonical path the main file.
    pub fn configure_path_input(&mut self, canonical: Result<String, String>) -> (result: Result<
        (),
        String,
    >)
        ensures
            old(self).takes_path(canonical, *final(self), result),
    {
        match main_for_path(self.root.as_str(), canonical) {
            Ok(main) => {
                self.main = main;
                Ok(())
            },
            Err(reason) => Err(reason),
        }
    }

    /// Makes in-memory content the main file.
    pub fn configure_bytes_input(&mut self, bytes: Vec<u8>) -> (result: Result<(), String>)
        requires
            old(self).wf(),
        ensures
            final(self).wf(),
            old(self).takes_bytes(bytes, *final(self), result),
    {
        let id = match &self.bytes_main {
            Some(id) => id.clone(),
            None => {
                let id = FileId::new_fake("<bytes>");
                self.bytes_main = Some(id.clone());
                id
            },
        };
        let slot = match FileSlot::from_inline_bytes(id.clone(), bytes) {
            Ok(slot) => slot,
            Err(error) => {
                return Err(error.message());
            },
        };
        self.main = id.clone();
        table_insert(&mut self.slots, id, slot);
        Ok(())
    }

    /// Update the primary input for the world, reusing the rest of it:
    /// fonts, package storage, inputs, and the slots of all files.
    ///
    /// The world is reset first, whatever becomes of the input.
    pub fn set_input(&mut self, input: Input) -> (result: Result<(), String>)
        requires
            old(self).wf(),
        ensures
            final(self).wf(),
            exists|reset: Self|
                {
                    &&& #[trigger] old(self).resets_to(reset)
                    &&& reset.takes_input(input, *final(self), result)
                },
    {
        self.reset();
        match input {
            Input::Path(canonical) => self.configure_path_input(canonical),
            Input::Bytes(bytes) => self.configure_bytes_input(bytes),
        }
    }

    /// The name under which a file is shown to a reader.
    ///
    /// A file of a package is shown as the package and its path in it. Any
    /// other file is shown by its path relative to the working directory,
    /// or by its virtual path without the leading separator where there is
    /// no such path.
    pub open spec fn shown_name(self, id: FileId) -> Seq<char> {
        match id.package {
            Some(spec) => spec_text(spec@) + id.vpath@,
            None => match resolved(id.vpath@, self.root@) {
                Some(path) => match relative_to(
                    path,
                    match self.workdir {
                        Some(workdir) => workdir@,
                        None => "."@,
                    },
                ) {
                    Some(way) => way,
                    None => rootless(id.vpath@),
                },
                None => rootless(id.vpath@),
            },
        }
    }

    /// The name of a file in diagnostics.
    pub fn name(&self, id: &FileId) -> (name: String)
        ensures
            name@ == self.shown_name(*id),
    {
        match &id.package {
            Some(spec) => {
                let mut name = String::new();
                push_spec(&mut name, spec);
                name.append(id.vpath.as_str());
                name
            },
            None => {
                // Try to express the path relative to the working directory.
                let relative = match resolve(id.vpath.as_str(), self.root.as_str()) {
                    Some(path) => diff_paths(path.as_str(), self.workdir()),
                    None => None,
                };
                match relative {
                    Some(way) => way,
                    None => without_root(id.vpath.as_str()),
                }
            },
        }
    }

    /// Whether `lookup` can be asked for the file: its slot holds text.
    pub open spec fn holds_text(self, id: FileId) -> bool {
        self.slot_map().contains_key(id@) && slot_text(self.slot_map()[id@]) is Some
    }

    /// Lookup the text of a file that was served before.
    pub fn lookup(&mut self, id: &FileId) -> (text: Option<String>)
        requires
            old(self).wf(),
        ensures
            final(self).wf(),
            old(self).same_setup(*final(self)),
            final(self).now == old(self).now,
            final(self).slot_map() == old(self).slot_map(),
            old(self).holds_text(*id) ==> text is Some && text->0@ == slot_text(
                old(self).slot_map()[id@],
            )->0,
            !old(self).holds_text(*id) ==> text is None,
    {
        match table_remove(&mut self.slots, id) {
            Some(slot) => {
                let text = text_in(&slot);
                table_insert(&mut self.slots, id.clone(), slot);
                text
            },
            None => {
                None
            },
        }
    }
}

/// Collects what a world is made of.
pub struct SystemWorldBuilder<F> {
    pub root: String,
    pub input: Input,
    pub fonts: Option<F>,
    pub inputs: Vec<(String, String)>,
    pub package_path: Option<String>,
}

impl<F> SystemWorldBuilder<F> {
    /// The builder holds `root` and `input` and nothing else: no fonts, no
    /// inputs, no package path.
    pub open spec fn is_fresh(self, root: String, input: Input) -> bool {
        &&& self.root == root
        &&& self.input == input
        &&& self.fonts is None
        &&& self.inputs@.len() == 0
        &&& self.package_path is None
    }

    /// A builder for a world rooted at `root` that compiles `input`.
    pub fn new(root: String, input: Input) -> (builder: Self)
        ensures
            builder.is_fresh(root, input),
    {
        SystemWorldBuilder { root, input, fonts: None, inputs: Vec::new(), package_path: None }
    }

    /// Sets the directory that takes the place of the default package
    /// directory.
    pub fn package_path(self, package_path: Option<String>) -> (builder: Self)
        ensures
            builder.package_path == package_path,
            builder.root == self.root,
            builder.input == self.input,
            builder.fonts == self.fonts,
            builder.inputs == self.inputs,
    {
        let mut builder = self;
        builder.package_path = package_path;
        builder
    }

    /// Sets the table of fonts. Without one, `build` searches for fonts.
    pub fn fonts(self, fonts: Option<F>) -> (builder: Self)
        ensures
            builder.fonts == fonts,
            builder.root == self.root,
            builder.input == self.input,
            builder.inputs == self.inputs,
            builder.package_path == self.package_path,
    {
        let mut builder = self;
        builder.fonts = fonts;
        builder
    }

    /// Sets the system inputs.
    pub fn inputs(self, inputs: Vec<(String, String)>) -> (builder: Self)
        ensures
            builder.inputs == inputs,
            builder.root == self.root,
            builder.input == self.input,
            builder.fonts == self.fonts,
            builder.package_path == self.package_path,
    {
        let mut builder = self;
        builder.inputs = inputs;
        builder
    }

    /// The world `world` is what this builder makes, with the working
    /// directory `workdir` and the fonts `fonts`.
    ///
    /// A path input becomes the main file of a world without slots. Bytes
    /// become the main file under the identifier for in-memory content,
    /// with one slot, filled from them. No instant is held.
    pub open spec fn builds(self, workdir: Option<String>, fonts: F, world: SystemWorld<F>) -> bool {
        &&& world.workdir == workdir
        &&& world.root == self.root
        &&& world.inputs == self.inputs
        &&& world.fonts == fonts
        &&& world.package_storage.package_path == self.package_path
        &&& world.now is None
        &&& match self.input {
            Input::Path(canonical) => {
                &&& world.main@ == project_file(rooted_in(canonical->Ok_0@, self.root@)->0)
                &&& world.bytes_main is None
                &&& world.slot_map() == no_slots()
            },
            Input::Bytes(bytes) => {
                &&& world.main@ == memory_file()
                &&& world.bytes_main == Some(world.main)
                &&& exists|slot: FileSlot|
                    {
                        &&& #[trigger] slot.holds_inline(world.main, bytes)
                        &&& world.slot_map() == no_slots().insert(world.main@, slot)
                    }
            },
        }
    }

    /// Builds the world.
    ///
    /// The fonts are those of the builder, or what `search_fonts` finds
    /// where it has none; `search_fonts` is not called otherwise. An input
    /// that cannot become the main file gives its reason and no world.
    pub fn build<S>(self, workdir: Option<String>, search_fonts: S) -> (built: Result<
        SystemWorld<F>,
        String,
    >) where S: FnOnce() -> F
        requires
            self.fonts is None ==> search_fonts.requires(()),
        ensures
            match input_error(self.root@, self.input) {
                Some(reason) => built is Err && built->Err_0@ == reason,
                None => {
                    &&& built is Ok
                    &&& built->Ok_0.wf()
                    &&& exists|fonts: F|
                        {
                            &&& #[trigger] self.builds(workdir, fonts, built->Ok_0)
                            &&& match self.fonts {
                                Some(given) => fonts == given,
                                None => search_fonts.ensures((), fonts),
                            }
                        }
                },
            },
    {
        let ghost this = self;
        let fonts = match self.fonts {
            Some(fonts) => fonts,
            None => search_fonts(),
        };
        let mut slots = table_new();
        let mut bytes_main = None;
        let main = match self.input {
            Input::Path(canonical) => {
                // Resolve the virtual path of the main file within the project root.
                match main_for_path(self.root.as_str(), canonical) {
                    Ok(main) => main,
                    Err(reason) => {
                        return Err(reason);
                    },
                }
            },
            Input::Bytes(bytes) => {
                let id = FileId::new_fake("<bytes>");
                let slot = match FileSlot::from_inline_bytes(id.clone(), bytes) {
                    Ok(slot) => slot,
                    Err(error) => {
                        return Err(error.message());
                    },
                };
                table_insert(&mut slots, id.clone(), slot);
                bytes_main = Some(id.clone());
                id
            },
        };
        let world = SystemWorld {
            workdir,
            root: self.root,
            main,
            bytes_main,
            inputs: self.inputs,
            fonts,
            slots,
            package_storage: PackageStorage { package_path: self.package_path },
            now: None,
        };
        assert(this.builds(workdir, fonts, world));
        Ok(world)
    }
}

} // verus!
