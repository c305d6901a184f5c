//! Laws that relate several lookups to each other.

use crate::cell::{content_hash, raw_view};
use crate::clock::{date_of, shifted, Date, Instant};
use crate::error::FileError;
use crate::file::{Bytes, FileId, Source};
use crate::package::{PackageError, PackageSpec};
use crate::path::resolved;
use crate::slot::{fetched, made_source, reads_located, same_file, source_taken, FileSlot};
use crate::world::SystemWorld;
use vstd::prelude::*;

verus! {

/// Within one compilation the text of a file is loaded at most once.
///
/// After a lookup the slot serves its text, so a second lookup without a
/// reset in between calls neither `prepare` nor `read_from_disk`, whatever
/// they are and whatever is on disk by then, leaves the slot as it is and
/// serves the same value.
pub proof fn law_source_read_once<
    P: FnOnce(PackageSpec) -> Result<String, PackageError>,
    R: FnOnce(String) -> Result<Vec<u8>, FileError>,
    P2: FnOnce(PackageSpec) -> Result<String, PackageError>,
    R2: FnOnce(String) -> Result<Vec<u8>, FileError>,
>(
    slot: FileSlot,
    root: Seq<char>,
    prepare: P,
    read_from_disk: R,
    first: FileSlot,
    served: Result<Source, FileError>,
    later_root: Seq<char>,
    later_prepare: P2,
    later_read: R2,
    second: FileSlot,
    served_again: Result<Source, FileError>,
)
    requires
        slot.sourced(root, prepare, read_from_disk, first, served),
        first.sourced(later_root, later_prepare, later_read, second, served_again),
    ensures
        first.serves_source(),
        second == first,
        served_again == served,
{
}

/// Within one compilation the bytes of a file are loaded at most once: a
/// second lookup without a reset in between leaves the slot as it is and
/// serves the same bytes, or the same failure.
pub proof fn law_file_read_once<
    P: FnOnce(PackageSpec) -> Result<String, PackageError>,
    R: FnOnce(String) -> Result<Vec<u8>, FileError>,
    P2: FnOnce(PackageSpec) -> Result<String, PackageError>,
    R2: FnOnce(String) -> Result<Vec<u8>, FileError>,
>(
    slot: FileSlot,
    root: Seq<char>,
    prepare: P,
    read_from_disk: R,
    first: FileSlot,
    served: Result<Bytes, FileError>,
    later_root: Seq<char>,
    later_prepare: P2,
    later_read: R2,
    second: FileSlot,
    served_again: Result<Bytes, FileError>,
)
    requires
        slot.filed(root, prepare, read_from_disk, first, served),
        first.filed(later_root, later_prepare, later_read, second, served_again),
    ensures
        first.serves_file(),
        second == first,
        same_file(served, served_again),
{
}

/// A world serves the same text for a file until it is reset: the second
/// of two lookups in a row loads nothing and changes no slot.
pub proof fn law_world_reads_once<
    F,
    P: FnOnce(PackageSpec) -> Result<String, PackageError>,
    R: FnOnce(String) -> Result<Vec<u8>, FileError>,
    P2: FnOnce(PackageSpec) -> Result<String, PackageError>,
    R2: FnOnce(String) -> Result<Vec<u8>, FileError>,
>(
    world: SystemWorld<F>,
    id: FileId,
    prepare: P,
    read_from_disk: R,
    first: SystemWorld<F>,
    served: Result<Source, FileError>,
    later_prepare: P2,
    later_read: R2,
    second: SystemWorld<F>,
    served_again: Result<Source, FileError>,
)
    requires
        world.sources(id, prepare, read_from_disk, first, served),
        first.sources(id, later_prepare, later_read, second, served_again),
    ensures
        first.slot_or_new(id).serves_source(),
        second.slot_map() == first.slot_map(),
        served_again == served,
{
    let slot = choose|slot: FileSlot|
        {
            &&& #[trigger] world.stores(id, slot, first)
            &&& world.slot_or_new(id).sourced(world.root@, prepare, read_from_disk, slot, served)
        };
    let again = choose|again: FileSlot|
        {
            &&& #[trigger] first.stores(id, again, second)
            &&& first.slot_or_new(id).sourced(
                first.root@,
                later_prepare,
                later_read,
                again,
                served_again,
            )
        };
    assert(first.slot_or_new(id) == slot);
    assert(second.slot_map() =~= first.slot_map());
}

/// A change on disk is seen after a reset.
///
/// Take a slot of a file on disk that holds text, reset it, and look the
/// text up. If whatever the load gives has another fingerprint than the
/// slot held, the slot takes the new fingerprint, and what is served is
/// made from what was loaded: the new text in the same source, one revision
/// on, or the failure.
pub proof fn law_change_detected<
    P: FnOnce(PackageSpec) -> Result<String, PackageError>,
    R: FnOnce(String) -> Result<Vec<u8>, FileError>,
>(
    slot: FileSlot,
    root: Seq<char>,
    prepare: P,
    read_from_disk: R,
    after: FileSlot,
    served: Result<Source, FileError>,
)
    requires
        !slot.id.synthetic,
        slot.source.data is Some,
        slot.after_reset().sourced(root, prepare, read_from_disk, after, served),
        forall|raw: Result<Vec<u8>, FileError>| #[trigger]
            fetched(root, slot.id, prepare, read_from_disk, raw) ==> content_hash(raw_view(raw))
                != slot.source.fingerprint,
    ensures
        after.source.fingerprint != slot.source.fingerprint,
        after.source.data == Some(served),
        exists|raw: Result<Vec<u8>, FileError>|
            {
                &&& #[trigger] fetched(root, slot.id, prepare, read_from_disk, raw)
                &&& match raw {
                    Ok(bytes) => made_source(slot.id, bytes@, slot.source.hint(), served),
                    Err(error) => served == Err::<Source, FileError>(error),
                }
            },
{
    let reset = slot.after_reset();
    let raw = choose|raw: Result<Vec<u8>, FileError>|
        {
            &&& #[trigger] fetched(root, reset.id, prepare, read_from_disk, raw)
            &&& source_taken(reset.source, reset.id, raw, after.source, served)
        };
    assert(fetched(root, slot.id, prepare, read_from_disk, raw));
}

/// Unchanged content is not processed again.
///
/// Load the text of a file on disk, reset the slot, and look the text up
/// again. If the second load can only give what the first gave, byte for
/// byte or failure for failure, the slot keeps its data and serves the
/// very same source: same text, same revision.
pub proof fn law_unchanged_reused<
    P: FnOnce(PackageSpec) -> Result<String, PackageError>,
    R: FnOnce(String) -> Result<Vec<u8>, FileError>,
    P2: FnOnce(PackageSpec) -> Result<String, PackageError>,
    R2: FnOnce(String) -> Result<Vec<u8>, FileError>,
>(
    slot: FileSlot,
    root: Seq<char>,
    prepare: P,
    read_from_disk: R,
    first: FileSlot,
    served: Result<Source, FileError>,
    later_root: Seq<char>,
    later_prepare: P2,
    later_read: R2,
    second: FileSlot,
    served_again: Result<Source, FileError>,
)
    requires
        !slot.id.synthetic,
        !slot.serves_source(),
        slot.sourced(root, prepare, read_from_disk, first, served),
        first.after_reset().sourced(later_root, later_prepare, later_read, second, served_again),
        forall|raw: Result<Vec<u8>, FileError>, later: Result<Vec<u8>, FileError>|
            #[trigger] fetched(root, slot.id, prepare, read_from_disk, raw) && #[trigger] fetched(
                later_root,
                slot.id,
                later_prepare,
                later_read,
                later,
            ) ==> raw_view(raw) == raw_view(later),
    ensures
        second.source.data == first.source.data,
        second.source.fingerprint == first.source.fingerprint,
        served_again == served,
{
    let raw = choose|raw: Result<Vec<u8>, FileError>|
        {
            &&& #[trigger] fetched(root, slot.id, prepare, read_from_disk, raw)
            &&& source_taken(slot.source, slot.id, raw, first.source, served)
        };
    let reset = first.after_reset();
    let later = choose|later: Result<Vec<u8>, FileError>|
        {
            &&& #[trigger] fetched(later_root, reset.id, later_prepare, later_read, later)
            &&& source_taken(reset.source, reset.id, later, second.source, served_again)
        };
    assert(raw_view(raw) == raw_view(later));
}

/// A path that leaves the root is denied, and nothing is read.
///
/// For a file of the project whose virtual path does not resolve below the
/// root, every load ends in `AccessDenied`, and `read_from_disk` may be any
/// function at all, one that can never be called included: it is not
/// called.
pub proof fn law_escape_denied<
    P: FnOnce(PackageSpec) -> Result<String, PackageError>,
    R: FnOnce(String) -> Result<Vec<u8>, FileError>,
>(root: Seq<char>, id: FileId, prepare: P, read_from_disk: R)
    requires
        !id.synthetic,
        id.package is None,
        resolved(id.vpath@, root) is None,
    ensures
        reads_located(root, id, prepare, read_from_disk),
        FileSlot::empty(id).may_load(root, prepare, read_from_disk),
        forall|raw: Result<Vec<u8>, FileError>| #[trigger]
            fetched(root, id, prepare, read_from_disk, raw) ==> raw == Err::<Vec<u8>, FileError>(
                FileError::AccessDenied,
            ),
{
}

/// A file of a package whose virtual path leaves the package's directory
/// is denied as well: where `prepare` can only give directories below
/// which the path does not resolve, no load reads anything.
pub proof fn law_escape_denied_in_package<
    P: FnOnce(PackageSpec) -> Result<String, PackageError>,
    R: FnOnce(String) -> Result<Vec<u8>, FileError>,
>(root: Seq<char>, id: FileId, prepare: P, read_from_disk: R)
    requires
        !id.synthetic,
        id.package is Some,
        forall|dir: String| #[trigger]
            prepare.ensures((id.package->0,), Ok(dir)) ==> resolved(id.vpath@, dir@) is None,
    ensures
        reads_located(root, id, prepare, read_from_disk),
        forall|raw: Result<Vec<u8>, FileError>| #[trigger]
            fetched(root, id, prepare, read_from_disk, raw) ==> raw is Err,
{
}

/// All dates of one compilation come from one instant.
///
/// Of two requests for the date in a row, the second keeps the instant of
/// the first, whatever its clock would say and whatever the offsets are:
/// both dates are dates of that one instant.
pub proof fn law_today_stable<
    F,
    K: FnOnce() -> Instant,
    K2: FnOnce() -> Instant,
>(
    world: SystemWorld<F>,
    offset: Option<i64>,
    clock: K,
    first: SystemWorld<F>,
    date: Option<Date>,
    later_offset: Option<i64>,
    later_clock: K2,
    second: SystemWorld<F>,
    later_date: Option<Date>,
)
    requires
        world.dated(offset, clock, first, date),
        first.dated(later_offset, later_clock, second, later_date),
    ensures
        second.now == first.now,
        date == date_of(shifted(first.now->0, offset)),
        later_date == date_of(shifted(first.now->0, later_offset)),
{
}

/// After a reset the instant is sampled anew: the next request for the
/// date asks its clock.
pub proof fn law_today_after_reset<F, K: FnOnce() -> Instant>(
    world: SystemWorld<F>,
    reset: SystemWorld<F>,
    offset: Option<i64>,
    clock: K,
    after: SystemWorld<F>,
    date: Option<Date>,
)
    requires
        world.resets_to(reset),
        reset.dated(offset, clock, after, date),
    ensures
        clock.ensures((), after.now->0),
        date == date_of(shifted(after.now->0, offset)),
{
}

/// Content handed over in memory is served as if it had been read from
/// disk.
///
/// Take an empty slot of a file on disk whose load can only give `bytes`,
/// and a slot filled from the same `bytes` in memory. Both serve the same
/// text, at revision zero, or both fail to decode it; and both hold the same
/// fingerprint.
pub proof fn law_memory_as_disk<
    P: FnOnce(PackageSpec) -> Result<String, PackageError>,
    R: FnOnce(String) -> Result<Vec<u8>, FileError>,
    P2: FnOnce(PackageSpec) -> Result<String, PackageError>,
    R2: FnOnce(String) -> Result<Vec<u8>, FileError>,
>(
    bytes: Vec<u8>,
    on_disk: FileId,
    root: Seq<char>,
    prepare: P,
    read_from_disk: R,
    loaded: FileSlot,
    from_disk: Result<Source, FileError>,
    in_memory: FileId,
    inline: FileSlot,
    later_root: Seq<char>,
    later_prepare: P2,
    later_read: R2,
    after: FileSlot,
    from_memory: Result<Source, FileError>,
)
    requires
        !on_disk.synthetic,
        FileSlot::empty(on_disk).sourced(root, prepare, read_from_disk, loaded, from_disk),
        forall|raw: Result<Vec<u8>, FileError>| #[trigger]
            fetched(root, on_disk, prepare, read_from_disk, raw) ==> raw_view(raw) == Ok::<
                Seq<u8>,
                FileError,
            >(bytes@),
        inline.holds_inline(in_memory, bytes),
        inline.sourced(later_root, later_prepare, later_read, after, from_memory),
    ensures
        loaded.source.fingerprint == inline.source.fingerprint,
        after == inline,
        from_disk is Ok <==> from_memory is Ok,
        from_disk is Ok ==> {
            &&& from_disk->Ok_0.text@ == from_memory->Ok_0.text@
            &&& from_disk->Ok_0.revision == from_memory->Ok_0.revision
            &&& from_disk->Ok_0.id == on_disk
            &&& from_memory->Ok_0.id == in_memory
        },
        from_disk is Err ==> from_disk == from_memory,
{
    let raw = choose|raw: Result<Vec<u8>, FileError>|
        {
            &&& #[trigger] fetched(root, on_disk, prepare, read_from_disk, raw)
            &&& source_taken(
                FileSlot::empty(on_disk).source,
                on_disk,
                raw,
                loaded.source,
                from_disk,
            )
        };
    assert(raw_view(raw) == Ok::<Seq<u8>, FileError>(bytes@));
}

/// A world sees a change on disk after its reset.
///
/// Take a world that holds text for a file on disk, reset it, and look the
/// text up. If whatever the load gives has another fingerprint than the
/// slot held, the slot of the file takes the new fingerprint and holds what
/// is served, and that is made from what was loaded.
pub proof fn law_world_change_detected<
    F,
    P: FnOnce(PackageSpec) -> Result<String, PackageError>,
    R: FnOnce(String) -> Result<Vec<u8>, FileError>,
>(
    world: SystemWorld<F>,
    id: FileId,
    reset: SystemWorld<F>,
    prepare: P,
    read_from_disk: R,
    after: SystemWorld<F>,
    served: Result<Source, FileError>,
)
    requires
        world.slot_map().contains_key(id@),
        !world.slot_map()[id@].id.synthetic,
        world.slot_map()[id@].source.data is Some,
        world.resets_to(reset),
        reset.sources(id, prepare, read_from_disk, after, served),
        forall|raw: Result<Vec<u8>, FileError>| #[trigger]
            fetched(world.root@, world.slot_map()[id@].id, prepare, read_from_disk, raw)
                ==> content_hash(raw_view(raw)) != world.slot_map()[id@].source.fingerprint,
    ensures
        after.slot_map().contains_key(id@),
        after.slot_map()[id@].source.fingerprint != world.slot_map()[id@].source.fingerprint,
        after.slot_map()[id@].source.data == Some(served),
        exists|raw: Result<Vec<u8>, FileError>|
            {
                &&& #[trigger] fetched(
                    world.root@,
                    world.slot_map()[id@].id,
                    prepare,
                    read_from_disk,
                    raw,
                )
                &&& match raw {
                    Ok(bytes) => made_source(
                        world.slot_map()[id@].id,
                        bytes@,
                        world.slot_map()[id@].source.hint(),
                        served,
                    ),
                    Err(error) => served == Err::<Source, FileError>(error),
                }
            },
{
    let slot = world.slot_map()[id@];
    let stored = choose|stored: FileSlot|
        {
            &&& #[trigger] reset.stores(id, stored, after)
            &&& reset.slot_or_new(id).sourced(
                reset.root@,
                prepare,
                read_from_disk,
                stored,
                served,
            )
        };
    assert(reset.slot_map().dom().contains(id@));
    assert(reset.slot_or_new(id) == slot.after_reset());
    law_change_detected(slot, reset.root@, prepare, read_from_disk, stored, served);
}

/// A world does not process unchanged content again.
///
/// Look up the text of a file on disk that the world holds no text for
/// yet, reset the world, and look the text up again. If the second load can
/// only give what the first gave, the very same source is served: same
/// text, same revision.
pub proof fn law_world_unchanged_reused<
    F,
    P: FnOnce(PackageSpec) -> Result<String, PackageError>,
    R: FnOnce(String) -> Result<Vec<u8>, FileError>,
    P2: FnOnce(PackageSpec) -> Result<String, PackageError>,
    R2: FnOnce(String) -> Result<Vec<u8>, FileError>,
>(
    world: SystemWorld<F>,
    id: FileId,
    prepare: P,
    read_from_disk: R,
    first: SystemWorld<F>,
    served: Result<Source, FileError>,
    reset: SystemWorld<F>,
    later_prepare: P2,
    later_read: R2,
    second: SystemWorld<F>,
    served_again: Result<Source, FileError>,
)
    requires
        !world.slot_or_new(id).id.synthetic,
        !world.slot_or_new(id).serves_source(),
        world.sources(id, prepare, read_from_disk, first, served),
        first.resets_to(reset),
        reset.sources(id, later_prepare, later_read, second, served_again),
        forall|raw: Result<Vec<u8>, FileError>, later: Result<Vec<u8>, FileError>|
            #[trigger] fetched(world.root@, world.slot_or_new(id).id, prepare, read_from_disk, raw)
                && #[trigger] fetched(
                world.root@,
                world.slot_or_new(id).id,
                later_prepare,
                later_read,
                later,
            ) ==> raw_view(raw) == raw_view(later),
    ensures
        served_again == served,
        second.slot_map()[id@].source.data == first.slot_map()[id@].source.data,
        second.slot_map()[id@].source.fingerprint == first.slot_map()[id@].source.fingerprint,
{
    let slot = world.slot_or_new(id);
    let loaded = choose|loaded: FileSlot|
        {
            &&& #[trigger] world.stores(id, loaded, first)
            &&& slot.sourced(world.root@, prepare, read_from_disk, loaded, served)
        };
    let again = choose|again: FileSlot|
        {
            &&& #[trigger] reset.stores(id, again, second)
            &&& reset.slot_or_new(id).sourced(
                reset.root@,
                later_prepare,
                later_read,
                again,
                served_again,
            )
        };
    assert(first.slot_map().dom().contains(id@));
    assert(reset.slot_map().dom().contains(id@));
    assert(reset.slot_or_new(id) == loaded.after_reset());
    law_unchanged_reused(
        slot,
        world.root@,
        prepare,
        read_from_disk,
        loaded,
        served,
        reset.root@,
        later_prepare,
        later_read,
        again,
        served_again,
    );
}

/// A world denies a path that leaves its root, and reads nothing.
///
/// For a file of the project that the world has no slot for and whose
/// virtual path does not resolve below the root, the lookup may be made
/// with any `prepare` and `read_from_disk` at all, and it serves
/// `AccessDenied`.
pub proof fn law_world_escape_denied<
    F,
    P: FnOnce(PackageSpec) -> Result<String, PackageError>,
    R: FnOnce(String) -> Result<Vec<u8>, FileError>,
>(
    world: SystemWorld<F>,
    id: FileId,
    prepare: P,
    read_from_disk: R,
    after: SystemWorld<F>,
    served: Result<Source, FileError>,
)
    requires
        !world.slot_map().contains_key(id@),
        !id.synthetic,
        id.package is None,
        resolved(id.vpath@, world.root@) is None,
    ensures
        world.slot_or_new(id).may_load(world.root@, prepare, read_from_disk),
        world.sources(id, prepare, read_from_disk, after, served) ==> served == Err::<
            Source,
            FileError,
        >(FileError::AccessDenied),
{
    law_escape_denied(world.root@, id, prepare, read_from_disk);
    if world.sources(id, prepare, read_from_disk, after, served) {
        let stored = choose|stored: FileSlot|
            {
                &&& #[trigger] world.stores(id, stored, after)
                &&& world.slot_or_new(id).sourced(
                    world.root@,
                    prepare,
                    read_from_disk,
                    stored,
                    served,
                )
            };
        let raw = choose|raw: Result<Vec<u8>, FileError>|
            {
                &&& #[trigger] fetched(world.root@, id, prepare, read_from_disk, raw)
                &&& source_taken(FileSlot::empty(id).source, id, raw, stored.source, served)
            };
    }
}

} // verus!
