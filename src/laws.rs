use vstd::prelude::*;
use notify::event::{ModifyKind, RenameMode};
use notify::EventKind;
use crate::classify::{classified, RawEvent};
use crate::dedup::{accepts, DEBOUNCE_MS};
use crate::event::{EventView, FsKind};

verus! {

/// Classification is repeatable: with the filesystem unchanged in between
/// (the same directory answer) and the same capture time, two
/// classifications of one notification agree.
pub proof fn classification_is_repeatable(raw: RawEvent, is_dir: bool, now: u128, a: EventView, b: EventView)
    requires
        raw.paths@.len() > 0,
        a == classified(&raw, is_dir, now),
        b == classified(&raw, is_dir, now),
    ensures
        a == b,
{
}

/// A creation is reported as `addDir` on a directory and as `add` otherwise.
pub proof fn creation_is_suffixed_for_directories(raw: RawEvent, now: u128)
    requires
        raw.paths@.len() > 0,
        raw.kind is Create,
    ensures
        classified(&raw, true, now).kind == FsKind::AddDir,
        classified(&raw, false, now).kind == FsKind::Add,
{
}

/// A rename is split in two: the vacated name is reported as removed and the
/// new name as added, each with the directory suffix where it applies.
pub proof fn rename_is_split(from: RawEvent, to: RawEvent, from_is_dir: bool, to_is_dir: bool, t0: u128, t1: u128)
    requires
        from.paths@.len() > 0,
        to.paths@.len() > 0,
        from.kind == EventKind::Modify(ModifyKind::Name(RenameMode::From)),
        to.kind == EventKind::Modify(ModifyKind::Name(RenameMode::To)),
    ensures
        classified(&from, from_is_dir, t0).kind == (if from_is_dir { FsKind::RemoveDir } else { FsKind::Remove }),
        classified(&to, to_is_dir, t1).kind == (if to_is_dir { FsKind::AddDir } else { FsKind::Add }),
{
}

/// An event that repeats the kind and path of the one let through before it
/// is suppressed when it comes at most the window later, and let through
/// when it comes more than the window later (for any kind but `other`,
/// which never passes).
pub proof fn repeats_are_debounced(prev: EventView, cand: EventView)
    requires
        cand.kind == prev.kind,
        cand.path == prev.path,
    ensures
        cand.ts <= prev.ts + DEBOUNCE_MS ==> !accepts(Some(prev), cand),
        cand.kind != FsKind::Other && cand.ts >= prev.ts + DEBOUNCE_MS + 1 ==> accepts(Some(prev), cand),
{
}

/// An event of kind `other` is never let through, whatever came before.
pub proof fn other_is_never_delivered(prev: Option<EventView>, cand: EventView)
    requires
        cand.kind == FsKind::Other,
    ensures
        !accepts(prev, cand),
{
}

} // verus!
