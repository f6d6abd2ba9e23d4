use vstd::prelude::*;
use notify::event::{ModifyKind, RenameMode};
use notify::EventKind;
use crate::event::{EventView, FsEvent, FsKind};

verus! {

/// A raw notification as a backend delivers it: its backend-specific kind tag
/// and the paths it concerns, the first being the one reported.
pub struct RawEvent {
    pub kind: EventKind,
    pub paths: Vec<String>,
}

/// Why a raw notification could not be turned into a normalised event.
pub enum WatchError {
    /// The backend reported a failure instead of an event.
    Backend(notify::Error),
    /// The notification named no path.
    NoPath,
}

/// The normalised kind of a raw kind tag; `is_dir` tells whether the path
/// concerned resolves to a directory.
pub open spec fn normalized_kind(kind: EventKind, is_dir: bool) -> FsKind {
    match kind {
        EventKind::Create(_) => added(is_dir),
        EventKind::Modify(ModifyKind::Data(_)) => FsKind::Modify,
        EventKind::Modify(ModifyKind::Name(RenameMode::From)) => removed(is_dir),
        EventKind::Modify(ModifyKind::Name(RenameMode::To)) => added(is_dir),
        EventKind::Remove(_) => removed(is_dir),
        _ => FsKind::Other,
    }
}

pub open spec fn added(is_dir: bool) -> FsKind {
    if is_dir { FsKind::AddDir } else { FsKind::Add }
}

pub open spec fn removed(is_dir: bool) -> FsKind {
    if is_dir { FsKind::RemoveDir } else { FsKind::Remove }
}

/// The normalised event for a raw event that names at least one path.
pub open spec fn classified(raw: &RawEvent, is_dir: bool, now: u128) -> EventView
    recommends
        raw.paths@.len() > 0,
{
    EventView { kind: normalized_kind(raw.kind, is_dir), path: raw.paths@[0]@, ts: now }
}

/// Maps a backend kind tag onto the normalised vocabulary.
pub fn normalize_kind(kind: &EventKind, is_dir: bool) -> (r: FsKind)
    ensures
        r == normalized_kind(*kind, is_dir),
{
    let add = if is_dir { FsKind::AddDir } else { FsKind::Add };
    let remove = if is_dir { FsKind::RemoveDir } else { FsKind::Remove };
    match kind {
        EventKind::Create(_) => add,
        EventKind::Modify(ModifyKind::Data(_)) => FsKind::Modify,
        EventKind::Modify(ModifyKind::Name(RenameMode::From)) => remove,
        EventKind::Modify(ModifyKind::Name(RenameMode::To)) => add,
        EventKind::Remove(_) => remove,
        _ => FsKind::Other,
    }
}

/// Classifies what a backend delivered. `is_dir` tells whether the first path
/// of the event resolved to a directory when it was received, `now` is the
/// capture time in milliseconds.
pub fn classify(raw: Result<RawEvent, notify::Error>, is_dir: bool, now: u128) -> (r: Result<FsEvent, WatchError>)
    ensures
        match raw {
            Err(e) => r == Err::<FsEvent, WatchError>(WatchError::Backend(e)),
            Ok(ev) => if ev.paths@.len() == 0 {
                r is Err && r->Err_0 is NoPath
            } else {
                r is Ok && r->Ok_0@ == classified(&ev, is_dir, now)
            },
        },
{
    match raw {
        Err(e) => Err(WatchError::Backend(e)),
        Ok(ev) => {
            if ev.paths.len() == 0 {
                Err(WatchError::NoPath)
            } else {
                let kind = normalize_kind(&ev.kind, is_dir);
                let path = ev.paths[0].clone();
                Ok(FsEvent::new(kind, path, now))
            }
        },
    }
}

} // verus!
