use vstd::prelude::*;

verus! {

/// The closed vocabulary of normalised change kinds.
#[derive(Clone, Copy, Debug, PartialEq, Eq, Structural)]
pub enum FsKind {
    Add,
    AddDir,
    Modify,
    Remove,
    RemoveDir,
    Other,
}

/// The exact token under which a kind is reported to consumers.
pub open spec fn kind_token(k: FsKind) -> Seq<char> {
    match k {
        FsKind::Add => "add"@,
        FsKind::AddDir => "addDir"@,
        FsKind::Modify => "modify"@,
        FsKind::Remove => "remove"@,
        FsKind::RemoveDir => "removeDir"@,
        FsKind::Other => "other"@,
    }
}

impl FsKind {
    /// The token that names this kind on the wire.
    pub fn token(&self) -> (r: &'static str)
        ensures
            r@ == kind_token(*self),
    {
        match self {
            FsKind::Add => "add",
            FsKind::AddDir => "addDir",
            FsKind::Modify => "modify",
            FsKind::Remove => "remove",
            FsKind::RemoveDir => "removeDir",
            FsKind::Other => "other",
        }
    }
}

/// What a normalised event stands for: its kind, its path as characters and
/// its capture time in milliseconds since the epoch.
pub struct EventView {
    pub kind: FsKind,
    pub path: Seq<char>,
    pub ts: u128,
}

/// A normalised change notification, the unit handed to consumers.
pub struct FsEvent {
    pub kind: FsKind,
    pub path: String,
    pub ts: u128,
}

impl View for FsEvent {
    type V = EventView;

    open spec fn view(&self) -> EventView {
        EventView { kind: self.kind, path: self.path@, ts: self.ts }
    }
}

impl Clone for FsEvent {
    fn clone(&self) -> (r: FsEvent)
        ensures
            r@ == self@,
    {
        FsEvent { kind: self.kind, path: self.path.clone(), ts: self.ts }
    }
}

impl PartialEq for FsEvent {
    fn eq(&self, other: &FsEvent) -> (r: bool) {
        self.kind == other.kind && self.path == other.path && self.ts == other.ts
    }
}

impl vstd::std_specs::cmp::PartialEqSpecImpl for FsEvent {
    open spec fn obeys_eq_spec() -> bool {
        true
    }

    open spec fn eq_spec(&self, other: &FsEvent) -> bool {
        self@ == other@
    }
}

impl FsEvent {
    pub fn new(kind: FsKind, path: String, ts: u128) -> (r: FsEvent)
        ensures
            r@ == (EventView { kind, path: path@, ts }),
    {
        FsEvent { kind, path, ts }
    }
}

} // verus!
