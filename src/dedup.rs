use vstd::prelude::*;
use crate::classify::WatchError;
use crate::event::{EventView, FsEvent, FsKind};

verus! {

/// Width of the debounce window, in milliseconds.
pub const DEBOUNCE_MS: u128 = 50;

/// Whether `cand` lies more than the debounce window after `prev`.
pub open spec fn is_stale(prev: EventView, cand: EventView) -> bool {
    cand.ts > prev.ts + DEBOUNCE_MS
}

/// Whether `cand` is let through, given the last event let through before it.
/// An event of kind `other` never passes; any other event passes unless it
/// repeats the kind and path of the previous one inside the window.
pub open spec fn accepts(prev: Option<EventView>, cand: EventView) -> bool {
    cand.kind != FsKind::Other && match prev {
        None => true,
        Some(p) => cand.kind != p.kind || cand.path != p.path || is_stale(p, cand),
    }
}

/// What the pipeline does with one classified notification.
pub enum Dispatch {
    /// Hand this event to the consumer.
    Deliver(FsEvent),
    /// Hand this error to the consumer.
    Fail(WatchError),
    /// Hand nothing to the consumer.
    Suppress,
}

/// Remembers the last event let through and suppresses repetitions of it.
pub struct DedupGate {
    previous: Option<FsEvent>,
}

impl View for DedupGate {
    type V = Option<EventView>;

    closed spec fn view(&self) -> Option<EventView> {
        match self.previous {
            None => None,
            Some(e) => Some(e@),
        }
    }
}

impl DedupGate {
    /// A filter that has let nothing through yet.
    pub fn new() -> (r: DedupGate)
        ensures
            r@ is None,
    {
        DedupGate { previous: None }
    }

    /// The last event let through, if any.
    pub fn previous(&self) -> (r: Option<&FsEvent>)
        ensures
            r is None <==> self@ is None,
            r is Some ==> self@ == Some(r->Some_0@),
    {
        match &self.previous {
            None => None,
            Some(e) => Some(e),
        }
    }

    /// Decides whether `cand` is let through; if so it becomes the event that
    /// later candidates are compared with, otherwise nothing changes.
    pub fn accept(&mut self, cand: &FsEvent) -> (r: bool)
        ensures
            r == accepts(old(self)@, cand@),
            r ==> final(self)@ == Some(cand@),
            !r ==> final(self)@ == old(self)@,
    {
        let pass = match &self.previous {
            None => cand.kind != FsKind::Other,
            Some(p) => {
                cand.kind != FsKind::Other && (cand.kind != p.kind || cand.path != p.path
                    || (cand.ts >= DEBOUNCE_MS && cand.ts - DEBOUNCE_MS > p.ts))
            },
        };
        if pass {
            self.previous = Some(cand.clone());
        }
        pass
    }

    /// Routes one classified notification: an error always goes to the
    /// consumer and leaves the state alone; an event goes to the consumer
    /// exactly when it is let through.
    pub fn dispatch(&mut self, classified: Result<FsEvent, WatchError>) -> (r: Dispatch)
        ensures
            match classified {
                Err(e) => r == Dispatch::Fail(e) && final(self)@ == old(self)@,
                Ok(ev) => if accepts(old(self)@, ev@) {
                    r is Deliver && r->Deliver_0@ == ev@ && final(self)@ == Some(ev@)
                } else {
                    r is Suppress && final(self)@ == old(self)@
                },
            },
    {
        match classified {
            Err(e) => Dispatch::Fail(e),
            Ok(ev) => {
                if self.accept(&ev) {
                    Dispatch::Deliver(ev)
                } else {
                    Dispatch::Suppress
                }
            },
        }
    }
}

} // verus!
