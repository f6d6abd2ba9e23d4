use vstd::prelude::*;
use crate::classify::{classify, classified, RawEvent, WatchError};
use crate::event::EventView;
use crate::dedup::{accepts, DedupGate, Dispatch};

verus! {

/// Interval between two scans of the polling backend, in seconds.
pub const POLL_INTERVAL_SECS: u64 = 4;

/// The configuration a session is created from.
pub struct WatchOptions {
    /// Scan periodically instead of using the native notification mechanism.
    pub use_polling: bool,
}

impl Default for WatchOptions {
    fn default() -> (r: WatchOptions)
        ensures
            !r.use_polling,
    {
        WatchOptions { use_polling: false }
    }
}

/// The kind of backend that produces raw notifications for a session.
#[derive(Clone, Copy, Debug, PartialEq, Eq, Structural)]
pub enum Backend {
    /// The operating system's own change notifications.
    Native,
    /// Periodic scans, every `POLL_INTERVAL_SECS` seconds.
    Polling,
}

pub open spec fn backend_for(options: WatchOptions) -> Backend {
    if options.use_polling { Backend::Polling } else { Backend::Native }
}

/// Chooses the backend that `options` ask for.
pub fn select_backend(options: &WatchOptions) -> (r: Backend)
    ensures
        r == backend_for(*options),
{
    if options.use_polling {
        Backend::Polling
    } else {
        Backend::Native
    }
}

/// Why a change to the set of watched paths was refused.
#[derive(Clone, Copy, Debug, PartialEq, Eq, Structural)]
pub enum SessionError {
    /// The path is not among the watched ones.
    NotWatched,
}

/// One consumer's watch: the backend it runs on, the debounce state of its
/// notification stream and the paths it currently watches.
pub struct WatchSession {
    backend: Backend,
    gate: DedupGate,
    watched: Vec<String>,
}

/// Whether no path occurs twice in `paths`.
pub open spec fn distinct_paths(paths: Seq<String>) -> bool {
    forall|i: int, j: int|
        0 <= i < paths.len() && 0 <= j < paths.len() && i != j ==> paths[i]@ != paths[j]@
}

impl WatchSession {
    pub closed spec fn backend_spec(&self) -> Backend {
        self.backend
    }

    /// The last event that this session handed to its consumer, if any.
    pub closed spec fn previous(&self) -> Option<EventView> {
        self.gate@
    }

    /// The paths this session watches.
    pub closed spec fn watched_set(&self) -> Set<Seq<char>> {
        Set::new(|p: Seq<char>| exists|i: int| 0 <= i < self.watched@.len() && self.watched@[i]@ == p)
    }

    pub closed spec fn wf(&self) -> bool {
        distinct_paths(self.watched@)
    }

    /// A session on the backend that `options` select, watching nothing yet.
    pub fn new(options: &WatchOptions) -> (r: WatchSession)
        ensures
            r.wf(),
            r.backend_spec() == backend_for(*options),
            r.previous() is None,
            r.watched_set() == Set::<Seq<char>>::empty(),
    {
        let r = WatchSession { backend: select_backend(options), gate: DedupGate::new(), watched: Vec::new() };
        assert(r.watched_set() =~= Set::<Seq<char>>::empty());
        r
    }

    /// The backend this session runs on.
    pub fn backend(&self) -> (r: Backend)
        ensures
            r == self.backend_spec(),
    {
        self.backend
    }

    fn find(&self, path: &String) -> (r: Option<usize>)
        ensures
            r is Some ==> r->Some_0 < self.watched@.len() && self.watched@[r->Some_0 as int]@ == path@,
            r is None ==> !self.watched_set().contains(path@),
    {
        let mut i: usize = 0;
        while i < self.watched.len()
            invariant
                i <= self.watched@.len(),
                forall|k: int| 0 <= k < i ==> self.watched@[k]@ != path@,
            decreases self.watched@.len() - i,
        {
            if self.watched[i] == *path {
                return Some(i);
            }
            i = i + 1;
        }
        None
    }

    /// Whether `path` is among the watched paths.
    pub fn is_watched(&self, path: &String) -> (r: bool)
        ensures
            r == self.watched_set().contains(path@),
    {
        match self.find(path) {
            Some(i) => {
                assert(self.watched@[i as int]@ == path@);
                assert(self.watched_set().contains(path@));
                true
            },
            None => false,
        }
    }

    /// Records that `path` is watched; watching it again changes nothing.
    pub fn add_path(&mut self, path: String)
        requires
            old(self).wf(),
        ensures
            final(self).wf(),
            final(self).watched_set() == old(self).watched_set().insert(path@),
            final(self).backend_spec() == old(self).backend_spec(),
            final(self).previous() == old(self).previous(),
    {
        if self.find(&path).is_none() {
            let ghost before = self.watched@;
            let ghost p = path@;
            self.watched.push(path);
            assert(self.watched@ == before.push(self.watched@[before.len() as int]));
            assert(self.watched_set() =~= old(self).watched_set().insert(p)) by {
                assert(self.watched@[before.len() as int]@ == p);
                assert forall|q: Seq<char>| old(self).watched_set().contains(q) implies
                    self.watched_set().contains(q) by {
                    let i = choose|i: int| 0 <= i < before.len() && before[i]@ == q;
                    assert(self.watched@[i]@ == q);
                }
            }
        } else {
            assert(self.watched_set() =~= old(self).watched_set().insert(path@));
        }
    }

    /// Forgets `path`; refused when it is not watched.
    pub fn remove_path(&mut self, path: &String) -> (r: Result<(), SessionError>)
        requires
            old(self).wf(),
        ensures
            final(self).wf(),
            r is Err <==> !old(self).watched_set().contains(path@),
            r is Err ==> r->Err_0 == SessionError::NotWatched && final(self).watched_set() == old(self).watched_set(),
            r is Ok ==> final(self).watched_set() == old(self).watched_set().remove(path@),
            final(self).backend_spec() == old(self).backend_spec(),
            final(self).previous() == old(self).previous(),
    {
        match self.find(path) {
            None => Err(SessionError::NotWatched),
            Some(i) => {
                let ghost before = self.watched@;
                assert(old(self).watched_set().contains(path@));
                let _gone = self.watched.remove(i);
                assert(self.watched@ == before.remove(i as int));
                assert(self.watched_set() =~= old(self).watched_set().remove(path@)) by {
                    assert forall|q: Seq<char>| self.watched_set().contains(q) implies
                        old(self).watched_set().contains(q) && q != path@ by {
                        let k = choose|k: int| 0 <= k < self.watched@.len() && self.watched@[k]@ == q;
                        if k < i {
                            assert(before[k]@ == q);
                        } else {
                            assert(before[k + 1]@ == q);
                        }
                    }
                    assert forall|q: Seq<char>| old(self).watched_set().contains(q) && q != path@ implies
                        self.watched_set().contains(q) by {
                        let k = choose|k: int| 0 <= k < before.len() && before[k]@ == q;
                        if k < i {
                            assert(self.watched@[k]@ == q);
                        } else {
                            assert(k != i);
                            assert(self.watched@[k - 1]@ == q);
                        }
                    }
                }
                Ok(())
            },
        }
    }

    /// Runs one raw notification through classification and debouncing.
    /// `is_dir` tells whether its first path resolved to a directory
    /// when it arrived, `now` is the capture time in milliseconds.
    pub fn handle(&mut self, raw: Result<RawEvent, notify::Error>, is_dir: bool, now: u128) -> (r: Dispatch)
        requires
            old(self).wf(),
        ensures
            final(self).wf(),
            final(self).watched_set() == old(self).watched_set(),
            final(self).backend_spec() == old(self).backend_spec(),
            match raw {
                Err(e) => r == Dispatch::Fail(WatchError::Backend(e)) && final(self).previous() == old(self).previous(),
                Ok(ev) => if ev.paths@.len() == 0 {
                    r is Fail && r->Fail_0 is NoPath && final(self).previous() == old(self).previous()
                } else if accepts(old(self).previous(), classified(&ev, is_dir, now)) {
                    r is Deliver && r->Deliver_0@ == classified(&ev, is_dir, now)
                        && final(self).previous() == Some(classified(&ev, is_dir, now))
                } else {
                    r is Suppress && final(self).previous() == old(self).previous()
                },
            },
    {
        let c = classify(raw, is_dir, now);
        self.gate.dispatch(c)
    }
}

} // verus!
