//! Normalisation and debouncing of filesystem change notifications.
//!
//! Raw notifications of a watching backend are classified into a small, closed
//! vocabulary of change kinds, then passed through a filter that drops noisy
//! repetitions inside a short window before they reach the consumer.

mod classify;
mod dedup;
mod event;
mod laws;
mod notify_types;
mod session;

pub use classify::{added, classified, classify, normalize_kind, normalized_kind, removed, RawEvent, WatchError};
pub use dedup::{accepts, DedupGate, Dispatch, DEBOUNCE_MS};
pub use event::{kind_token, EventView, FsEvent, FsKind};
pub use laws::{
    classification_is_repeatable, creation_is_suffixed_for_directories, other_is_never_delivered,
    rename_is_split, repeats_are_debounced,
};
pub use session::{select_backend, Backend, SessionError, WatchOptions, WatchSession, POLL_INTERVAL_SECS};
