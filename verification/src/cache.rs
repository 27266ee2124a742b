//! Read-through caching: serve a value from the cache where it holds one
//! that can be read, else fetch it and leave a copy in the cache.
//!
//! The cache and the source of the values are reached by the caller, who
//! also encodes and decodes them; the order of the steps and what each
//! reply leads to are decided here.

use vstd::prelude::*;

verus! {

/// Where a value that is served came from.
#[derive(Debug, Clone, Copy, PartialEq, Eq, Structural)]
pub enum Source {
    Cache,
    Fetch,
}

/// Where a cached read stands.
#[derive(Debug, Clone, Copy, PartialEq, Eq, Structural)]
pub enum CacheState {
    /// A connection to the cache is being opened.
    Connecting,
    /// The key is being read from the cache.
    Reading,
    /// The value is being fetched from its source.
    Fetching,
    /// The fetched value is being written to the cache.
    Storing,
    /// The value is served.
    Served { source: Source },
    /// The read failed.
    Failed,
}

/// What a cached read is told between two steps.
#[derive(Debug, Clone, Copy, PartialEq, Eq, Structural)]
pub enum CacheEvent {
    /// Whether the connection was opened.
    Connected { ok: bool },
    /// Whether the cache held a text under the key that decodes to a value.
    Read { usable: bool },
    /// Whether the source gave a value.
    Fetched { ok: bool },
    /// Whether the value was encoded and written to the cache.
    Stored { ok: bool },
}

/// The state that follows `state` on `event`. A cache that holds nothing
/// usable is no failure, nor is one that does not take the copy: only a
/// failed connection and a failed fetch fail the read. An event that the
/// state does not wait for leaves it as it is.
pub open spec fn cache_next(state: CacheState, event: CacheEvent) -> CacheState {
    match (state, event) {
        (CacheState::Connecting, CacheEvent::Connected { ok }) => if ok {
            CacheState::Reading
        } else {
            CacheState::Failed
        },
        (CacheState::Reading, CacheEvent::Read { usable }) => if usable {
            CacheState::Served { source: Source::Cache }
        } else {
            CacheState::Fetching
        },
        (CacheState::Fetching, CacheEvent::Fetched { ok }) => if ok {
            CacheState::Storing
        } else {
            CacheState::Failed
        },
        (CacheState::Storing, CacheEvent::Stored { ok }) => CacheState::Served {
            source: Source::Fetch,
        },
        (state, _) => state,
    }
}

/// Takes one step of a cached read.
pub fn get_or_set_cache(state: CacheState, event: CacheEvent) -> (next: CacheState)
    ensures
        next == cache_next(state, event),
{
    match (state, event) {
        (CacheState::Connecting, CacheEvent::Connected { ok }) => if ok {
            CacheState::Reading
        } else {
            CacheState::Failed
        },
        (CacheState::Reading, CacheEvent::Read { usable }) => if usable {
            CacheState::Served { source: Source::Cache }
        } else {
            CacheState::Fetching
        },
        (CacheState::Fetching, CacheEvent::Fetched { ok }) => if ok {
            CacheState::Storing
        } else {
            CacheState::Failed
        },
        (CacheState::Storing, CacheEvent::Stored { ok }) => CacheState::Served {
            source: Source::Fetch,
        },
        (state, _) => state,
    }
}

} // verus!
