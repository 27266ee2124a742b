//! The session registry as the core sees it: a table from session keys to
//! user identifiers, kept by an outside store that expires entries by itself.
//!
//! The store is reached by the caller. This module fixes what is written to
//! it and read from it, and gives the table a mathematical model over which
//! the effects of login and logout are stated.

use vstd::prelude::*;
use crate::ident::{uuid_parsed, uuid_text, uuid_to_string};

verus! {

/// The registry's contents: session key to user identifier, both as text.
pub type Registry = Map<Seq<char>, Seq<char>>;

/// Whether `key` is a text under which the session `session_id` is filed.
pub open spec fn is_session_key(key: Seq<char>, session_id: u128) -> bool {
    uuid_parsed(key) == Some(session_id)
}

/// The registry after `put(key, value)`: an overwrite that leaves the other
/// entries alone.
pub open spec fn registry_put(registry: Registry, key: Seq<char>, value: Seq<char>) -> Registry {
    registry.insert(key, value)
}

/// The registry after deleting a batch of keys. Keys that are absent are
/// passed over.
pub open spec fn registry_delete(registry: Registry, keys: Seq<Seq<char>>) -> Registry {
    registry.remove_keys(keys.to_set())
}

/// What a read of `key` finds.
pub open spec fn registry_get(registry: Registry, key: Seq<char>) -> Option<Seq<char>> {
    if registry.contains_key(key) {
        Some(registry[key])
    } else {
        None
    }
}

/// One entry to write: a session key, the user it belongs to, and the
/// seconds after which the store drops it.
#[derive(Debug)]
pub struct SessionEntry {
    pub key: String,
    pub value: String,
    pub ttl_seconds: u64,
}

/// The reply of the store to a read of one session key.
#[derive(Debug)]
pub enum SessionLookup {
    /// No connection to the store could be had.
    Unreachable,
    /// The read itself failed.
    Failed,
    /// The store holds nothing under the key, be it expired or deleted.
    Absent,
    /// The store holds this text under the key.
    Found(String),
}

/// The reply of the store to a write or a delete.
#[derive(Debug, Clone, Copy, PartialEq, Eq, Structural)]
pub enum RegistryWrite {
    /// No connection to the store could be had.
    Unreachable,
    /// The store refused the operation.
    Failed,
    /// The operation took effect.
    Done,
}

/// The reply that a store with the contents `registry` gives to a read of
/// `key` when nothing fails.
pub open spec fn lookup_in(registry: Registry, key: Seq<char>, reply: SessionLookup) -> bool {
    match registry_get(registry, key) {
        Some(value) => reply matches SessionLookup::Found(text) && text@ == value,
        None => reply == SessionLookup::Absent,
    }
}

/// The key under which a session is filed: its identifier as text.
pub fn session_key(session_id: u128) -> (key: String)
    ensures
        key@ == uuid_text(session_id),
        is_session_key(key@, session_id),
{
    uuid_to_string(session_id)
}

/// The entry that registers a session for `ttl_seconds`: filed under the
/// session's key, holding the user's identifier.
pub fn session_entry(session_id: u128, user_id: u128, ttl_seconds: u64) -> (entry: SessionEntry)
    ensures
        entry_for(entry, session_id, user_id, ttl_seconds),
{
    SessionEntry {
        key: uuid_to_string(session_id),
        value: uuid_to_string(user_id),
        ttl_seconds,
    }
}

/// Whether `entry` registers the session `session_id` of the user `user_id`
/// for `ttl_seconds`.
pub open spec fn entry_for(entry: SessionEntry, session_id: u128, user_id: u128, ttl_seconds: u64) -> bool {
    &&& entry.key@ == uuid_text(session_id)
    &&& is_session_key(entry.key@, session_id)
    &&& entry.value@ == uuid_text(user_id)
    &&& uuid_parsed(entry.value@) == Some(user_id)
    &&& entry.ttl_seconds == ttl_seconds
}

} // verus!
