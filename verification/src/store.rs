//! The credential store as the core sees it: the accounts, found by email or
//! by identifier. The store itself is reached by the caller; this module
//! names its replies and gives its contents a mathematical model.

use vstd::prelude::*;
use crate::user::User;

verus! {

/// The store's contents: the accounts by email, which is unique.
pub type Accounts = Map<Seq<char>, User>;

/// The reply of the store to a search for one account.
#[derive(Debug)]
pub enum UserLookup {
    /// The store failed.
    Failed,
    /// The store holds no such account.
    Absent,
    /// The store holds this account.
    Found(User),
}

/// The reply of the store to the question whether an email is taken.
#[derive(Debug, Clone, Copy, PartialEq, Eq, Structural)]
pub enum EmailCheck {
    /// The store failed.
    Failed,
    /// No account has the email.
    Free,
    /// An account has the email.
    Taken,
}

/// The reply of the store to the insertion of a new account.
#[derive(Debug)]
pub enum InsertReply {
    /// The store failed or refused the record.
    Failed,
    /// The store holds the account as returned.
    Inserted(User),
}

/// The accounts after one more was stored.
pub open spec fn accounts_with(accounts: Accounts, user: User) -> Accounts {
    accounts.insert(user.email@, user)
}

/// The reply that a store with the contents `accounts` gives to a search by
/// email when nothing fails.
pub open spec fn found_by_email(accounts: Accounts, email: Seq<char>) -> UserLookup {
    if accounts.contains_key(email) {
        UserLookup::Found(accounts[email])
    } else {
        UserLookup::Absent
    }
}

/// The reply that a store with the contents `accounts` gives to a search by
/// identifier when nothing fails: an account with that identifier if there is
/// one, else `Absent`.
pub open spec fn found_by_id(accounts: Accounts, user_id: u128, reply: UserLookup) -> bool {
    match reply {
        UserLookup::Found(user) => user.id == user_id && accounts.contains_value(user),
        UserLookup::Absent => forall|user: User| #[trigger]
            accounts.contains_value(user) ==> user.id != user_id,
        UserLookup::Failed => false,
    }
}

} // verus!
