//! The roles a user account can hold and membership in a route's allowed set.

use vstd::prelude::*;

verus! {

/// Role of a user account.
#[derive(Debug, Clone, Copy, PartialEq, Eq, Structural)]
pub enum UserRole {
    User,
    Author,
    Worker,
    Admin,
    Seller,
}

/// Whether `role` occurs in the allowed set `allowed`.
pub open spec fn role_allowed(allowed: Seq<UserRole>, role: UserRole) -> bool {
    allowed.contains(role)
}

/// Decides whether `role` is a member of `allowed`.
pub fn role_in(allowed: &Vec<UserRole>, role: UserRole) -> (found: bool)
    ensures
        found == role_allowed(allowed@, role),
{
    let mut i: usize = 0;
    while i < allowed.len()
        invariant
            i <= allowed.len(),
            forall|j: int| 0 <= j < i ==> allowed@[j] != role,
        decreases allowed.len() - i,
    {
        if allowed[i] == role {
            return true;
        }
        i += 1;
    }
    false
}

/// The name of each role.
pub open spec fn role_text(role: UserRole) -> Seq<char> {
    match role {
        UserRole::User => "User"@,
        UserRole::Author => "Author"@,
        UserRole::Worker => "Worker"@,
        UserRole::Admin => "Admin"@,
        UserRole::Seller => "Seller"@,
    }
}

impl UserRole {
    /// The name of this role, as it is shown.
    pub fn name(self) -> (text: String)
        ensures
            text@ == role_text(self),
    {
        match self {
            UserRole::User => "User".to_owned(),
            UserRole::Author => "Author".to_owned(),
            UserRole::Worker => "Worker".to_owned(),
            UserRole::Admin => "Admin".to_owned(),
            UserRole::Seller => "Seller".to_owned(),
        }
    }
}

} // verus!
