//! User accounts as the credential store holds them, and their public form.

use vstd::prelude::*;
use crate::amount::Amount;
use crate::role::UserRole;

verus! {

/// A user account. Times are microseconds since the epoch.
#[derive(Debug)]
pub struct User {
    pub id: u128,
    pub first_name: String,
    pub last_name: String,
    pub middle_name: Option<String>,
    pub age: i32,
    pub email: String,
    /// The salted digest of the password, never the password.
    pub password: String,
    pub biography: Option<String>,
    pub file: String,
    pub verified: bool,
    pub role: UserRole,
    pub balance: Amount,
    pub rating: Amount,
    pub created_at: i64,
    pub updated_at: i64,
}

/// A user account as it is shown to callers: everything but the digest.
#[derive(Debug)]
pub struct UserResponse {
    pub id: u128,
    pub first_name: String,
    pub last_name: String,
    pub middle_name: Option<String>,
    pub age: i32,
    pub email: String,
    pub biography: Option<String>,
    pub file: String,
    pub verified: bool,
    pub role: UserRole,
    pub balance: Amount,
    pub rating: Amount,
    pub created_at: i64,
    pub updated_at: i64,
}

/// The public form of an account.
pub open spec fn response_of(user: User) -> UserResponse {
    UserResponse {
        id: user.id,
        first_name: user.first_name,
        last_name: user.last_name,
        middle_name: user.middle_name,
        age: user.age,
        email: user.email,
        biography: user.biography,
        file: user.file,
        verified: user.verified,
        role: user.role,
        balance: user.balance,
        rating: user.rating,
        created_at: user.created_at,
        updated_at: user.updated_at,
    }
}

/// Copies an optional text.
pub fn copy_text(text: &Option<String>) -> (copy: Option<String>)
    ensures
        copy == *text,
{
    match text {
        Some(inner) => Some(inner.clone()),
        None => None,
    }
}

/// Copies an account, field by field.
pub fn copy_user(user: &User) -> (copy: User)
    ensures
        copy == *user,
{
    User {
        id: user.id,
        first_name: user.first_name.clone(),
        last_name: user.last_name.clone(),
        middle_name: copy_text(&user.middle_name),
        age: user.age,
        email: user.email.clone(),
        password: user.password.clone(),
        biography: copy_text(&user.biography),
        file: user.file.clone(),
        verified: user.verified,
        role: user.role,
        balance: user.balance,
        rating: user.rating,
        created_at: user.created_at,
        updated_at: user.updated_at,
    }
}

impl UserResponse {
    /// The public form of `user`: every field but the password digest.
    pub fn new(user: &User) -> (response: UserResponse)
        ensures
            response == response_of(*user),
    {
        UserResponse {
            id: user.id,
            first_name: user.first_name.clone(),
            last_name: user.last_name.clone(),
            middle_name: copy_text(&user.middle_name),
            age: user.age,
            email: user.email.clone(),
            biography: copy_text(&user.biography),
            file: user.file.clone(),
            verified: user.verified,
            role: user.role,
            balance: user.balance,
            rating: user.rating,
            created_at: user.created_at,
            updated_at: user.updated_at,
        }
    }
}

/// Copies the public form of an account, field by field.
pub fn copy_response(response: &UserResponse) -> (copy: UserResponse)
    ensures
        copy == *response,
{
    UserResponse {
        id: response.id,
        first_name: response.first_name.clone(),
        last_name: response.last_name.clone(),
        middle_name: copy_text(&response.middle_name),
        age: response.age,
        email: response.email.clone(),
        biography: copy_text(&response.biography),
        file: response.file.clone(),
        verified: response.verified,
        role: response.role,
        balance: response.balance,
        rating: response.rating,
        created_at: response.created_at,
        updated_at: response.updated_at,
    }
}

} // verus!
