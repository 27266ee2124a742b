//! The bodies of requests and the rules that a body must meet.

use vstd::prelude::*;

verus! {

/// Whether `validator` accepts a text as an email address by the HTML5 rules.
pub uninterp spec fn is_email(text: Seq<char>) -> bool;

/// Trusted: `validator::ValidateEmail::validate_email` on a text. The result
/// is the verdict named `is_email`.
#[verifier::external_body]
fn email_valid(text: &str) -> (valid: bool)
    ensures
        valid == is_email(text@),
{
    validator::ValidateEmail::validate_email(&text)
}

/// Shortest and longest name accepted, in characters.
pub const NAME_MIN: usize = 2;

pub const NAME_MAX: usize = 100;

/// Shortest password accepted, in characters.
pub const PASSWORD_MIN: usize = 8;

/// Greatest age accepted.
pub const AGE_MAX: i32 = 150;

/// Whether a text has between `min` and `max` characters.
pub open spec fn length_within(text: Seq<char>, min: int, max: int) -> bool {
    min <= text.len() <= max
}

/// Decides whether a text has between `min` and `max` characters.
pub fn check_length(text: &str, min: usize, max: usize) -> (ok: bool)
    ensures
        ok == length_within(text@, min as int, max as int),
{
    let length: usize = text.unicode_len();
    min <= length && length <= max
}

/// Body of a registration.
#[derive(Debug)]
pub struct RegisterUserSchema {
    pub first_name: String,
    pub last_name: String,
    pub middle_name: Option<String>,
    pub age: i32,
    pub email: String,
    pub password: String,
}

/// Body of a login.
#[derive(Debug)]
pub struct LoginUserSchema {
    pub email: String,
    pub password: String,
}

/// Body of a genre creation.
#[derive(Debug)]
pub struct GenresSchema {
    pub name: String,
    pub description: Option<String>,
}

impl RegisterUserSchema {
    /// A registration is valid when the names have 2 to 100 characters (the
    /// middle name only if given), the age is 0 to 150, the email is an
    /// address and the password has at least 8 characters.
    pub open spec fn valid(&self) -> bool {
        &&& length_within(self.first_name@, NAME_MIN as int, NAME_MAX as int)
        &&& length_within(self.last_name@, NAME_MIN as int, NAME_MAX as int)
        &&& (self.middle_name.is_some() ==> length_within(
            self.middle_name.unwrap()@,
            NAME_MIN as int,
            NAME_MAX as int,
        ))
        &&& 0 <= self.age <= AGE_MAX
        &&& is_email(self.email@)
        &&& self.password@.len() >= PASSWORD_MIN
    }

    /// Decides whether the registration is valid.
    pub fn validate(&self) -> (ok: bool)
        ensures
            ok == self.valid(),
    {
        let middle_ok = match &self.middle_name {
            Some(name) => check_length(name.as_str(), NAME_MIN, NAME_MAX),
            None => true,
        };
        check_length(self.first_name.as_str(), NAME_MIN, NAME_MAX) && check_length(
            self.last_name.as_str(),
            NAME_MIN,
            NAME_MAX,
        ) && middle_ok && 0 <= self.age && self.age <= AGE_MAX && email_valid(self.email.as_str())
            && self.password.as_str().unicode_len() >= PASSWORD_MIN
    }
}

impl LoginUserSchema {
    /// A login is valid when the email is an address and the password has at
    /// least 8 characters.
    pub open spec fn valid(&self) -> bool {
        &&& is_email(self.email@)
        &&& self.password@.len() >= PASSWORD_MIN
    }

    /// Decides whether the login is valid.
    pub fn validate(&self) -> (ok: bool)
        ensures
            ok == self.valid(),
    {
        email_valid(self.email.as_str()) && self.password.as_str().unicode_len() >= PASSWORD_MIN
    }
}

impl GenresSchema {
    /// A genre is valid when it has a name.
    pub open spec fn valid(&self) -> bool {
        self.name@.len() >= 1
    }

    /// Decides whether the genre is valid.
    pub fn validate(&self) -> (ok: bool)
        ensures
            ok == self.valid(),
    {
        self.name.as_str().unicode_len() >= 1
    }
}

} // verus!
