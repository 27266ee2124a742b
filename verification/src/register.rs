//! Registration: from a body with a password to a stored account that holds
//! the password's digest.

use vstd::prelude::*;
use crate::password::{hash_password, password_verifies, MAX_PASSWORD_CHARS};
use crate::response::{
    failure_kind, failure_text, status_of, ErrorResponse, Failure, STATUS_CREATED,
};
use crate::schema::RegisterUserSchema;
use crate::store::{EmailCheck, InsertReply};
use crate::user::{copy_response, copy_text, response_of, UserResponse};

verus! {

/// The record of a new account as it is handed to the credential store: the
/// fields of the body, with the digest in place of the password.
#[derive(Debug)]
pub struct NewUser {
    pub first_name: String,
    pub last_name: String,
    pub middle_name: Option<String>,
    pub age: i32,
    pub email: String,
    /// The salted digest of the password.
    pub password: String,
}

/// Where a registration stands.
#[derive(Debug)]
pub enum RegisterState {
    /// The body is valid; the store is being asked whether the email is taken.
    AwaitingEmailCheck { body: RegisterUserSchema },
    /// The password is hashed; the account is being stored.
    AwaitingInsert { record: NewUser },
    /// The account is stored.
    Registered { user: UserResponse },
    /// The registration failed.
    Failed { failure: Failure },
}

/// What a registration is told between two steps.
#[derive(Debug)]
pub enum RegisterEvent {
    /// The store's reply to the question whether the email is taken.
    Email(EmailCheck),
    /// The store's reply to the insertion.
    Inserted(InsertReply),
}

/// What the caller is to do for a registration in a given state.
#[derive(Debug)]
pub enum RegisterCommand {
    /// Ask the credential store whether an account has this email.
    CheckEmail { email: String },
    /// Store this record as a new account.
    Insert { record: NewUser },
    /// Answer that the account was created.
    Respond { status: u16, data: UserResponse, message: String },
    /// Answer with this failure.
    Refuse { status: u16, body: ErrorResponse },
}

/// Whether `record` is the record of `body`: the same fields, and a digest
/// that verifies for the body's password.
pub open spec fn record_of(record: NewUser, body: RegisterUserSchema) -> bool {
    &&& record.first_name == body.first_name
    &&& record.last_name == body.last_name
    &&& record.middle_name == body.middle_name
    &&& record.age == body.age
    &&& record.email == body.email
    &&& password_verifies(body.password@, record.password@)
}

/// Whether `next` may follow `state` on `event`. Every step is determined
/// but the hashing of the password, which draws a random salt: there `next`
/// waits for the insertion of the body's record, whose digest verifies for
/// the password. Only with a password of more than `MAX_PASSWORD_CHARS`
/// characters may the hashing fail, and the registration with it.
pub open spec fn register_steps(state: RegisterState, event: RegisterEvent, next: RegisterState) -> bool {
    match (state, event) {
        (RegisterState::AwaitingEmailCheck { body }, RegisterEvent::Email(reply)) => match reply {
            EmailCheck::Failed => next == (RegisterState::Failed { failure: Failure::StoreFailure }),
            EmailCheck::Taken => next == (RegisterState::Failed { failure: Failure::EmailTaken }),
            EmailCheck::Free => match next {
                RegisterState::AwaitingInsert { record } => record_of(record, body),
                RegisterState::Failed { failure } => failure == Failure::HashingFailure
                    && body.password@.len() > MAX_PASSWORD_CHARS,
                _ => false,
            },
        },
        (RegisterState::AwaitingInsert { record }, RegisterEvent::Inserted(reply)) => match reply {
            InsertReply::Failed => next == (RegisterState::Failed { failure: Failure::InsertFailure }),
            InsertReply::Inserted(user) => next == (RegisterState::Registered {
                user: response_of(user),
            }),
        },
        (state, _) => next == state,
    }
}

/// Begins a registration: a body that breaks the rules of its schema fails
/// as invalid input, any other waits for the email to be checked.
pub fn register_user_handler(body: RegisterUserSchema) -> (state: RegisterState)
    ensures
        !body.valid() ==> state == (RegisterState::Failed { failure: Failure::InvalidInput }),
        body.valid() ==> state == (RegisterState::AwaitingEmailCheck { body }),
{
    if !body.validate() {
        return RegisterState::Failed { failure: Failure::InvalidInput };
    }
    RegisterState::AwaitingEmailCheck { body }
}

/// Takes one step of a registration.
pub fn register_step(state: RegisterState, event: RegisterEvent) -> (next: RegisterState)
    ensures
        register_steps(state, event, next),
{
    match (state, event) {
        (RegisterState::AwaitingEmailCheck { body }, RegisterEvent::Email(reply)) => match reply {
            EmailCheck::Failed => RegisterState::Failed { failure: Failure::StoreFailure },
            EmailCheck::Taken => RegisterState::Failed { failure: Failure::EmailTaken },
            EmailCheck::Free => match hash_password(body.password.as_str()) {
                Ok(digest) => RegisterState::AwaitingInsert {
                    record: NewUser {
                        first_name: body.first_name,
                        last_name: body.last_name,
                        middle_name: body.middle_name,
                        age: body.age,
                        email: body.email,
                        password: digest,
                    },
                },
                Err(_) => RegisterState::Failed { failure: Failure::HashingFailure },
            },
        },
        (RegisterState::AwaitingInsert { record }, RegisterEvent::Inserted(reply)) => match reply {
            InsertReply::Failed => RegisterState::Failed { failure: Failure::InsertFailure },
            InsertReply::Inserted(user) => RegisterState::Registered { user: UserResponse::new(&user) },
        },
        (state, _) => state,
    }
}

/// Whether `command` is what a registration in `state` asks of the caller:
/// to check the body's email, to store the record, to answer 201 with the
/// account's public form, or to answer with the failure.
pub open spec fn register_asks(state: RegisterState, command: RegisterCommand) -> bool {
    match state {
        RegisterState::AwaitingEmailCheck { body } => command matches RegisterCommand::CheckEmail {
            email,
        } && email == body.email,
        RegisterState::AwaitingInsert { record } => command matches RegisterCommand::Insert {
            record: wanted,
        } && wanted == record,
        RegisterState::Registered { user } => command matches RegisterCommand::Respond {
            status,
            data,
            message,
        } && status == STATUS_CREATED && data == user && message@ == "Registration successful"@,
        RegisterState::Failed { failure } => command matches RegisterCommand::Refuse {
            status,
            body,
        } && status == status_of(failure_kind(failure)) && body.message@ == failure_text(failure)
            && body.error@ == Seq::<char>::empty(),
    }
}

/// Says what the caller is to do for a registration in `state`.
pub fn register_command(state: &RegisterState) -> (command: RegisterCommand)
    ensures
        register_asks(*state, command),
{
    match state {
        RegisterState::AwaitingEmailCheck { body } => RegisterCommand::CheckEmail {
            email: body.email.clone(),
        },
        RegisterState::AwaitingInsert { record } => RegisterCommand::Insert {
            record: NewUser {
                first_name: record.first_name.clone(),
                last_name: record.last_name.clone(),
                middle_name: copy_text(&record.middle_name),
                age: record.age,
                email: record.email.clone(),
                password: record.password.clone(),
            },
        },
        RegisterState::Registered { user } => RegisterCommand::Respond {
            status: STATUS_CREATED,
            data: copy_response(user),
            message: "Registration successful".to_owned(),
        },
        RegisterState::Failed { failure } => RegisterCommand::Refuse {
            status: failure.kind().status_code(),
            body: failure.response(),
        },
    }
}

} // verus!
