//! Logout: from an authenticated request with a refresh token to the
//! deletion of both sessions and three cleared cookies.

use vstd::prelude::*;
use crate::cookie::{cookie_views, logout_cookie_views, logout_cookies, SessionCookie};
use crate::gate::JWTAuthMiddleware;
use crate::ident::uuid_text;
use crate::registry::{is_session_key, session_key, RegistryWrite};
use crate::response::{failure_kind, failure_text, status_of, ErrorResponse, Failure, STATUS_OK};
use crate::token::{
    key_pem, lemma_verifies_to, rsa_public_pem_ok, verifies_to, verify_jwt_token, TokenDetails,
    TokenError,
};

verus! {

/// Where a logout stands.
#[derive(Debug)]
pub enum LogoutState {
    /// The refresh token holds; both sessions are being deleted.
    AwaitingDelete { refresh_session: u128, access_session: u128 },
    /// Both sessions are gone from the registry.
    LoggedOut,
    /// The logout failed.
    Failed { failure: Failure },
}

/// What the caller is to do for a logout in a given state.
#[derive(Debug)]
pub enum LogoutCommand {
    /// Delete these keys from the registry in one batch.
    Delete { keys: Vec<String> },
    /// Answer with success and set these cookies.
    Respond { status: u16, cookies: Vec<SessionCookie>, data: String, message: String },
    /// Answer with this failure.
    Refuse { status: u16, body: ErrorResponse },
}

/// The state in which a logout begins, given the outcome of verifying the
/// refresh token: a token that holds leads to the deletion of its session
/// and of the access session; one that does not is refused, as a fault of
/// the configuration where the key cannot be decoded.
pub open spec fn logout_begins(outcome: Result<TokenDetails, TokenError>, access_session: u128) -> LogoutState {
    match outcome {
        Ok(details) => LogoutState::AwaitingDelete {
            refresh_session: details.token_uuid,
            access_session,
        },
        Err(TokenError::KeyEncoding) => LogoutState::Failed { failure: Failure::TokenFailure },
        Err(_) => LogoutState::Failed { failure: Failure::InvalidRefreshToken },
    }
}

/// Decides how a logout begins from the outcome of verifying the refresh
/// token.
pub fn begin_logout(outcome: Result<TokenDetails, TokenError>, access_session: u128) -> (state:
    LogoutState)
    ensures
        state == logout_begins(outcome, access_session),
{
    match outcome {
        Ok(details) => LogoutState::AwaitingDelete {
            refresh_session: details.token_uuid,
            access_session,
        },
        Err(TokenError::KeyEncoding) => LogoutState::Failed { failure: Failure::TokenFailure },
        Err(_) => LogoutState::Failed { failure: Failure::InvalidRefreshToken },
    }
}

/// Begins the logout of an authenticated principal. A request without a
/// refresh token is refused as unauthenticated; one with a token has it
/// verified with the refresh public key, and `begin_logout` says what follows
/// each outcome.
///
/// The logout fails for the configuration exactly where there is a token and
/// the key cannot be decoded. Under a key that can, it goes on to delete the
/// token's session and the principal's, or fails for the token, as the
/// signature library decides.
pub fn logout_user_handler(
    refresh_token: Option<&str>,
    principal: &JWTAuthMiddleware,
    refresh_public_key: String,
) -> (state: LogoutState)
    ensures
        (state == (LogoutState::Failed { failure: Failure::MissingRefreshToken }))
            <==> refresh_token.is_none(),
        (state == (LogoutState::Failed { failure: Failure::TokenFailure })) <==> (
        refresh_token.is_some() && key_pem(refresh_public_key@).is_none()),
        refresh_token.is_some() ==> exists|outcome: Result<TokenDetails, TokenError>|
            verifies_to(outcome, refresh_public_key@, refresh_token.unwrap()@) && state == logout_begins(
                outcome,
                principal.accesses_token_uuid,
            ),
        refresh_token.is_some() && key_pem(refresh_public_key@).is_some() && !rsa_public_pem_ok(
            key_pem(refresh_public_key@).unwrap(),
        ) ==> state == (LogoutState::Failed { failure: Failure::InvalidRefreshToken }),
        refresh_token.is_some() && key_pem(refresh_public_key@).is_some() ==> state
            is AwaitingDelete || state == (LogoutState::Failed {
            failure: Failure::InvalidRefreshToken,
        }),
        state matches LogoutState::AwaitingDelete { refresh_session, access_session }
            ==> access_session == principal.accesses_token_uuid,
        !(state is LoggedOut),
{
    match refresh_token {
        None => LogoutState::Failed { failure: Failure::MissingRefreshToken },
        Some(token) => {
            let outcome = verify_jwt_token(refresh_public_key, token);
            let state = begin_logout(outcome, principal.accesses_token_uuid);
            proof {
                lemma_verifies_to(outcome, refresh_public_key@, token@);
                assert(verifies_to(outcome, refresh_public_key@, refresh_token.unwrap()@) && state == logout_begins(
                    outcome,
                    principal.accesses_token_uuid,
                ));
            }
            state
        },
    }
}

/// The state that follows `state` on the registry's reply to the delete.
/// Deleting a key that is absent is no failure: the registry reports `Done`
/// for it like for any other.
pub open spec fn logout_next(state: LogoutState, reply: RegistryWrite) -> LogoutState {
    match state {
        LogoutState::AwaitingDelete { refresh_session, access_session } => match reply {
            RegistryWrite::Done => LogoutState::LoggedOut,
            RegistryWrite::Unreachable => LogoutState::Failed {
                failure: Failure::RegistryUnreachable,
            },
            RegistryWrite::Failed => LogoutState::Failed { failure: Failure::RegistryFailure },
        },
        other => other,
    }
}

/// Takes one step of a logout.
pub fn logout_step(state: LogoutState, reply: RegistryWrite) -> (next: LogoutState)
    ensures
        next == logout_next(state, reply),
{
    match state {
        LogoutState::AwaitingDelete { refresh_session, access_session } => match reply {
            RegistryWrite::Done => LogoutState::LoggedOut,
            RegistryWrite::Unreachable => LogoutState::Failed {
                failure: Failure::RegistryUnreachable,
            },
            RegistryWrite::Failed => LogoutState::Failed { failure: Failure::RegistryFailure },
        },
        other => other,
    }
}

/// Whether `command` is what a logout in `state` asks of the caller: to
/// delete the keys of the refresh session and of the access session, in that
/// order, to answer 200 with the three cleared cookies, or to answer with
/// the failure.
pub open spec fn logout_asks(state: LogoutState, command: LogoutCommand) -> bool {
    match state {
        LogoutState::AwaitingDelete { refresh_session, access_session } => {
            &&& command matches LogoutCommand::Delete { keys }
            &&& keys@.len() == 2
            &&& keys@[0]@ == uuid_text(refresh_session)
            &&& is_session_key(keys@[0]@, refresh_session)
            &&& keys@[1]@ == uuid_text(access_session)
            &&& is_session_key(keys@[1]@, access_session)
        },
        LogoutState::LoggedOut => command matches LogoutCommand::Respond {
            status,
            cookies,
            data,
            message,
        } && status == STATUS_OK && data@ == "success"@ && message@ == "Logout successful"@
            && cookie_views(cookies@) == logout_cookie_views(),
        LogoutState::Failed { failure } => command matches LogoutCommand::Refuse { status, body }
            && status == status_of(failure_kind(failure)) && body.message@ == failure_text(failure)
            && body.error@ == Seq::<char>::empty(),
    }
}

/// Says what the caller is to do for a logout in `state`.
pub fn logout_command(state: &LogoutState) -> (command: LogoutCommand)
    ensures
        logout_asks(*state, command),
{
    match state {
        LogoutState::AwaitingDelete { refresh_session, access_session } => {
            let mut keys: Vec<String> = Vec::new();
            keys.push(session_key(*refresh_session));
            keys.push(session_key(*access_session));
            LogoutCommand::Delete { keys }
        },
        LogoutState::LoggedOut => LogoutCommand::Respond {
            status: STATUS_OK,
            cookies: logout_cookies(),
            data: "success".to_owned(),
            message: "Logout successful".to_owned(),
        },
        LogoutState::Failed { failure } => LogoutCommand::Refuse {
            status: failure.kind().status_code(),
            body: failure.response(),
        },
    }
}

} // verus!
