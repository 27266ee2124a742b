//! Login: from a body with credentials to two registered tokens and three
//! cookies.
//!
//! The flow waits twice on the outside: for the credential store to find the
//! account, and for the registry to take each of the two sessions. Between
//! those waits it decides here; the caller performs each command and hands
//! the reply back as an event.

use vstd::prelude::*;
use crate::cookie::{
    cookie_age, cookie_views, login_cookie_views, login_cookies, max_age_of, SessionCookie,
};
use crate::password::{password_verifies, verify_password};
use crate::registry::{entry_for, session_entry, RegistryWrite, SessionEntry};
use crate::response::{failure_kind, failure_text, status_of, ErrorResponse, Failure, STATUS_OK};
use crate::schema::LoginUserSchema;
use crate::settings::Settings;
use crate::store::UserLookup;
use crate::token::{
    generate_jwt_token, key_pem, minted, rsa_private_pem_ok, TokenDetails, TokenError,
};
use crate::user::User;

verus! {

/// The two tokens of a login, with the session each belongs to and the
/// seconds each lives.
#[derive(Debug)]
pub struct IssuedTokens {
    pub user_id: u128,
    pub access_token: String,
    pub access_session: u128,
    pub access_ttl: u64,
    pub refresh_token: String,
    pub refresh_session: u128,
    pub refresh_ttl: u64,
}

/// Where a login stands.
#[derive(Debug)]
pub enum LoginState {
    /// The body is valid; the account is being looked up by email.
    AwaitingUser { email: String, password: String },
    /// The tokens are minted; the access session is being registered.
    AwaitingAccessWrite { issued: IssuedTokens },
    /// The access session is registered; the refresh session is being
    /// registered.
    AwaitingRefreshWrite { issued: IssuedTokens },
    /// Both sessions are registered.
    LoggedIn { issued: IssuedTokens },
    /// The login failed.
    Failed { failure: Failure },
}

/// What a login is told between two steps.
#[derive(Debug)]
pub enum LoginEvent {
    /// The credential store's reply to the search by email.
    Account(UserLookup),
    /// The registry's reply to the write of a session.
    Written(RegistryWrite),
}

/// What the caller is to do for a login in a given state.
#[derive(Debug)]
pub enum LoginCommand {
    /// Search the credential store for the account with this email.
    FindUser { email: String },
    /// Write this entry to the registry.
    Register { entry: SessionEntry },
    /// Answer with success and set these cookies.
    Respond { status: u16, cookies: Vec<SessionCookie>, data: String, message: String },
    /// Answer with this failure.
    Refuse { status: u16, body: ErrorResponse },
}

/// Whether the store's reply and the password of the body make a login: the
/// account must exist and the password must verify against its digest. A
/// missing account and a wrong password are told apart by nothing.
pub open spec fn credentials_hold(reply: UserLookup, password: Seq<char>) -> Result<User, Failure> {
    match reply {
        UserLookup::Failed => Err(Failure::StoreFailure),
        UserLookup::Absent => Err(Failure::WrongCredentials),
        UserLookup::Found(user) => if password_verifies(password, user.password@) {
            Ok(user)
        } else {
            Err(Failure::WrongCredentials)
        },
    }
}

/// Checks the password of a login against the account that the store found.
pub fn check_credentials(reply: UserLookup, password: &str) -> (result: Result<User, Failure>)
    ensures
        result == credentials_hold(reply, password@),
{
    match reply {
        UserLookup::Failed => Err(Failure::StoreFailure),
        UserLookup::Absent => Err(Failure::WrongCredentials),
        UserLookup::Found(user) => if verify_password(password, user.password.as_str()) {
            Ok(user)
        } else {
            Err(Failure::WrongCredentials)
        },
    }
}

/// What a login makes of the outcome of minting: the details as they are,
/// and every failure of minting a `TokenFailure`.
pub open spec fn token_failure(outcome: Result<TokenDetails, TokenError>) -> Result<
    TokenDetails,
    Failure,
> {
    match outcome {
        Ok(details) => Ok(details),
        Err(_) => Err(Failure::TokenFailure),
    }
}

/// Mints one token for a user that lives `max_age` seconds, signed with
/// `private_key`. The result is what minting gives for some reading of the
/// clock and some session identifier, with every failure of minting turned
/// into a `TokenFailure`.
pub fn generate_token(user_id: u128, max_age: i64, private_key: String) -> (result: Result<
    TokenDetails,
    Failure,
>)
    ensures
        exists|outcome: Result<TokenDetails, TokenError>, session_id: u128, now: int|
            i64::MIN <= now <= i64::MAX && minted(
                outcome,
                user_id,
                session_id,
                now,
                max_age as int,
                private_key@,
            ) && result == token_failure(outcome),
        result.is_ok() ==> {
            &&& result.unwrap().user_id == user_id
            &&& result.unwrap().token.is_some()
            &&& key_pem(private_key@).is_some()
            &&& rsa_private_pem_ok(key_pem(private_key@).unwrap())
        },
        result.is_err() ==> result.unwrap_err() == Failure::TokenFailure,
{
    let outcome = generate_jwt_token(user_id, max_age, private_key);
    let result = match outcome {
        Ok(details) => Ok(details),
        Err(_) => Err(Failure::TokenFailure),
    };
    proof {
        let (session_id, now) = choose|session_id: u128, now: int|
            i64::MIN <= now <= i64::MAX && minted(
                outcome,
                user_id,
                session_id,
                now,
                max_age as int,
                private_key@,
            );
        assert(i64::MIN <= now <= i64::MAX && minted(
            outcome,
            user_id,
            session_id,
            now,
            max_age as int,
            private_key@,
        ) && result == token_failure(outcome));
    }
    result
}

/// Whether the configuration can issue tokens: both lifetimes are positive
/// and fit, and both private keys are RSA keys.
pub open spec fn can_issue(settings: Settings) -> bool {
    &&& settings.access_lifetime().is_some()
    &&& settings.refresh_lifetime().is_some()
    &&& key_pem(settings.access_token_private_key@).is_some()
    &&& rsa_private_pem_ok(key_pem(settings.access_token_private_key@).unwrap())
    &&& key_pem(settings.refresh_token_private_key@).is_some()
    &&& rsa_private_pem_ok(key_pem(settings.refresh_token_private_key@).unwrap())
}

/// Whether `issued` is a pair of tokens for `user_id` under the lifetimes of
/// the configuration.
pub open spec fn issued_under(issued: IssuedTokens, user_id: u128, settings: Settings) -> bool {
    &&& issued.user_id == user_id
    &&& settings.access_lifetime() == Some(issued.access_ttl as int)
    &&& settings.refresh_lifetime() == Some(issued.refresh_ttl as int)
}

/// The pair that two minted tokens make: the access token with its session
/// and lifetime, the refresh token with its own. A failed minting fails the
/// pair with the same failure, the access token's first; details without a
/// token are a `TokenFailure`.
pub open spec fn paired(
    user_id: u128,
    access: Result<TokenDetails, Failure>,
    refresh: Result<TokenDetails, Failure>,
    access_ttl: u64,
    refresh_ttl: u64,
) -> Result<IssuedTokens, Failure> {
    match access {
        Err(failure) => Err(failure),
        Ok(access_details) => match refresh {
            Err(failure) => Err(failure),
            Ok(refresh_details) => match (access_details.token, refresh_details.token) {
                (Some(access_token), Some(refresh_token)) => Ok(
                    IssuedTokens {
                        user_id,
                        access_token,
                        access_session: access_details.token_uuid,
                        access_ttl,
                        refresh_token,
                        refresh_session: refresh_details.token_uuid,
                        refresh_ttl,
                    },
                ),
                _ => Err(Failure::TokenFailure),
            },
        },
    }
}

/// Pairs the two minted tokens of a login.
pub fn pair_tokens(
    user_id: u128,
    access: Result<TokenDetails, Failure>,
    refresh: Result<TokenDetails, Failure>,
    access_ttl: u64,
    refresh_ttl: u64,
) -> (result: Result<IssuedTokens, Failure>)
    ensures
        result == paired(user_id, access, refresh, access_ttl, refresh_ttl),
{
    match access {
        Err(failure) => Err(failure),
        Ok(access_details) => match refresh {
            Err(failure) => Err(failure),
            Ok(refresh_details) => match (access_details.token, refresh_details.token) {
                (Some(access_token), Some(refresh_token)) => Ok(
                    IssuedTokens {
                        user_id,
                        access_token,
                        access_session: access_details.token_uuid,
                        access_ttl,
                        refresh_token,
                        refresh_session: refresh_details.token_uuid,
                        refresh_ttl,
                    },
                ),
                _ => Err(Failure::TokenFailure),
            },
        },
    }
}

/// What issuing the refresh token after the access token `access` may
/// return: the pair of `access` with a minting of the refresh token, under
/// the refresh lifetime and the refresh private key, at some reading of the
/// clock under some session identifier.
pub open spec fn issues_refresh(
    user_id: u128,
    settings: Settings,
    access: Result<TokenDetails, Failure>,
    result: Result<IssuedTokens, Failure>,
) -> bool {
    exists|refresh: Result<TokenDetails, TokenError>, refresh_session: u128, refresh_now: int|
        {
            &&& i64::MIN <= refresh_now <= i64::MAX
            &&& #[trigger] minted(
                refresh,
                user_id,
                refresh_session,
                refresh_now,
                settings.refresh_lifetime().unwrap(),
                settings.refresh_token_private_key@,
            )
            &&& result == paired(
                user_id,
                access,
                token_failure(refresh),
                settings.access_lifetime().unwrap() as u64,
                settings.refresh_lifetime().unwrap() as u64,
            )
        }
}

/// What issuing the tokens of a login for `user_id` may return. Where a
/// lifetime of the configuration is not positive or does not fit, it is a
/// `TokenFailure`. Otherwise the access token is minted for the user with the
/// access lifetime and the access private key, at some reading of the clock
/// under some session identifier. Where that fails, the whole fails with a
/// `TokenFailure` and no refresh token is minted; where it succeeds, the
/// result is what `issues_refresh` describes.
pub open spec fn issues(user_id: u128, settings: Settings, result: Result<IssuedTokens, Failure>) -> bool {
    if settings.access_lifetime().is_none() || settings.refresh_lifetime().is_none() {
        result == Err::<IssuedTokens, Failure>(Failure::TokenFailure)
    } else {
        exists|access: Result<TokenDetails, TokenError>, access_session: u128, access_now: int|
            {
                &&& i64::MIN <= access_now <= i64::MAX
                &&& #[trigger] minted(
                    access,
                    user_id,
                    access_session,
                    access_now,
                    settings.access_lifetime().unwrap(),
                    settings.access_token_private_key@,
                )
                &&& if access.is_err() {
                    result == Err::<IssuedTokens, Failure>(Failure::TokenFailure)
                } else {
                    issues_refresh(user_id, settings, token_failure(access), result)
                }
            }
    }
}

/// Mints the access token and the refresh token of a login, each under a
/// session of its own, with the lifetime and the private key that the
/// configuration has for it. The refresh token is minted only where the
/// access token was. `pair_tokens` says what is returned for each pair of
/// minted results.
pub fn issue_tokens(user_id: u128, settings: &Settings) -> (result: Result<IssuedTokens, Failure>)
    ensures
        issues(user_id, *settings, result),
        !can_issue(*settings) ==> result.is_err(),
        result.is_ok() ==> issued_under(result.unwrap(), user_id, *settings),
        result.is_err() ==> result.unwrap_err() == Failure::TokenFailure,
{
    let access_ttl: i64 = match settings.access_ttl() {
        Some(seconds) => seconds,
        None => { return Err(Failure::TokenFailure); },
    };
    let refresh_ttl: i64 = match settings.refresh_ttl() {
        Some(seconds) => seconds,
        None => { return Err(Failure::TokenFailure); },
    };
    let access = generate_token(user_id, access_ttl, settings.access_token_private_key.clone());
    let ghost access_minted: Result<TokenDetails, TokenError>;
    let ghost access_session: u128;
    let ghost access_now: int;
    proof {
        let (outcome, session_id, now) = choose|
            outcome: Result<TokenDetails, TokenError>,
            session_id: u128,
            now: int,
        |
            i64::MIN <= now <= i64::MAX && minted(
                outcome,
                user_id,
                session_id,
                now,
                access_ttl as int,
                settings.access_token_private_key@,
            ) && access == token_failure(outcome);
        access_minted = outcome;
        access_session = session_id;
        access_now = now;
    }
    if access.is_err() {
        proof {
            assert(minted(
                access_minted,
                user_id,
                access_session,
                access_now,
                access_ttl as int,
                settings.access_token_private_key@,
            ) && access_minted.is_err());
        }
        return Err(Failure::TokenFailure);
    }
    let refresh = generate_token(user_id, refresh_ttl, settings.refresh_token_private_key.clone());
    let result = pair_tokens(user_id, access, refresh, access_ttl as u64, refresh_ttl as u64);
    proof {
        let (outcome, session_id, now) = choose|
            outcome: Result<TokenDetails, TokenError>,
            session_id: u128,
            now: int,
        |
            i64::MIN <= now <= i64::MAX && minted(
                outcome,
                user_id,
                session_id,
                now,
                refresh_ttl as int,
                settings.refresh_token_private_key@,
            ) && refresh == token_failure(outcome);
        assert(i64::MIN <= now <= i64::MAX && minted(
            outcome,
            user_id,
            session_id,
            now,
            settings.refresh_lifetime().unwrap(),
            settings.refresh_token_private_key@,
        ) && result == paired(
            user_id,
            access,
            token_failure(outcome),
            settings.access_lifetime().unwrap() as u64,
            settings.refresh_lifetime().unwrap() as u64,
        ));
        assert(issues_refresh(user_id, *settings, token_failure(access_minted), result));
        assert(minted(
            access_minted,
            user_id,
            access_session,
            access_now,
            settings.access_lifetime().unwrap(),
            settings.access_token_private_key@,
        ) && access_minted.is_ok());
    }
    result
}

/// The state of a login after its tokens were issued: it waits for the
/// access session to be registered, or has failed.
pub open spec fn after_issue(result: Result<IssuedTokens, Failure>) -> LoginState {
    match result {
        Ok(issued) => LoginState::AwaitingAccessWrite { issued },
        Err(failure) => LoginState::Failed { failure },
    }
}

/// The state after the registry replied to a write: `then` where the write
/// took effect, a failure otherwise.
pub open spec fn after_write(reply: RegistryWrite, then: LoginState) -> LoginState {
    match reply {
        RegistryWrite::Done => then,
        RegistryWrite::Unreachable => LoginState::Failed { failure: Failure::RegistryUnreachable },
        RegistryWrite::Failed => LoginState::Failed { failure: Failure::RegistryFailure },
    }
}

/// Whether `next` may follow `state` on `event`. Every step is determined
/// but the minting of the tokens, which reads the clock and draws the
/// session identifiers: there `next` is what follows some result of issuing
/// the tokens for the account, as `issues` describes it.
pub open spec fn login_steps(
    state: LoginState,
    event: LoginEvent,
    settings: Settings,
    next: LoginState,
) -> bool {
    match (state, event) {
        (LoginState::AwaitingUser { email, password }, LoginEvent::Account(reply)) => match credentials_hold(
            reply,
            password@,
        ) {
            Err(failure) => next == (LoginState::Failed { failure }),
            Ok(user) => exists|result: Result<IssuedTokens, Failure>| #[trigger]
                issues(user.id, settings, result) && next == after_issue(result),
        },
        (LoginState::AwaitingAccessWrite { issued }, LoginEvent::Written(reply)) => next
            == after_write(reply, LoginState::AwaitingRefreshWrite { issued }),
        (LoginState::AwaitingRefreshWrite { issued }, LoginEvent::Written(reply)) => next
            == after_write(reply, LoginState::LoggedIn { issued }),
        (state, _) => next == state,
    }
}

/// Decides what follows a reply of the registry to a write.
fn written(reply: RegistryWrite, then: LoginState) -> (next: LoginState)
    ensures
        next == after_write(reply, then),
{
    match reply {
        RegistryWrite::Done => then,
        RegistryWrite::Unreachable => LoginState::Failed { failure: Failure::RegistryUnreachable },
        RegistryWrite::Failed => LoginState::Failed { failure: Failure::RegistryFailure },
    }
}

/// Begins a login: a body that breaks the rules of its schema fails as
/// invalid input, any other waits for the account to be looked up.
pub fn login_user_handler(body: LoginUserSchema) -> (state: LoginState)
    ensures
        !body.valid() ==> state == (LoginState::Failed { failure: Failure::InvalidInput }),
        body.valid() ==> state == (LoginState::AwaitingUser {
            email: body.email,
            password: body.password,
        }),
{
    if !body.validate() {
        return LoginState::Failed { failure: Failure::InvalidInput };
    }
    LoginState::AwaitingUser { email: body.email, password: body.password }
}

/// Takes one step of a login.
pub fn login_step(state: LoginState, event: LoginEvent, settings: &Settings) -> (next: LoginState)
    ensures
        login_steps(state, event, *settings, next),
{
    match (state, event) {
        (LoginState::AwaitingUser { email, password }, LoginEvent::Account(reply)) => {
            match check_credentials(reply, password.as_str()) {
                Err(failure) => LoginState::Failed { failure },
                Ok(user) => {
                    let result = issue_tokens(user.id, settings);
                    let next = match result {
                        Ok(issued) => LoginState::AwaitingAccessWrite { issued },
                        Err(failure) => LoginState::Failed { failure },
                    };
                    proof {
                        assert(issues(user.id, *settings, result) && next == after_issue(result));
                    }
                    next
                },
            }
        },
        (LoginState::AwaitingAccessWrite { issued }, LoginEvent::Written(reply)) => written(
            reply,
            LoginState::AwaitingRefreshWrite { issued },
        ),
        (LoginState::AwaitingRefreshWrite { issued }, LoginEvent::Written(reply)) => written(
            reply,
            LoginState::LoggedIn { issued },
        ),
        (state, _) => state,
    }
}

/// Whether `command` is what a login in `state` asks of the caller: to look
/// the account up, to register the access session and then the refresh
/// session, each for the lifetime of its token, to answer 200 with the three
/// cookies, or to answer with the failure.
pub open spec fn login_asks(state: LoginState, command: LoginCommand) -> bool {
    match state {
        LoginState::AwaitingUser { email, password } => command matches LoginCommand::FindUser {
            email: wanted,
        } && wanted@ == email@,
        LoginState::AwaitingAccessWrite { issued } => command matches LoginCommand::Register {
            entry,
        } && entry_for(entry, issued.access_session, issued.user_id, issued.access_ttl),
        LoginState::AwaitingRefreshWrite { issued } => command matches LoginCommand::Register {
            entry,
        } && entry_for(entry, issued.refresh_session, issued.user_id, issued.refresh_ttl),
        LoginState::LoggedIn { issued } => command matches LoginCommand::Respond {
            status,
            cookies,
            data,
            message,
        } && status == STATUS_OK && data@ == "success"@ && message@ == "Login successful"@
            && cookie_views(cookies@) == login_cookie_views(
            issued.access_token@,
            issued.refresh_token@,
            max_age_of(issued.access_ttl),
            max_age_of(issued.refresh_ttl),
        ),
        LoginState::Failed { failure } => command matches LoginCommand::Refuse { status, body }
            && status == status_of(failure_kind(failure)) && body.message@ == failure_text(failure)
            && body.error@ == Seq::<char>::empty(),
    }
}

/// Says what the caller is to do for a login in `state`.
pub fn login_command(state: &LoginState) -> (command: LoginCommand)
    ensures
        login_asks(*state, command),
{
    match state {
        LoginState::AwaitingUser { email, password } => LoginCommand::FindUser {
            email: email.clone(),
        },
        LoginState::AwaitingAccessWrite { issued } => LoginCommand::Register {
            entry: session_entry(issued.access_session, issued.user_id, issued.access_ttl),
        },
        LoginState::AwaitingRefreshWrite { issued } => LoginCommand::Register {
            entry: session_entry(issued.refresh_session, issued.user_id, issued.refresh_ttl),
        },
        LoginState::LoggedIn { issued } => LoginCommand::Respond {
            status: STATUS_OK,
            cookies: login_cookies(
                issued.access_token.as_str(),
                issued.refresh_token.as_str(),
                cookie_age(issued.access_ttl),
                cookie_age(issued.refresh_ttl),
            ),
            data: "success".to_owned(),
            message: "Login successful".to_owned(),
        },
        LoginState::Failed { failure } => LoginCommand::Refuse {
            status: failure.kind().status_code(),
            body: failure.response(),
        },
    }
}

} // verus!
