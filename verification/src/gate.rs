//! The authentication gate: the steps a request passes before a handler
//! sees it.
//!
//! A request walks `Unauthenticated → TokenExtracted → TokenVerified →
//! SessionResolved → UserLoaded → Admitted`; any step may end it in
//! `Rejected`. The auth gate decides; reading the registry and the credential
//! store is left to the caller, who hands each reply back as an event.

use vstd::prelude::*;
use crate::ident::{parse_uuid, uuid_parsed, uuid_text};
use crate::registry::{is_session_key, session_key, SessionLookup};
use crate::response::{status_of, ErrorKind};
use crate::role::{role_allowed, role_in, UserRole};
use crate::store::UserLookup;
use crate::text::{has_prefix, starts_with};
use crate::token::{
    key_pem, lemma_verifies_to, rsa_public_pem_ok, verifies_to, verify_jwt_token, TokenDetails,
    TokenError,
};
use crate::user::User;

verus! {

/// The authenticated principal attached to an admitted request: the user and
/// the session of the access token.
#[derive(Debug)]
pub struct JWTAuthMiddleware {
    pub user: User,
    pub accesses_token_uuid: u128,
}

/// Why the auth gate turned a request away.
#[derive(Debug, Clone, Copy, PartialEq, Eq, Structural)]
pub enum Rejection {
    /// Neither the cookie nor a bearer header carried a token.
    NotLoggedIn,
    /// The token's signature, claims or expiry did not hold.
    InvalidToken,
    /// The configured public key could not be decoded.
    KeyFailure,
    /// The registry could not be reached.
    RegistryUnreachable,
    /// The registry failed on the read of the session.
    RegistryFailure,
    /// The registry holds no entry for the session.
    SessionExpired,
    /// The registry's entry names no user.
    MalformedSession,
    /// The credential store failed.
    StoreFailure,
    /// The user of the session no longer exists.
    UserGone,
    /// The user's role is not among the allowed ones.
    Forbidden,
}

/// The class of failure that each rejection answers with. An absent token, a
/// bad token, an absent session and a missing user are all `Unauthenticated`,
/// so that the answer does not tell which check failed; a registry or a
/// store that fails is an `InternalError`, and only a wrong role is
/// `Forbidden`.
pub open spec fn rejection_kind(rejection: Rejection) -> ErrorKind {
    match rejection {
        Rejection::NotLoggedIn => ErrorKind::Unauthenticated,
        Rejection::InvalidToken => ErrorKind::Unauthenticated,
        Rejection::SessionExpired => ErrorKind::Unauthenticated,
        Rejection::MalformedSession => ErrorKind::Unauthenticated,
        Rejection::UserGone => ErrorKind::Unauthenticated,
        Rejection::Forbidden => ErrorKind::Forbidden,
        Rejection::KeyFailure => ErrorKind::InternalError,
        Rejection::RegistryUnreachable => ErrorKind::InternalError,
        Rejection::RegistryFailure => ErrorKind::InternalError,
        Rejection::StoreFailure => ErrorKind::InternalError,
    }
}

/// The message that each rejection answers with.
pub open spec fn rejection_text(rejection: Rejection) -> Seq<char> {
    match rejection {
        Rejection::NotLoggedIn => "You are not logged in, please provide token"@,
        Rejection::InvalidToken => "Invalid token"@,
        Rejection::KeyFailure => "Token verification is not configured"@,
        Rejection::RegistryUnreachable => "Redis error"@,
        Rejection::RegistryFailure => "Redis error"@,
        Rejection::SessionExpired => "Token is invalid or session has expired"@,
        Rejection::MalformedSession => "Invalid token"@,
        Rejection::StoreFailure => "Error fetching user from database"@,
        Rejection::UserGone => "The user belonging to this token no longer exists"@,
        Rejection::Forbidden => "You do not have permission to access this resource"@,
    }
}

impl Rejection {
    /// The class of failure of this rejection.
    pub fn kind(self) -> (kind: ErrorKind)
        ensures
            kind == rejection_kind(self),
    {
        match self {
            Rejection::NotLoggedIn => ErrorKind::Unauthenticated,
            Rejection::InvalidToken => ErrorKind::Unauthenticated,
            Rejection::SessionExpired => ErrorKind::Unauthenticated,
            Rejection::MalformedSession => ErrorKind::Unauthenticated,
            Rejection::UserGone => ErrorKind::Unauthenticated,
            Rejection::Forbidden => ErrorKind::Forbidden,
            Rejection::KeyFailure => ErrorKind::InternalError,
            Rejection::RegistryUnreachable => ErrorKind::InternalError,
            Rejection::RegistryFailure => ErrorKind::InternalError,
            Rejection::StoreFailure => ErrorKind::InternalError,
        }
    }

    /// The message of this rejection.
    pub fn message(self) -> (text: String)
        ensures
            text@ == rejection_text(self),
    {
        match self {
            Rejection::NotLoggedIn => "You are not logged in, please provide token".to_owned(),
            Rejection::InvalidToken => "Invalid token".to_owned(),
            Rejection::KeyFailure => "Token verification is not configured".to_owned(),
            Rejection::RegistryUnreachable => "Redis error".to_owned(),
            Rejection::RegistryFailure => "Redis error".to_owned(),
            Rejection::SessionExpired => "Token is invalid or session has expired".to_owned(),
            Rejection::MalformedSession => "Invalid token".to_owned(),
            Rejection::StoreFailure => "Error fetching user from database".to_owned(),
            Rejection::UserGone => "The user belonging to this token no longer exists".to_owned(),
            Rejection::Forbidden => "You do not have permission to access this resource".to_owned(),
        }
    }
}

/// The scheme word and the blank before a bearer token.
pub open spec fn bearer_prefix() -> Seq<char> {
    "Bearer "@
}

/// The token that an `Authorization` header carries: what follows
/// `Bearer `, if the header begins so.
pub open spec fn bearer_token(header: Seq<char>) -> Option<Seq<char>> {
    if starts_with(header, bearer_prefix()) {
        Some(header.subrange(bearer_prefix().len() as int, header.len() as int))
    } else {
        None
    }
}

/// The token of a request: the access cookie's value where there is one,
/// else the bearer token of the `Authorization` header.
pub open spec fn extracted(cookie: Option<Seq<char>>, authorization: Option<Seq<char>>) -> Option<
    Seq<char>,
> {
    match cookie {
        Some(value) => Some(value),
        None => match authorization {
            Some(header) => bearer_token(header),
            None => None,
        },
    }
}

/// Reads the token of a request from the access cookie's value or, failing
/// that, from the `Authorization` header.
pub fn extract_token(cookie: Option<&str>, authorization: Option<&str>) -> (token: Option<String>)
    ensures
        token.is_some() == extracted(
            match cookie { Some(c) => Some(c@), None => None },
            match authorization { Some(h) => Some(h@), None => None },
        ).is_some(),
        token.is_some() ==> token.unwrap()@ == extracted(
            match cookie { Some(c) => Some(c@), None => None },
            match authorization { Some(h) => Some(h@), None => None },
        ).unwrap(),
{
    match cookie {
        Some(value) => Some(value.to_owned()),
        None => match authorization {
            Some(header) => {
                let prefix: &str = "Bearer ";
                if has_prefix(header, prefix) {
                    let from: usize = prefix.unicode_len();
                    let to: usize = header.unicode_len();
                    Some(header.substring_char(from, to).to_owned())
                } else {
                    None
                }
            },
            None => None,
        },
    }
}

/// Where a request stands in the auth gate.
#[derive(Debug)]
pub enum GateState {
    /// Nothing is known of the request yet.
    Unauthenticated,
    /// The request carried this token.
    TokenExtracted { token: String },
    /// The token's signature and expiry hold; it names this session.
    TokenVerified { session_id: u128 },
    /// The registry holds the session and files it under this user.
    SessionResolved { session_id: u128, user_id: u128 },
    /// The credential store holds the user.
    UserLoaded { principal: JWTAuthMiddleware },
    /// The request may proceed with this principal.
    Admitted { principal: JWTAuthMiddleware },
    /// The request is turned away.
    Rejected { rejection: Rejection },
}

/// What the auth gate is told between two steps.
#[derive(Debug)]
pub enum GateEvent {
    /// The outcome of verifying the extracted token.
    Verification(Result<TokenDetails, TokenError>),
    /// The registry's reply to a read of the session's key.
    Session(SessionLookup),
    /// The credential store's reply to a search for the session's user.
    Account(UserLookup),
    /// The roles the route allows; `None` where any principal will do.
    Roles(Option<Vec<UserRole>>),
}

/// The state that follows `state` on `event`. An event that the state does
/// not wait for leaves it as it is; `Admitted` and `Rejected` are final.
///
/// The user that is loaded is the one the registry names for the session,
/// whatever the token claimed; a reply of the store with another user than
/// the one asked for counts as a failure of the store.
pub open spec fn gate_next(state: GateState, event: GateEvent) -> GateState {
    match (state, event) {
        (GateState::TokenExtracted { token }, GateEvent::Verification(outcome)) => match outcome {
            Ok(details) => GateState::TokenVerified { session_id: details.token_uuid },
            Err(TokenError::KeyEncoding) => GateState::Rejected { rejection: Rejection::KeyFailure },
            Err(_) => GateState::Rejected { rejection: Rejection::InvalidToken },
        },
        (GateState::TokenVerified { session_id }, GateEvent::Session(reply)) => match reply {
            SessionLookup::Unreachable => GateState::Rejected {
                rejection: Rejection::RegistryUnreachable,
            },
            SessionLookup::Failed => GateState::Rejected { rejection: Rejection::RegistryFailure },
            SessionLookup::Absent => GateState::Rejected { rejection: Rejection::SessionExpired },
            SessionLookup::Found(text) => match uuid_parsed(text@) {
                Some(user_id) => GateState::SessionResolved { session_id, user_id },
                None => GateState::Rejected { rejection: Rejection::MalformedSession },
            },
        },
        (GateState::SessionResolved { session_id, user_id }, GateEvent::Account(reply)) => match reply {
            UserLookup::Failed => GateState::Rejected { rejection: Rejection::StoreFailure },
            UserLookup::Absent => GateState::Rejected { rejection: Rejection::UserGone },
            UserLookup::Found(user) => if user.id == user_id {
                GateState::UserLoaded {
                    principal: JWTAuthMiddleware { user, accesses_token_uuid: session_id },
                }
            } else {
                GateState::Rejected { rejection: Rejection::StoreFailure }
            },
        },
        (state, GateEvent::Roles(allowed)) => role_gate(
            state,
            match allowed {
                Some(roles) => Some(roles@),
                None => None,
            },
        ),
        (state, _) => state,
    }
}

/// The last step of the auth gate: a loaded principal is admitted where the
/// route allows any principal or the principal's role is among the allowed
/// ones, and is turned away as forbidden otherwise. Any other state is left
/// as it is.
pub open spec fn role_gate(state: GateState, allowed: Option<Seq<UserRole>>) -> GateState {
    match state {
        GateState::UserLoaded { principal } => match allowed {
            None => GateState::Admitted { principal },
            Some(roles) => if role_allowed(roles, principal.user.role) {
                GateState::Admitted { principal }
            } else {
                GateState::Rejected { rejection: Rejection::Forbidden }
            },
        },
        other => other,
    }
}

/// Takes one step of the auth gate.
pub fn gate_step(state: GateState, event: GateEvent) -> (next: GateState)
    ensures
        next == gate_next(state, event),
{
    match (state, event) {
        (GateState::TokenExtracted { token }, GateEvent::Verification(outcome)) => match outcome {
            Ok(details) => GateState::TokenVerified { session_id: details.token_uuid },
            Err(TokenError::KeyEncoding) => GateState::Rejected { rejection: Rejection::KeyFailure },
            Err(_) => GateState::Rejected { rejection: Rejection::InvalidToken },
        },
        (GateState::TokenVerified { session_id }, GateEvent::Session(reply)) => match reply {
            SessionLookup::Unreachable => GateState::Rejected {
                rejection: Rejection::RegistryUnreachable,
            },
            SessionLookup::Failed => GateState::Rejected { rejection: Rejection::RegistryFailure },
            SessionLookup::Absent => GateState::Rejected { rejection: Rejection::SessionExpired },
            SessionLookup::Found(text) => match parse_uuid(text.as_str()) {
                Some(user_id) => GateState::SessionResolved { session_id, user_id },
                None => GateState::Rejected { rejection: Rejection::MalformedSession },
            },
        },
        (GateState::SessionResolved { session_id, user_id }, GateEvent::Account(reply)) => match reply {
            UserLookup::Failed => GateState::Rejected { rejection: Rejection::StoreFailure },
            UserLookup::Absent => GateState::Rejected { rejection: Rejection::UserGone },
            UserLookup::Found(user) => if user.id == user_id {
                GateState::UserLoaded {
                    principal: JWTAuthMiddleware { user, accesses_token_uuid: session_id },
                }
            } else {
                GateState::Rejected { rejection: Rejection::StoreFailure }
            },
        },
        (GateState::UserLoaded { principal }, GateEvent::Roles(allowed)) => match allowed {
            None => GateState::Admitted { principal },
            Some(roles) => if role_in(&roles, principal.user.role) {
                GateState::Admitted { principal }
            } else {
                GateState::Rejected { rejection: Rejection::Forbidden }
            },
        },
        (state, _) => state,
    }
}

/// The first step of the auth gate: reads the token of a request. A request
/// without one is turned away as not logged in.
pub fn gate_begin(cookie: Option<&str>, authorization: Option<&str>) -> (state: GateState)
    ensures
        match extracted(
            match cookie { Some(c) => Some(c@), None => None },
            match authorization { Some(h) => Some(h@), None => None },
        ) {
            Some(text) => state matches GateState::TokenExtracted { token } && token@ == text,
            None => state == (GateState::Rejected { rejection: Rejection::NotLoggedIn }),
        },
{
    match extract_token(cookie, authorization) {
        Some(token) => GateState::TokenExtracted { token },
        None => GateState::Rejected { rejection: Rejection::NotLoggedIn },
    }
}

/// Verifies the extracted token with the configured public key and takes the
/// step that its outcome calls for. Any other state is left as it is.
///
/// The request is refused for the key exactly where the key cannot be
/// decoded, and as an invalid token where the key is no RSA key; under a
/// usable key the signature library decides between the token's session and
/// an invalid token.
pub fn gate_verify(state: GateState, public_key: String) -> (next: GateState)
    ensures
        !(state is TokenExtracted) ==> next == state,
        state is TokenExtracted ==> exists|outcome: Result<TokenDetails, TokenError>|
            verifies_to(outcome, public_key@, state->token@) && next == gate_next(
                state,
                GateEvent::Verification(outcome),
            ),
        state is TokenExtracted ==> (next is TokenVerified || next is Rejected),
        state is TokenExtracted ==> ((next == (GateState::Rejected {
            rejection: Rejection::KeyFailure,
        })) <==> key_pem(public_key@).is_none()),
        state is TokenExtracted && key_pem(public_key@).is_some() && !rsa_public_pem_ok(
            key_pem(public_key@).unwrap(),
        ) ==> next == (GateState::Rejected { rejection: Rejection::InvalidToken }),
        state is TokenExtracted && key_pem(public_key@).is_some() ==> next is TokenVerified || next
            == (GateState::Rejected { rejection: Rejection::InvalidToken }),
{
    match state {
        GateState::TokenExtracted { token } => {
            let outcome = verify_jwt_token(public_key, token.as_str());
            let ghost before = GateState::TokenExtracted { token };
            let next = gate_step(
                GateState::TokenExtracted { token },
                GateEvent::Verification(outcome),
            );
            proof {
                lemma_verifies_to(outcome, public_key@, token@);
                assert(verifies_to(outcome, public_key@, before->token@) && next == gate_next(
                    before,
                    GateEvent::Verification(outcome),
                ));
            }
            next
        },
        other => other,
    }
}

/// Runs the auth gate as far as it goes without the registry: reads the
/// token of the request and verifies it with the configured public key. The
/// state returned is `TokenVerified` or `Rejected`.
///
/// A request without a token is refused as not logged in, and no other is.
/// A request with a token is refused for the key exactly where the key
/// cannot be decoded; under a key that can, the result is the token's
/// session or an invalid token, as the signature library decides.
pub fn examination_auth(cookie: Option<&str>, authorization: Option<&str>, public_key: String) -> (state:
    GateState)
    ensures
        state is TokenVerified || state is Rejected,
        (state == (GateState::Rejected { rejection: Rejection::NotLoggedIn })) <==> extracted(
            match cookie { Some(c) => Some(c@), None => None },
            match authorization { Some(h) => Some(h@), None => None },
        ).is_none(),
        (state == (GateState::Rejected { rejection: Rejection::KeyFailure })) <==> (extracted(
            match cookie { Some(c) => Some(c@), None => None },
            match authorization { Some(h) => Some(h@), None => None },
        ).is_some() && key_pem(public_key@).is_none()),
        extracted(
            match cookie { Some(c) => Some(c@), None => None },
            match authorization { Some(h) => Some(h@), None => None },
        ).is_some() && key_pem(public_key@).is_some() ==> state is TokenVerified || state
            == (GateState::Rejected { rejection: Rejection::InvalidToken }),
        extracted(
            match cookie { Some(c) => Some(c@), None => None },
            match authorization { Some(h) => Some(h@), None => None },
        ).is_some() && key_pem(public_key@).is_some() && !rsa_public_pem_ok(
            key_pem(public_key@).unwrap(),
        ) ==> state == (GateState::Rejected { rejection: Rejection::InvalidToken }),
        extracted(
            match cookie { Some(c) => Some(c@), None => None },
            match authorization { Some(h) => Some(h@), None => None },
        ).is_some() ==> exists|token: String, outcome: Result<TokenDetails, TokenError>|
            token@ == extracted(
                match cookie { Some(c) => Some(c@), None => None },
                match authorization { Some(h) => Some(h@), None => None },
            ).unwrap() && verifies_to(outcome, public_key@, token@) && state == gate_next(
                GateState::TokenExtracted { token },
                GateEvent::Verification(outcome),
            ),
{
    let begun = gate_begin(cookie, authorization);
    let state = gate_verify(begun, public_key);
    proof {
        if begun is TokenExtracted {
            let token = begun->token;
            let outcome = choose|outcome: Result<TokenDetails, TokenError>|
                verifies_to(outcome, public_key@, begun->token@) && state == gate_next(
                    begun,
                    GateEvent::Verification(outcome),
                );
            assert(token@ == extracted(
                match cookie { Some(c) => Some(c@), None => None },
                match authorization { Some(h) => Some(h@), None => None },
            ).unwrap() && verifies_to(outcome, public_key@, token@) && state == gate_next(
                GateState::TokenExtracted { token },
                GateEvent::Verification(outcome),
            ));
        }
    }
    state
}

/// Admits a loaded principal whatever its role.
pub fn auth(state: GateState) -> (next: GateState)
    ensures
        next == role_gate(state, None),
{
    gate_step(state, GateEvent::Roles(None))
}

/// Admits a loaded principal whose role is among `allowed_roles`, and turns
/// any other away as forbidden.
pub fn auth_roles(state: GateState, allowed_roles: Vec<UserRole>) -> (next: GateState)
    ensures
        next == role_gate(state, Some(allowed_roles@)),
{
    gate_step(state, GateEvent::Roles(Some(allowed_roles)))
}

/// The roles that may create genres.
pub open spec fn admin_roles() -> Seq<UserRole> {
    seq![UserRole::Admin]
}

/// The roles that may create, change and delete books.
pub open spec fn author_worker_admin_roles() -> Seq<UserRole> {
    seq![UserRole::Author, UserRole::Worker, UserRole::Admin]
}

/// The auth gate's last step for routes open to administrators alone.
pub fn auth_admin(state: GateState) -> (next: GateState)
    ensures
        next == role_gate(state, Some(admin_roles())),
{
    let roles = vec![UserRole::Admin];
    proof {
        assert(roles@ =~= admin_roles());
    }
    auth_roles(state, roles)
}

/// The auth gate's last step for routes open to authors, workers and
/// administrators.
pub fn auth_author_worker_admin(state: GateState) -> (next: GateState)
    ensures
        next == role_gate(state, Some(author_worker_admin_roles())),
{
    let roles = vec![UserRole::Author, UserRole::Worker, UserRole::Admin];
    proof {
        assert(roles@ =~= author_worker_admin_roles());
    }
    auth_roles(state, roles)
}

/// What the caller is to do for a request in a given state of the auth gate.
#[derive(Debug)]
pub enum GateCommand {
    /// Hand the request's cookie and header to the auth gate.
    ReadRequest,
    /// Have the token verified.
    VerifyToken,
    /// Read this key from the registry.
    ReadSession { key: String },
    /// Search the credential store for the user with this identifier.
    LoadUser { user_id: u128 },
    /// Tell the auth gate which roles the route allows.
    CheckRoles,
    /// Let the request through to its handler.
    Forward,
    /// Answer with this status and message.
    Respond { status: u16, message: String },
}

/// Whether `command` is what the auth gate in `state` asks of the caller.
pub open spec fn gate_asks(state: GateState, command: GateCommand) -> bool {
    match state {
        GateState::Unauthenticated => command == GateCommand::ReadRequest,
        GateState::TokenExtracted { token } => command == GateCommand::VerifyToken,
        GateState::TokenVerified { session_id } => command matches GateCommand::ReadSession { key }
            && key@ == uuid_text(session_id) && is_session_key(key@, session_id),
        GateState::SessionResolved { session_id, user_id } => command == (GateCommand::LoadUser {
            user_id,
        }),
        GateState::UserLoaded { principal } => command == GateCommand::CheckRoles,
        GateState::Admitted { principal } => command == GateCommand::Forward,
        GateState::Rejected { rejection } => command matches GateCommand::Respond {
            status,
            message,
        } && status == status_of(rejection_kind(rejection)) && message@ == rejection_text(
            rejection,
        ),
    }
}

/// Says what the caller is to do for a request in `state`.
pub fn gate_command(state: &GateState) -> (command: GateCommand)
    ensures
        gate_asks(*state, command),
{
    match state {
        GateState::Unauthenticated => GateCommand::ReadRequest,
        GateState::TokenExtracted { token } => GateCommand::VerifyToken,
        GateState::TokenVerified { session_id } => GateCommand::ReadSession {
            key: session_key(*session_id),
        },
        GateState::SessionResolved { session_id, user_id } => GateCommand::LoadUser {
            user_id: *user_id,
        },
        GateState::UserLoaded { principal } => GateCommand::CheckRoles,
        GateState::Admitted { principal } => GateCommand::Forward,
        GateState::Rejected { rejection } => GateCommand::Respond {
            status: rejection.kind().status_code(),
            message: rejection.message(),
        },
    }
}

} // verus!
