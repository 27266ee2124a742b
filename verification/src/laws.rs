//! What holds across the functions of the library: how registration, login,
//! the auth gate and logout bear on one another.
//!
//! Each statement is over the models that the contracts of the functions
//! use: the registry as a table of texts, the credential store as a table of
//! accounts, and the auth gate's transition function.

use vstd::prelude::*;
use crate::gate::{
    gate_next, rejection_kind, role_gate, GateEvent, GateState, JWTAuthMiddleware, Rejection,
};
use crate::ident::uuid_parsed;
use crate::login::{
    can_issue, credentials_hold, issued_under, issues, issues_refresh, login_asks, paired,
    token_failure, IssuedTokens, LoginCommand, LoginState,
};
use crate::register::{record_of, NewUser};
use crate::registry::{
    entry_for, is_session_key, lookup_in, registry_delete, registry_get, registry_put, Registry,
    SessionEntry, SessionLookup,
};
use crate::response::{status_of, ErrorKind, Failure};
use crate::settings::Settings;
use crate::role::{role_allowed, UserRole};
use crate::schema::{LoginUserSchema, RegisterUserSchema};
use crate::store::{accounts_with, found_by_email, found_by_id, Accounts, UserLookup};
use crate::token::{
    claims_identity, claims_name, expiry_fits, key_pem, minted, minted_token, verifies_to,
    ClaimsView, TokenDetails, TokenError,
};
use crate::user::User;

verus! {

/// A login with the email and the password of a valid registration passes
/// the checks of its schema and of its credentials: once the account is
/// stored with the digest that registration made, the store finds it and the
/// password verifies against it.
pub proof fn lemma_login_after_registration(
    body: RegisterUserSchema,
    record: NewUser,
    user: User,
    accounts: Accounts,
    login: LoginUserSchema,
)
    requires
        body.valid(),
        record_of(record, body),
        user.email == record.email,
        user.password == record.password,
        login.email == body.email,
        login.password == body.password,
    ensures
        login.valid(),
        credentials_hold(
            found_by_email(accounts_with(accounts, user), login.email@),
            login.password@,
        ) == Ok::<User, Failure>(user),
{
}

/// The registry after the two writes of a login.
pub open spec fn registry_after_login(
    registry: Registry,
    access: SessionEntry,
    refresh: SessionEntry,
) -> Registry {
    registry_put(
        registry_put(registry, access.key@, access.value@),
        refresh.key@,
        refresh.value@,
    )
}

/// After two writes that file the same value, a read of either key finds
/// that value, and every other key holds what it held before.
pub proof fn lemma_reads_after_login(registry: Registry, access: SessionEntry, refresh: SessionEntry)
    requires
        access.value@ == refresh.value@,
    ensures
        registry_get(registry_after_login(registry, access, refresh), access.key@) == Some(
            access.value@,
        ),
        registry_get(registry_after_login(registry, access, refresh), refresh.key@) == Some(
            refresh.value@,
        ),
        forall|key: Seq<char>|
            key != access.key@ && key != refresh.key@ ==> #[trigger] registry_get(
                registry_after_login(registry, access, refresh),
                key,
            ) == registry_get(registry, key),
{
    let after = registry_after_login(registry, access, refresh);
    assert(after[access.key@] == access.value@);
}

/// Right after a login both of its sessions resolve: with the two entries
/// written, a read of either key finds the user's identifier, and the auth
/// gate resolves the access session to that user. Sessions that differ are
/// filed under keys that differ, so that each can be revoked by itself.
pub proof fn lemma_sessions_resolve_after_login(
    registry: Registry,
    issued: IssuedTokens,
    access: SessionEntry,
    refresh: SessionEntry,
    reply: SessionLookup,
)
    requires
        entry_for(access, issued.access_session, issued.user_id, issued.access_ttl),
        entry_for(refresh, issued.refresh_session, issued.user_id, issued.refresh_ttl),
        lookup_in(registry_after_login(registry, access, refresh), access.key@, reply),
    ensures
        registry_get(registry_after_login(registry, access, refresh), access.key@) == Some(
            access.value@,
        ),
        registry_get(registry_after_login(registry, access, refresh), refresh.key@) == Some(
            refresh.value@,
        ),
        gate_next(
            GateState::TokenVerified { session_id: issued.access_session },
            GateEvent::Session(reply),
        ) == (GateState::SessionResolved {
            session_id: issued.access_session,
            user_id: issued.user_id,
        }),
        issued.access_session != issued.refresh_session ==> access.key@ != refresh.key@,
{
    lemma_reads_after_login(registry, access, refresh);
}

/// Whether `details` are those of a token minted at `now` for `ttl` seconds:
/// they carry the token text, the session and the user, and an expiry that
/// lies `ttl` seconds after `now`.
pub open spec fn minted_as(
    details: TokenDetails,
    token: String,
    session_id: u128,
    user_id: u128,
    now: int,
    ttl: u64,
) -> bool {
    &&& details.token == Some(token)
    &&& details.token_uuid == session_id
    &&& details.user_id == user_id
    &&& i64::MIN <= now <= i64::MAX
    &&& details.expires_in == Some((now + ttl) as i64)
}

/// The tokens that a login issues are the ones it minted, and each lives as
/// long as its registry entry: the access token was minted for the user
/// under the access session with the access lifetime, the refresh token
/// under the refresh session with the refresh lifetime, and these sessions
/// and lifetimes are the ones that `login_command` has registered. A pair is
/// issued only under a configuration that can issue tokens.
pub proof fn lemma_issued_tokens_are_minted(user_id: u128, settings: Settings, issued: IssuedTokens)
    requires
        issues(user_id, settings, Ok(issued)),
    ensures
        can_issue(settings),
        issued_under(issued, user_id, settings),
        exists|access: TokenDetails, refresh: TokenDetails, access_now: int, refresh_now: int|
            #[trigger] minted_as(
                access,
                issued.access_token,
                issued.access_session,
                user_id,
                access_now,
                issued.access_ttl,
            ) && #[trigger] minted_as(
                refresh,
                issued.refresh_token,
                issued.refresh_session,
                user_id,
                refresh_now,
                issued.refresh_ttl,
            ),
{
    let access_ttl = settings.access_lifetime().unwrap();
    let refresh_ttl = settings.refresh_lifetime().unwrap();
    let (a, sa, na) = choose|a: Result<TokenDetails, TokenError>, sa: u128, na: int|
        {
            &&& i64::MIN <= na <= i64::MAX
            &&& #[trigger] minted(a, user_id, sa, na, access_ttl, settings.access_token_private_key@)
            &&& if a.is_err() {
                Ok::<IssuedTokens, Failure>(issued) == Err::<IssuedTokens, Failure>(
                    Failure::TokenFailure,
                )
            } else {
                issues_refresh(user_id, settings, token_failure(a), Ok(issued))
            }
        };
    let (r, sr, nr) = choose|r: Result<TokenDetails, TokenError>, sr: u128, nr: int|
        {
            &&& i64::MIN <= nr <= i64::MAX
            &&& #[trigger] minted(
                r,
                user_id,
                sr,
                nr,
                refresh_ttl,
                settings.refresh_token_private_key@,
            )
            &&& Ok::<IssuedTokens, Failure>(issued) == paired(
                user_id,
                token_failure(a),
                token_failure(r),
                access_ttl as u64,
                refresh_ttl as u64,
            )
        };
    assert(minted_as(
        a.unwrap(),
        issued.access_token,
        issued.access_session,
        user_id,
        na,
        issued.access_ttl,
    ));
    assert(minted_as(
        r.unwrap(),
        issued.refresh_token,
        issued.refresh_session,
        user_id,
        nr,
        issued.refresh_ttl,
    ));
}

/// A login registers the sessions of the tokens it minted, each for the
/// lifetime of its token, and touches nothing else. With the two entries
/// that `login_command` asks to be written, a read of either session's key
/// finds the user of the login, each entry expires with the lifetime that
/// its token was minted with, and every other key of the registry holds
/// what it held before.
pub proof fn lemma_login_registers_its_sessions(
    user_id: u128,
    settings: Settings,
    issued: IssuedTokens,
    access: SessionEntry,
    refresh: SessionEntry,
    registry: Registry,
)
    requires
        issues(user_id, settings, Ok(issued)),
        login_asks(
            LoginState::AwaitingAccessWrite { issued },
            LoginCommand::Register { entry: access },
        ),
        login_asks(
            LoginState::AwaitingRefreshWrite { issued },
            LoginCommand::Register { entry: refresh },
        ),
    ensures
        is_session_key(access.key@, issued.access_session),
        is_session_key(refresh.key@, issued.refresh_session),
        registry_get(registry_after_login(registry, access, refresh), access.key@) == Some(
            access.value@,
        ),
        registry_get(registry_after_login(registry, access, refresh), refresh.key@) == Some(
            refresh.value@,
        ),
        uuid_parsed(access.value@) == Some(user_id),
        uuid_parsed(refresh.value@) == Some(user_id),
        settings.access_lifetime() == Some(access.ttl_seconds as int),
        settings.refresh_lifetime() == Some(refresh.ttl_seconds as int),
        exists|access_details: TokenDetails, refresh_details: TokenDetails, access_now: int, refresh_now: int|
            #[trigger] minted_as(
                access_details,
                issued.access_token,
                issued.access_session,
                user_id,
                access_now,
                access.ttl_seconds,
            ) && #[trigger] minted_as(
                refresh_details,
                issued.refresh_token,
                issued.refresh_session,
                user_id,
                refresh_now,
                refresh.ttl_seconds,
            ),
        forall|key: Seq<char>|
            key != access.key@ && key != refresh.key@ ==> #[trigger] registry_get(
                registry_after_login(registry, access, refresh),
                key,
            ) == registry_get(registry, key),
{
    lemma_issued_tokens_are_minted(user_id, settings, issued);
    lemma_reads_after_login(registry, access, refresh);
    let (a, r, na, nr) = choose|a: TokenDetails, r: TokenDetails, na: int, nr: int|
        #[trigger] minted_as(
            a,
            issued.access_token,
            issued.access_session,
            user_id,
            na,
            issued.access_ttl,
        ) && #[trigger] minted_as(
            r,
            issued.refresh_token,
            issued.refresh_session,
            user_id,
            nr,
            issued.refresh_ttl,
        );
    assert(minted_as(
        a,
        issued.access_token,
        issued.access_session,
        user_id,
        na,
        access.ttl_seconds,
    ));
    assert(minted_as(
        r,
        issued.refresh_token,
        issued.refresh_session,
        user_id,
        nr,
        refresh.ttl_seconds,
    ));
}

/// The round trip through a token: whenever verification takes a token that
/// was minted for a user under a session, it returns that session and that
/// user, whatever the keys, the clock readings and the lifetime. Whether it
/// takes the token rests with the signature library, which checks the
/// signature against the public key and the expiry against the clock.
pub proof fn lemma_minted_token_round_trip(
    details: TokenDetails,
    user_id: u128,
    session_id: u128,
    now: int,
    ttl: int,
    private_key: Seq<char>,
    verified: Result<TokenDetails, TokenError>,
    public_key: Seq<char>,
)
    requires
        minted(Ok(details), user_id, session_id, now, ttl, private_key),
        verifies_to(verified, public_key, details.token.unwrap()@),
        verified.is_ok(),
    ensures
        verified.unwrap().token_uuid == session_id,
        verified.unwrap().user_id == user_id,
        verified.unwrap().token_uuid == details.token_uuid,
        verified.unwrap().user_id == details.user_id,
{
}

/// The tokens of a login stand each for itself: whenever verification takes
/// the access token, it returns the access session and the user of the
/// login, and whenever it takes the refresh token, the refresh session and
/// that user, whether or not the other token is ever used.
pub proof fn lemma_issued_tokens_round_trip(
    user_id: u128,
    settings: Settings,
    issued: IssuedTokens,
    access_verified: Result<TokenDetails, TokenError>,
    access_public_key: Seq<char>,
    refresh_verified: Result<TokenDetails, TokenError>,
    refresh_public_key: Seq<char>,
)
    requires
        issues(user_id, settings, Ok(issued)),
        verifies_to(access_verified, access_public_key, issued.access_token@),
        verifies_to(refresh_verified, refresh_public_key, issued.refresh_token@),
    ensures
        access_verified.is_ok() ==> access_verified.unwrap().token_uuid == issued.access_session
            && access_verified.unwrap().user_id == user_id,
        refresh_verified.is_ok() ==> refresh_verified.unwrap().token_uuid
            == issued.refresh_session && refresh_verified.unwrap().user_id == user_id,
{
    let access_ttl = settings.access_lifetime().unwrap();
    let refresh_ttl = settings.refresh_lifetime().unwrap();
    let (a, sa, na) = choose|a: Result<TokenDetails, TokenError>, sa: u128, na: int|
        {
            &&& i64::MIN <= na <= i64::MAX
            &&& #[trigger] minted(a, user_id, sa, na, access_ttl, settings.access_token_private_key@)
            &&& if a.is_err() {
                Ok::<IssuedTokens, Failure>(issued) == Err::<IssuedTokens, Failure>(
                    Failure::TokenFailure,
                )
            } else {
                issues_refresh(user_id, settings, token_failure(a), Ok(issued))
            }
        };
    let (r, sr, nr) = choose|r: Result<TokenDetails, TokenError>, sr: u128, nr: int|
        {
            &&& i64::MIN <= nr <= i64::MAX
            &&& #[trigger] minted(
                r,
                user_id,
                sr,
                nr,
                refresh_ttl,
                settings.refresh_token_private_key@,
            )
            &&& Ok::<IssuedTokens, Failure>(issued) == paired(
                user_id,
                token_failure(a),
                token_failure(r),
                access_ttl as u64,
                refresh_ttl as u64,
            )
        };
    if access_verified.is_ok() {
        lemma_minted_token_round_trip(
            a.unwrap(),
            user_id,
            sa,
            na,
            access_ttl,
            settings.access_token_private_key@,
            access_verified,
            access_public_key,
        );
    }
    if refresh_verified.is_ok() {
        lemma_minted_token_round_trip(
            r.unwrap(),
            user_id,
            sr,
            nr,
            refresh_ttl,
            settings.refresh_token_private_key@,
            refresh_verified,
            refresh_public_key,
        );
    }
}

/// The user of a request is loaded from the credential store by the
/// identifier that the registry names: where the store answers a search by
/// that identifier, the principal is an account of the store with that
/// identifier, under the session of the token; where the store has no such
/// account, the request is turned away as unauthenticated.
pub proof fn lemma_user_load(
    accounts: Accounts,
    session_id: u128,
    user_id: u128,
    reply: UserLookup,
)
    requires
        found_by_id(accounts, user_id, reply),
    ensures
        reply matches UserLookup::Found(user) ==> accounts.contains_value(user) && gate_next(
            GateState::SessionResolved { session_id, user_id },
            GateEvent::Account(reply),
        ) == (GateState::UserLoaded {
            principal: JWTAuthMiddleware { user, accesses_token_uuid: session_id },
        }),
        reply is Absent ==> gate_next(
            GateState::SessionResolved { session_id, user_id },
            GateEvent::Account(reply),
        ) == (GateState::Rejected { rejection: Rejection::UserGone }),
        status_of(rejection_kind(Rejection::UserGone)) == 401,
{
}

/// Whether a token for the user cannot be minted at `now` under `session_id`
/// with a usable key: the expiry does not fit, or the signer has no token for
/// the claims.
pub open spec fn cannot_mint(
    user_id: u128,
    session_id: u128,
    now: int,
    ttl: int,
    private_key: Seq<char>,
) -> bool {
    !expiry_fits(now, ttl) || minted_token(
        user_id,
        session_id,
        now,
        ttl,
        key_pem(private_key).unwrap(),
    ).is_none()
}

/// Under a configuration that can issue tokens, a login whose credentials
/// hold fails at the issuing only for a cause of the minting itself: for the
/// clock reading and the session that were drawn, the access token or the
/// refresh token could not be minted, because its expiry did not fit or the
/// signer had no token for its claims. Nothing else stands between valid
/// credentials and the two registry writes.
pub proof fn lemma_issuing_fails_only_at_minting(
    user_id: u128,
    settings: Settings,
    result: Result<IssuedTokens, Failure>,
)
    requires
        issues(user_id, settings, result),
        can_issue(settings),
        result.is_err(),
    ensures
        (exists|session_id: u128, now: int|
            i64::MIN <= now <= i64::MAX && #[trigger] cannot_mint(
                user_id,
                session_id,
                now,
                settings.access_lifetime().unwrap(),
                settings.access_token_private_key@,
            )) || (exists|session_id: u128, now: int|
            i64::MIN <= now <= i64::MAX && #[trigger] cannot_mint(
                user_id,
                session_id,
                now,
                settings.refresh_lifetime().unwrap(),
                settings.refresh_token_private_key@,
            )),
{
    let access_ttl = settings.access_lifetime().unwrap();
    let refresh_ttl = settings.refresh_lifetime().unwrap();
    let (a, sa, na) = choose|a: Result<TokenDetails, TokenError>, sa: u128, na: int|
        {
            &&& i64::MIN <= na <= i64::MAX
            &&& #[trigger] minted(a, user_id, sa, na, access_ttl, settings.access_token_private_key@)
            &&& if a.is_err() {
                result == Err::<IssuedTokens, Failure>(Failure::TokenFailure)
            } else {
                issues_refresh(user_id, settings, token_failure(a), result)
            }
        };
    if a.is_err() {
        assert(cannot_mint(user_id, sa, na, access_ttl, settings.access_token_private_key@));
    } else {
        let (r, sr, nr) = choose|r: Result<TokenDetails, TokenError>, sr: u128, nr: int|
            {
                &&& i64::MIN <= nr <= i64::MAX
                &&& #[trigger] minted(
                    r,
                    user_id,
                    sr,
                    nr,
                    refresh_ttl,
                    settings.refresh_token_private_key@,
                )
                &&& result == paired(
                    user_id,
                    token_failure(a),
                    token_failure(r),
                    access_ttl as u64,
                    refresh_ttl as u64,
                )
            };
        assert(r.is_err());
        assert(cannot_mint(user_id, sr, nr, refresh_ttl, settings.refresh_token_private_key@));
    }
}

/// Claims that name a user and a session give back that session and that
/// user when they are read: what minting writes into a token, verification
/// recovers from it.
pub proof fn lemma_claims_round_trip(claims: ClaimsView, user_id: u128, session_id: u128)
    requires
        claims_name(claims, user_id, session_id),
    ensures
        claims_identity(claims) == Some((session_id, user_id)),
{
}

/// Deleting a batch of keys twice leaves the registry as deleting it once
/// does: a key that is already absent is passed over.
pub proof fn lemma_delete_is_idempotent(registry: Registry, keys: Seq<Seq<char>>)
    ensures
        registry_delete(registry_delete(registry, keys), keys) == registry_delete(registry, keys),
{
    assert(registry_delete(registry_delete(registry, keys), keys) =~= registry_delete(
        registry,
        keys,
    ));
}

/// After a logout the access token admits no request, though its signature
/// and expiry still hold: the registry no longer has its session, and the
/// gate turns the request away as unauthenticated. A second logout with the
/// same cookies ends the same way, at the auth gate, and not as an internal
/// error.
pub proof fn lemma_revoked_after_logout(
    registry: Registry,
    refresh_key: Seq<char>,
    access_key: Seq<char>,
    token: String,
    details: TokenDetails,
    reply: SessionLookup,
)
    requires
        is_session_key(access_key, details.token_uuid),
        lookup_in(registry_delete(registry, seq![refresh_key, access_key]), access_key, reply),
    ensures
        registry_get(registry_delete(registry, seq![refresh_key, access_key]), access_key)
            == None::<Seq<char>>,
        registry_get(registry_delete(registry, seq![refresh_key, access_key]), refresh_key)
            == None::<Seq<char>>,
        gate_next(
            gate_next(
                GateState::TokenExtracted { token },
                GateEvent::Verification(Ok(details)),
            ),
            GateEvent::Session(reply),
        ) == (GateState::Rejected { rejection: Rejection::SessionExpired }),
        rejection_kind(Rejection::SessionExpired) == ErrorKind::Unauthenticated,
        status_of(rejection_kind(Rejection::SessionExpired)) == 401,
{
    let keys = seq![refresh_key, access_key];
    assert(keys[0] == refresh_key);
    assert(keys[1] == access_key);
    assert(keys.contains(refresh_key));
    assert(keys.contains(access_key));
    assert(keys.to_set().contains(access_key));
    assert(keys.to_set().contains(refresh_key));
}

/// A token that does not verify, whatever the reason, is turned away as
/// unauthenticated, unless the fault lies with the configured key.
pub proof fn lemma_unverified_is_unauthenticated(token: String, error: TokenError)
    requires
        error != TokenError::KeyEncoding,
    ensures
        gate_next(GateState::TokenExtracted { token }, GateEvent::Verification(Err(error)))
            == (GateState::Rejected { rejection: Rejection::InvalidToken }),
        status_of(rejection_kind(Rejection::InvalidToken)) == 401,
{
}

/// The role gate: a loaded principal whose role is not among the allowed
/// ones is turned away as forbidden, with status 403 and not 401; one whose
/// role is among them is admitted.
pub proof fn lemma_role_gate(principal: JWTAuthMiddleware, allowed: Seq<UserRole>)
    ensures
        !role_allowed(allowed, principal.user.role) ==> role_gate(
            GateState::UserLoaded { principal },
            Some(allowed),
        ) == (GateState::Rejected { rejection: Rejection::Forbidden }),
        role_allowed(allowed, principal.user.role) ==> role_gate(
            GateState::UserLoaded { principal },
            Some(allowed),
        ) == (GateState::Admitted { principal }),
        rejection_kind(Rejection::Forbidden) == ErrorKind::Forbidden,
        status_of(rejection_kind(Rejection::Forbidden)) == 403,
{
}

/// Whether an event is a registry entry that names a user.
pub open spec fn names_user(event: GateEvent) -> bool {
    match event {
        GateEvent::Session(SessionLookup::Found(text)) => uuid_parsed(text@).is_some(),
        _ => false,
    }
}

/// The auth gate admits only through the registry: whatever the events, a
/// request is admitted in one step only from `UserLoaded`, which is reached
/// only from `SessionResolved`, which is reached only on a registry entry
/// that names a user. A valid signature alone admits nothing.
pub proof fn lemma_admission_needs_session(state: GateState, event: GateEvent)
    ensures
        gate_next(state, event) is Admitted ==> state is Admitted || state is UserLoaded,
        gate_next(state, event) is UserLoaded ==> state is UserLoaded || state is SessionResolved,
        gate_next(state, event) is SessionResolved ==> state is SessionResolved || (state
            is TokenVerified && names_user(event)),
{
}

/// The principal of a request is the user that the registry names for the
/// session of its token: the auth gate loads no other.
pub proof fn lemma_principal_is_registered_user(
    session_id: u128,
    user_id: u128,
    event: GateEvent,
    principal: JWTAuthMiddleware,
)
    requires
        gate_next(GateState::SessionResolved { session_id, user_id }, event) == (
        GateState::UserLoaded { principal }),
    ensures
        principal.user.id == user_id,
        principal.accesses_token_uuid == session_id,
{
}

/// The four causes of a rejected credential answer alike: an absent token, a
/// bad token, an absent session and a missing user are all 401.
pub proof fn lemma_uniform_rejection()
    ensures
        status_of(rejection_kind(Rejection::NotLoggedIn)) == 401,
        status_of(rejection_kind(Rejection::InvalidToken)) == 401,
        status_of(rejection_kind(Rejection::SessionExpired)) == 401,
        status_of(rejection_kind(Rejection::UserGone)) == 401,
{
}

} // verus!
