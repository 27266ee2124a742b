use books::gate::{
    auth, auth_admin, auth_author_worker_admin, auth_roles, examination_auth, extract_token,
    gate_begin, gate_command, gate_step, gate_verify, GateCommand, GateEvent,
    GateState, JWTAuthMiddleware, Rejection,
};
use books::registry::SessionLookup;
use books::response::ErrorKind;
use books::role::{role_in, UserRole};
use books::store::UserLookup;
use books::text::{contains_text, has_prefix};
use books::token::{TokenDetails, TokenError};
use books::amount::Amount;
use books::user::User;

fn user_with(role: UserRole) -> User {
    User {
        id: 42,
        first_name: "Ann".to_string(),
        last_name: "Lee".to_string(),
        middle_name: None,
        age: 30,
        email: "a@b.com".to_string(),
        password: "digest".to_string(),
        biography: None,
        file: String::new(),
        verified: true,
        role,
        balance: Amount::zero(),
        rating: Amount::zero(),
        created_at: 1,
        updated_at: 2,
    }
}

fn loaded(role: UserRole) -> GateState {
    GateState::UserLoaded {
        principal: JWTAuthMiddleware { user: user_with(role), accesses_token_uuid: 9 },
    }
}

fn rejection_of(state: GateState) -> Rejection {
    match state {
        GateState::Rejected { rejection } => rejection,
        other => panic!("expected a rejection, got {:?}", other),
    }
}

fn verified(session_id: u128) -> Result<TokenDetails, TokenError> {
    Ok(TokenDetails { token: None, token_uuid: session_id, user_id: 1, expires_in: None })
}

#[test]
fn cookie_is_preferred_to_the_header() {
    assert_eq!(extract_token(Some("abc"), Some("Bearer xyz")), Some("abc".to_string()));
    assert_eq!(extract_token(Some("abc"), None), Some("abc".to_string()));
    assert_eq!(extract_token(Some(""), Some("Bearer xyz")), Some(String::new()));
}

#[test]
fn bearer_header_is_the_fallback() {
    assert_eq!(extract_token(None, Some("Bearer xyz")), Some("xyz".to_string()));
    assert_eq!(extract_token(None, Some("Bearer ")), Some(String::new()));
    assert_eq!(extract_token(None, Some("Bearer a b")), Some("a b".to_string()));
}

#[test]
fn header_of_another_scheme_carries_no_token() {
    assert_eq!(extract_token(None, Some("Basic xyz")), None);
    assert_eq!(extract_token(None, Some("bearer xyz")), None);
    assert_eq!(extract_token(None, Some("Bearer")), None);
    assert_eq!(extract_token(None, Some("")), None);
    assert_eq!(extract_token(None, None), None);
}

#[test]
fn prefix_is_compared_by_characters() {
    assert!(has_prefix("Bearer x", "Bearer "));
    assert!(has_prefix("abc", ""));
    assert!(has_prefix("", ""));
    assert!(has_prefix("héllo", "hé"));
    assert!(!has_prefix("ab", "abc"));
    assert!(!has_prefix("abd", "abc"));
    assert!(!has_prefix("", "a"));
}

#[test]
fn request_without_token_is_not_logged_in() {
    assert_eq!(rejection_of(gate_begin(None, None)), Rejection::NotLoggedIn);
    assert_eq!(rejection_of(gate_begin(None, Some("Token x"))), Rejection::NotLoggedIn);
    match gate_begin(None, Some("Bearer tok")) {
        GateState::TokenExtracted { token } => assert_eq!(token, "tok"),
        other => panic!("expected a token, got {:?}", other),
    }
}

#[test]
fn verification_outcome_decides_the_second_step() {
    let extracted = || GateState::TokenExtracted { token: "t".to_string() };
    match gate_step(extracted(), GateEvent::Verification(verified(5))) {
        GateState::TokenVerified { session_id } => assert_eq!(session_id, 5),
        other => panic!("expected a verified token, got {:?}", other),
    }
    for error in [TokenError::InvalidToken, TokenError::KeyRejected, TokenError::SigningFailed, TokenError::ExpiryOutOfRange] {
        let next = gate_step(extracted(), GateEvent::Verification(Err(error)));
        assert_eq!(rejection_of(next), Rejection::InvalidToken);
    }
    let next = gate_step(extracted(), GateEvent::Verification(Err(TokenError::KeyEncoding)));
    assert_eq!(rejection_of(next), Rejection::KeyFailure);
}

#[test]
fn registry_reply_decides_the_third_step() {
    let verified_state = || GateState::TokenVerified { session_id: 5 };
    let found = SessionLookup::Found("00000000-0000-0000-0000-00000000002a".to_string());
    match gate_step(verified_state(), GateEvent::Session(found)) {
        GateState::SessionResolved { session_id, user_id } => {
            assert_eq!(session_id, 5);
            assert_eq!(user_id, 42);
        }
        other => panic!("expected a resolved session, got {:?}", other),
    }
    let next = gate_step(verified_state(), GateEvent::Session(SessionLookup::Absent));
    assert_eq!(rejection_of(next), Rejection::SessionExpired);
    let next = gate_step(verified_state(), GateEvent::Session(SessionLookup::Failed));
    assert_eq!(rejection_of(next), Rejection::RegistryFailure);
    assert_eq!(Rejection::RegistryFailure.kind().status_code(), 500);
    let next = gate_step(verified_state(), GateEvent::Session(SessionLookup::Unreachable));
    assert_eq!(rejection_of(next), Rejection::RegistryUnreachable);
    let next = gate_step(
        verified_state(),
        GateEvent::Session(SessionLookup::Found("forty-two".to_string())),
    );
    assert_eq!(rejection_of(next), Rejection::MalformedSession);
}

#[test]
fn store_reply_decides_the_fourth_step() {
    let resolved = || GateState::SessionResolved { session_id: 5, user_id: 42 };
    match gate_step(resolved(), GateEvent::Account(UserLookup::Found(user_with(UserRole::User)))) {
        GateState::UserLoaded { principal } => {
            assert_eq!(principal.accesses_token_uuid, 5);
            assert_eq!(principal.user.id, 42);
        }
        other => panic!("expected a loaded user, got {:?}", other),
    }
    let mut other = user_with(UserRole::Admin);
    other.id = 43;
    let next = gate_step(resolved(), GateEvent::Account(UserLookup::Found(other)));
    assert_eq!(rejection_of(next), Rejection::StoreFailure);
    let next = gate_step(resolved(), GateEvent::Account(UserLookup::Absent));
    assert_eq!(rejection_of(next), Rejection::UserGone);
    let next = gate_step(resolved(), GateEvent::Account(UserLookup::Failed));
    assert_eq!(rejection_of(next), Rejection::StoreFailure);
}

#[test]
fn user_on_admin_route_is_forbidden_not_unauthenticated() {
    let rejection = rejection_of(auth_admin(loaded(UserRole::User)));
    assert_eq!(rejection, Rejection::Forbidden);
    assert_eq!(rejection.kind(), ErrorKind::Forbidden);
    assert_eq!(rejection.kind().status_code(), 403);
}

#[test]
fn admin_route_admits_admins_only() {
    assert!(matches!(auth_admin(loaded(UserRole::Admin)), GateState::Admitted { .. }));
    for role in [UserRole::User, UserRole::Author, UserRole::Worker, UserRole::Seller] {
        assert_eq!(rejection_of(auth_admin(loaded(role))), Rejection::Forbidden);
    }
}

#[test]
fn book_routes_admit_authors_workers_and_admins() {
    for role in [UserRole::Author, UserRole::Worker, UserRole::Admin] {
        assert!(matches!(auth_author_worker_admin(loaded(role)), GateState::Admitted { .. }));
    }
    for role in [UserRole::User, UserRole::Seller] {
        assert_eq!(rejection_of(auth_author_worker_admin(loaded(role))), Rejection::Forbidden);
    }
}

#[test]
fn route_without_roles_admits_any_principal() {
    for role in [UserRole::User, UserRole::Author, UserRole::Worker, UserRole::Admin, UserRole::Seller] {
        assert!(matches!(auth(loaded(role)), GateState::Admitted { .. }));
    }
}

#[test]
fn empty_role_set_admits_nobody() {
    assert_eq!(rejection_of(auth_roles(loaded(UserRole::Admin), Vec::new())), Rejection::Forbidden);
}

#[test]
fn role_check_leaves_other_states_alone() {
    let next = auth_admin(GateState::Rejected { rejection: Rejection::SessionExpired });
    assert_eq!(rejection_of(next), Rejection::SessionExpired);
    assert!(matches!(
        auth_admin(GateState::TokenVerified { session_id: 5 }),
        GateState::TokenVerified { session_id: 5 }
    ));
    assert!(matches!(auth(GateState::Unauthenticated), GateState::Unauthenticated));
}

#[test]
fn unexpected_events_leave_the_state_alone() {
    let next = gate_step(GateState::TokenVerified { session_id: 5 }, GateEvent::Account(UserLookup::Absent));
    assert!(matches!(next, GateState::TokenVerified { session_id: 5 }));
    let next = gate_step(GateState::Unauthenticated, GateEvent::Session(SessionLookup::Absent));
    assert!(matches!(next, GateState::Unauthenticated));
    let next = gate_step(
        GateState::Rejected { rejection: Rejection::UserGone },
        GateEvent::Verification(verified(1)),
    );
    assert_eq!(rejection_of(next), Rejection::UserGone);
    let next = gate_step(loaded(UserRole::User), GateEvent::Session(SessionLookup::Absent));
    assert!(matches!(next, GateState::UserLoaded { .. }));
}

#[test]
fn commands_follow_the_states() {
    assert!(matches!(gate_command(&GateState::Unauthenticated), GateCommand::ReadRequest));
    assert!(matches!(
        gate_command(&GateState::TokenExtracted { token: "t".to_string() }),
        GateCommand::VerifyToken
    ));
    match gate_command(&GateState::TokenVerified { session_id: 0xab }) {
        GateCommand::ReadSession { key } => assert_eq!(key, "00000000-0000-0000-0000-0000000000ab"),
        other => panic!("expected a read, got {:?}", other),
    }
    assert!(matches!(
        gate_command(&GateState::SessionResolved { session_id: 1, user_id: 42 }),
        GateCommand::LoadUser { user_id: 42 }
    ));
    assert!(matches!(gate_command(&loaded(UserRole::User)), GateCommand::CheckRoles));
    assert!(matches!(gate_command(&auth(loaded(UserRole::User))), GateCommand::Forward));
}

#[test]
fn rejections_answer_with_status_and_message() {
    let cases = [
        (Rejection::NotLoggedIn, 401, "You are not logged in, please provide token"),
        (Rejection::InvalidToken, 401, "Invalid token"),
        (Rejection::SessionExpired, 401, "Token is invalid or session has expired"),
        (Rejection::MalformedSession, 401, "Invalid token"),
        (Rejection::UserGone, 401, "The user belonging to this token no longer exists"),
        (Rejection::Forbidden, 403, "You do not have permission to access this resource"),
        (Rejection::KeyFailure, 500, "Token verification is not configured"),
        (Rejection::RegistryUnreachable, 500, "Redis error"),
        (Rejection::RegistryFailure, 500, "Redis error"),
        (Rejection::StoreFailure, 500, "Error fetching user from database"),
    ];
    for (rejection, status, message) in cases {
        assert_eq!(rejection.kind().status_code(), status);
        assert_eq!(rejection.message(), message);
        match gate_command(&GateState::Rejected { rejection }) {
            GateCommand::Respond { status: answered, message: text } => {
                assert_eq!(answered, status);
                assert_eq!(text, message);
            }
            other => panic!("expected a response, got {:?}", other),
        }
    }
}

#[test]
fn examination_rejects_what_does_not_verify() {
    let state = examination_auth(None, None, "aGVsbG8=".to_string());
    assert_eq!(rejection_of(state), Rejection::NotLoggedIn);
    let state = examination_auth(Some("a.b.c"), None, "aGVsbG8=".to_string());
    assert_eq!(rejection_of(state), Rejection::InvalidToken);
    let state = examination_auth(None, Some("Bearer a.b.c"), "***".to_string());
    assert_eq!(rejection_of(state), Rejection::KeyFailure);
}

#[test]
fn verification_step_leaves_other_states_alone() {
    let next = gate_verify(GateState::Unauthenticated, "***".to_string());
    assert!(matches!(next, GateState::Unauthenticated));
    let next = gate_verify(GateState::TokenVerified { session_id: 3 }, "***".to_string());
    assert!(matches!(next, GateState::TokenVerified { session_id: 3 }));
}

#[test]
fn role_membership() {
    let roles = vec![UserRole::Author, UserRole::Worker, UserRole::Admin];
    assert!(role_in(&roles, UserRole::Author));
    assert!(role_in(&roles, UserRole::Admin));
    assert!(!role_in(&roles, UserRole::User));
    assert!(!role_in(&roles, UserRole::Seller));
    assert!(!role_in(&Vec::new(), UserRole::Admin));
}

#[test]
fn occurrences_are_found_anywhere() {
    assert!(contains_text("ERROR: Duplicate entry 'x' for key", "Duplicate entry"));
    assert!(contains_text("Duplicate entry", "Duplicate entry"));
    assert!(contains_text("xDuplicate entry", "Duplicate entry"));
    assert!(contains_text("abc", ""));
    assert!(contains_text("", ""));
    assert!(contains_text("héllo wörld", "wör"));
    assert!(!contains_text("Duplicate entr", "Duplicate entry"));
    assert!(!contains_text("duplicate entry", "Duplicate entry"));
    assert!(!contains_text("", "a"));
    assert!(!contains_text("ab", "ba"));
}

#[test]
fn roles_have_their_names() {
    assert_eq!(UserRole::User.name(), "User");
    assert_eq!(UserRole::Author.name(), "Author");
    assert_eq!(UserRole::Worker.name(), "Worker");
    assert_eq!(UserRole::Admin.name(), "Admin");
    assert_eq!(UserRole::Seller.name(), "Seller");
}
