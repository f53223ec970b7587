use api::error::{ApiError, ApiErrorType, CredentialError, ErrorKind, UserError};
use api::middleware::auth::{
    AllowAuthenticated, AuthenticationMiddleware, DenyAuthenticated, IdentityState,
    RequireAuthenticated,
};
use api::middleware::database::require_pool;

const ID: &str = "67e55044-10b1-426f-9247-bb680e5fe0c8";
const ID_VALUE: u128 = 0x67e5504410b1426f9247bb680e5fe0c8;

#[test]
fn anonymous_requests_are_allowed_without_a_user() {
    let r = AllowAuthenticated::<()>::identify(IdentityState::Anonymous, false);
    assert!(matches!(r, Ok(None)));
    let r = AllowAuthenticated::<()>::identify(IdentityState::Anonymous, true);
    assert!(matches!(r, Ok(None)));
}

#[test]
fn anonymous_requests_are_refused_where_a_user_is_required() {
    let r = RequireAuthenticated::<()>::identify(IdentityState::Anonymous, true);
    assert!(matches!(r, Err(ApiErrorType::Credential(CredentialError::CredentialIncorrect))));
}

#[test]
fn identity_holding_a_uuid_is_looked_up_by_it() {
    let r = AllowAuthenticated::<()>::identify(IdentityState::Known(ID.to_string()), true);
    assert!(matches!(r, Ok(Some(v)) if v == ID_VALUE));
    let r = RequireAuthenticated::<()>::identify(IdentityState::Known(ID.to_string()), true);
    assert!(matches!(r, Ok(v) if v == ID_VALUE));
}

#[test]
fn identity_not_holding_a_uuid_names_no_user() {
    let r = RequireAuthenticated::<()>::identify(IdentityState::Known("alice".to_string()), true);
    assert!(matches!(r, Err(ApiErrorType::User(UserError::UserNotFound))));
    let r = AllowAuthenticated::<()>::identify(IdentityState::Known("".to_string()), true);
    assert!(matches!(r, Err(ApiErrorType::User(UserError::UserNotFound))));
}

#[test]
fn missing_pool_is_reported_before_the_identity() {
    let r = RequireAuthenticated::<()>::identify(IdentityState::Known(ID.to_string()), false);
    match r {
        Err(e) => {
            assert!(matches!(e, ApiErrorType::Api(ApiError::Unknown(_))));
            assert_eq!(e.message(), "Something went wrong!");
        }
        Ok(_) => panic!("a request without a pool was admitted"),
    }
}

#[test]
fn unreadable_identity_fails_to_authenticate() {
    let r = AllowAuthenticated::<()>::identify(IdentityState::Unreadable, true);
    match r {
        Err(e) => {
            assert_eq!(e.status_code(), 500);
            assert_eq!(e.message(), "Failed to authenticate!");
        }
        Ok(_) => panic!("an unreadable identity was admitted"),
    }
}

#[test]
fn deny_authenticated_refuses_signed_in_requests() {
    assert!(matches!(DenyAuthenticated::check(false), Ok(_)));
    assert!(matches!(
        DenyAuthenticated::check(true),
        Err(ApiErrorType::User(UserError::UserAuthenticated))
    ));
}

#[test]
fn require_authenticated_holds_its_user() {
    let extractor = RequireAuthenticated::from_user(42u32);
    assert_eq!(*extractor.user(), 42);
    let _middleware = AuthenticationMiddleware::new();
}

#[test]
fn database_needs_a_pool() {
    assert!(matches!(require_pool(Some(3u8)), Ok(3)));
    match require_pool::<u8>(None) {
        Err(e) => assert_eq!(e.message(), "Something went wrong!"),
        Ok(_) => panic!("a request without a pool got one"),
    }
}
