use api::error::{ApiError, ApiErrorType};
use api::routes::auth::{mfa_secret, require_token, require_token_pair, MfaMethodType, TOTP_SECRET};
use api::routes::auth::link::LinkMfaRequest;
use api::routes::auth::update::UpdateResponse;

#[test]
fn session_without_token_is_refused() {
    assert!(matches!(require_token(Some("abc")), Ok("abc")));
    assert!(matches!(require_token::<&str>(None), Err(ApiErrorType::Api(ApiError::TokenInvalid))));
}

#[test]
fn refresh_needs_both_tokens() {
    assert!(matches!(require_token_pair(Some(1), Some(2)), Ok((1, 2))));
    assert!(matches!(require_token_pair(None, Some(2)), Err(ApiErrorType::Api(ApiError::TokenInvalid))));
    assert!(matches!(require_token_pair(Some(1), None), Err(ApiErrorType::Api(ApiError::TokenInvalid))));
}

#[test]
fn totp_methods_get_the_fixed_secret() {
    let request = LinkMfaRequest::new(MfaMethodType::Totp);
    assert_eq!(mfa_secret(request.mfa_method()), "salkdjaskljd");
    assert_eq!(TOTP_SECRET, "salkdjaskljd");
}

#[test]
fn update_response_holds_the_user() {
    let response = UpdateResponse::new("carol");
    assert_eq!(*response.user(), "carol");
}
