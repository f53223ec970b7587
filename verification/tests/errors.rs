use api::error::{
    ApiError, ApiErrorType, AuthError, CredentialError, ErrorCode, ErrorKind, ErrorResponse,
    UserError,
};

fn answer(e: &ApiErrorType) -> (u16, String, String) {
    (e.status_code(), e.error_code(), e.message())
}

#[test]
fn user_errors_answer_with_their_status_code_and_message() {
    let cases = vec![
        (UserError::UserExists, 409, "AUTH/USER_EXISTS", "The user is already registered!"),
        (UserError::UserAuthenticated, 403, "AUTH/USER_AUTHENTICATED", "The user is already authenticated!"),
        (UserError::UserNotFound, 404, "AUTH/USER_NOT_FOUND", "The user doesn't exist or couldn't be found!"),
        (UserError::Unknown("boom".to_string()), 500, "ERROR/UNKNOWN", "boom"),
    ];
    for (e, status, code, message) in cases {
        assert_eq!(e.status_code(), status);
        assert_eq!(e.error_code(), code);
        assert_eq!(e.message(), message);
    }
}

#[test]
fn credential_errors_answer_with_their_status_code_and_message() {
    let cases = vec![
        (CredentialError::CredentialIncorrect, 401, "AUTH/CREDENTIAL_INCORRECT", "The credentials are incorrect!"),
        (CredentialError::OauthCodeIncorrect, 401, "AUTH/OAUTH_CODE_INCORRECT", "Failed to connect to auth provider!"),
        (CredentialError::CredentialDisabled, 403, "AUTH/CREDENTIAL_DISABLED", "The credential is disabled!"),
        (CredentialError::CredentialAssociated, 409, "AUTH/CREDENTIAL_ASSOCIATED", "The authentication method is already associated!"),
        (CredentialError::CredentialCannotRemove, 409, "AUTH/CREDENTIAL_CANNOT_REMOVE", "Cannot remove the only associated authentication method!"),
        (CredentialError::CredentialRequired, 401, "AUTH/CREDENTIAL_REQUIRED", "A credential is required to perform this operation!"),
        (CredentialError::Unknown("lost".to_string()), 500, "ERROR/UNKNOWN", "lost"),
    ];
    for (e, status, code, message) in cases {
        assert_eq!(e.status_code(), status);
        assert_eq!(e.error_code(), code);
        assert_eq!(e.message(), message);
    }
}

#[test]
fn api_errors_answer_with_their_status_code_and_message() {
    let cases = vec![
        (ApiError::ResourceNotFound, 404, "API/RESOURCE_NOT_FOUND", "The resource couldn't be found ot doesn't exist!"),
        (ApiError::TokenInvalid, 401, "API/TOKEN_INVALID", "The token is invalid or missing!"),
        (ApiError::Unknown("odd".to_string()), 500, "ERROR/UNKNOWN", "odd"),
    ];
    for (e, status, code, message) in cases {
        assert_eq!(e.status_code(), status);
        assert_eq!(e.error_code(), code);
        assert_eq!(e.message(), message);
    }
}

#[test]
fn wrapping_an_error_keeps_its_answer() {
    let wrapped = ApiErrorType::new(CredentialError::CredentialAssociated);
    assert!(matches!(wrapped, ApiErrorType::Credential(CredentialError::CredentialAssociated)));
    assert_eq!(
        answer(&wrapped),
        (409, "AUTH/CREDENTIAL_ASSOCIATED".to_string(), "The authentication method is already associated!".to_string())
    );
    let wrapped = ApiErrorType::new(UserError::Unknown("kept".to_string()));
    assert_eq!(answer(&wrapped), (500, "ERROR/UNKNOWN".to_string(), "kept".to_string()));
}

#[test]
fn error_response_carries_code_and_message() {
    let response = ErrorResponse::from_error(&ApiErrorType::new(ApiError::ResourceNotFound));
    assert_eq!(response.code, "API/RESOURCE_NOT_FOUND");
    assert_eq!(response.message, "The resource couldn't be found ot doesn't exist!");
}

#[test]
fn store_failures_map_to_service_errors() {
    let cases = vec![
        (AuthError::CredentialDisabled, 403, "AUTH/CREDENTIAL_DISABLED", "The credential is disabled!"),
        (AuthError::NotFound("user".to_string()), 404, "AUTH/USER_NOT_FOUND", "The user doesn't exist or couldn't be found!"),
        (AuthError::Exists("user".to_string()), 409, "AUTH/USER_EXISTS", "The user is already registered!"),
        (AuthError::CredentialCannotDelete, 409, "AUTH/CREDENTIAL_CANNOT_REMOVE", "Cannot remove the only associated authentication method!"),
        (AuthError::Hash, 500, "ERROR/UNKNOWN", "Something went wrong!"),
        (AuthError::Database("down".to_string()), 500, "ERROR/UNKNOWN", "Something went wrong!"),
        (AuthError::Unknown("weird".to_string()), 500, "ERROR/UNKNOWN", "weird"),
        (AuthError::Invalid("bad email".to_string()), 500, "ERROR/UNKNOWN", "bad email"),
    ];
    for (failure, status, code, message) in cases {
        let e = ApiErrorType::from_auth_error(failure);
        assert_eq!(answer(&e), (status, code.to_string(), message.to_string()));
    }
    assert!(matches!(
        ApiErrorType::from_auth_error(AuthError::Hash),
        ApiErrorType::Credential(CredentialError::Unknown(_))
    ));
    assert!(matches!(
        ApiErrorType::from_auth_error(AuthError::Invalid("x".to_string())),
        ApiErrorType::User(UserError::Unknown(_))
    ));
}

#[test]
fn outside_failures_map_to_service_errors() {
    let uuid_failure = uuid::Uuid::parse_str("not a uuid").unwrap_err();
    let e = ApiErrorType::from_uuid_error(uuid_failure);
    assert!(matches!(e, ApiErrorType::User(UserError::UserNotFound)));

    let url_failure = oauth2::url::Url::parse("not a url").unwrap_err();
    let e = ApiErrorType::from_url_parse_error(url_failure);
    assert_eq!(answer(&e), (500, "ERROR/UNKNOWN".to_string(), "The URL is incorrect or invalid!".to_string()));
    assert!(matches!(e, ApiErrorType::Api(ApiError::Unknown(_))));

}
