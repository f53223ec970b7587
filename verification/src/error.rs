use vstd::prelude::*;

verus! {

/// HTTP status 401 (unauthorized).
pub const STATUS_UNAUTHORIZED: u16 = 401;
/// HTTP status 403 (forbidden).
pub const STATUS_FORBIDDEN: u16 = 403;
/// HTTP status 404 (not found).
pub const STATUS_NOT_FOUND: u16 = 404;
/// HTTP status 409 (conflict).
pub const STATUS_CONFLICT: u16 = 409;
/// HTTP status 500 (internal server error).
pub const STATUS_INTERNAL_SERVER_ERROR: u16 = 500;

/// What an error of this service is, as contracts see it: its kind and, for the
/// `Unknown` kinds, the text it carries.
pub enum ErrorView {
    UserExists,
    UserAuthenticated,
    UserNotFound,
    UserUnknown(Seq<char>),
    CredentialIncorrect,
    OauthCodeIncorrect,
    CredentialDisabled,
    CredentialAssociated,
    CredentialCannotRemove,
    CredentialRequired,
    CredentialUnknown(Seq<char>),
    ResourceNotFound,
    TokenInvalid,
    ApiUnknown(Seq<char>),
}

impl ErrorView {
    /// The HTTP status that answers the error.
    pub open spec fn status(self) -> u16 {
        match self {
            ErrorView::UserExists => STATUS_CONFLICT,
            ErrorView::UserAuthenticated => STATUS_FORBIDDEN,
            ErrorView::UserNotFound => STATUS_NOT_FOUND,
            ErrorView::UserUnknown(_) => STATUS_INTERNAL_SERVER_ERROR,
            ErrorView::CredentialIncorrect => STATUS_UNAUTHORIZED,
            ErrorView::OauthCodeIncorrect => STATUS_UNAUTHORIZED,
            ErrorView::CredentialRequired => STATUS_UNAUTHORIZED,
            ErrorView::CredentialAssociated => STATUS_CONFLICT,
            ErrorView::CredentialCannotRemove => STATUS_CONFLICT,
            ErrorView::CredentialDisabled => STATUS_FORBIDDEN,
            ErrorView::CredentialUnknown(_) => STATUS_INTERNAL_SERVER_ERROR,
            ErrorView::ResourceNotFound => STATUS_NOT_FOUND,
            ErrorView::TokenInvalid => STATUS_UNAUTHORIZED,
            ErrorView::ApiUnknown(_) => STATUS_INTERNAL_SERVER_ERROR,
        }
    }

    /// The machine-readable code sent in the error body.
    pub open spec fn code(self) -> Seq<char> {
        match self {
            ErrorView::UserNotFound => "AUTH/USER_NOT_FOUND"@,
            ErrorView::UserAuthenticated => "AUTH/USER_AUTHENTICATED"@,
            ErrorView::UserExists => "AUTH/USER_EXISTS"@,
            ErrorView::UserUnknown(_) => "ERROR/UNKNOWN"@,
            ErrorView::CredentialAssociated => "AUTH/CREDENTIAL_ASSOCIATED"@,
            ErrorView::CredentialCannotRemove => "AUTH/CREDENTIAL_CANNOT_REMOVE"@,
            ErrorView::CredentialDisabled => "AUTH/CREDENTIAL_DISABLED"@,
            ErrorView::CredentialIncorrect => "AUTH/CREDENTIAL_INCORRECT"@,
            ErrorView::CredentialRequired => "AUTH/CREDENTIAL_REQUIRED"@,
            ErrorView::OauthCodeIncorrect => "AUTH/OAUTH_CODE_INCORRECT"@,
            ErrorView::CredentialUnknown(_) => "ERROR/UNKNOWN"@,
            ErrorView::ResourceNotFound => "API/RESOURCE_NOT_FOUND"@,
            ErrorView::TokenInvalid => "API/TOKEN_INVALID"@,
            ErrorView::ApiUnknown(_) => "ERROR/UNKNOWN"@,
        }
    }

    /// The human-readable message sent in the error body.
    pub open spec fn message(self) -> Seq<char> {
        match self {
            ErrorView::UserExists => "The user is already registered!"@,
            ErrorView::UserAuthenticated => "The user is already authenticated!"@,
            ErrorView::UserNotFound => "The user doesn't exist or couldn't be found!"@,
            ErrorView::UserUnknown(m) => m,
            ErrorView::CredentialIncorrect => "The credentials are incorrect!"@,
            ErrorView::OauthCodeIncorrect => "Failed to connect to auth provider!"@,
            ErrorView::CredentialDisabled => "The credential is disabled!"@,
            ErrorView::CredentialAssociated => "The authentication method is already associated!"@,
            ErrorView::CredentialCannotRemove => "Cannot remove the only associated authentication method!"@,
            ErrorView::CredentialRequired => "A credential is required to perform this operation!"@,
            ErrorView::CredentialUnknown(m) => m,
            ErrorView::ResourceNotFound => "The resource couldn't be found ot doesn't exist!"@,
            ErrorView::TokenInvalid => "The token is invalid or missing!"@,
            ErrorView::ApiUnknown(m) => m,
        }
    }
}

/// The view of a result whose error is a service error.
pub open spec fn result_view<T>(r: Result<T, ApiErrorType>) -> Result<T, ErrorView> {
    match r {
        Ok(v) => Ok(v),
        Err(e) => Err(e@),
    }
}

/// Whether an error is one of the `Unknown` kinds, which carry their own text.
pub open spec fn is_unknown(e: ErrorView) -> bool {
    e is UserUnknown || e is CredentialUnknown || e is ApiUnknown
}

/// Every error is answered with one of five statuses; exactly the unknown
/// errors are answered with 500, all with the code `ERROR/UNKNOWN`, and their
/// message is the text they carry.
pub proof fn lemma_error_answers(e: ErrorView)
    ensures
        e.status() == STATUS_UNAUTHORIZED || e.status() == STATUS_FORBIDDEN || e.status() == STATUS_NOT_FOUND
            || e.status() == STATUS_CONFLICT || e.status() == STATUS_INTERNAL_SERVER_ERROR,
        is_unknown(e) <==> e.status() == STATUS_INTERNAL_SERVER_ERROR,
        is_unknown(e) ==> e.code() == "ERROR/UNKNOWN"@,
        e matches ErrorView::UserUnknown(m) ==> e.message() == m,
        e matches ErrorView::CredentialUnknown(m) ==> e.message() == m,
        e matches ErrorView::ApiUnknown(m) ==> e.message() == m,
{
}

proof fn lemma_code_shape(e: ErrorView)
    ensures
        e.code().len() == match e {
            ErrorView::UserNotFound => 19nat,
            ErrorView::UserAuthenticated => 23,
            ErrorView::UserExists => 16,
            ErrorView::CredentialAssociated => 26,
            ErrorView::CredentialCannotRemove => 29,
            ErrorView::CredentialDisabled => 24,
            ErrorView::CredentialRequired => 24,
            ErrorView::CredentialIncorrect => 25,
            ErrorView::OauthCodeIncorrect => 25,
            ErrorView::ResourceNotFound => 22,
            ErrorView::TokenInvalid => 17,
            _ => 13,
        },
        e is CredentialDisabled ==> e.code()[16] == 'D',
        e is CredentialRequired ==> e.code()[16] == 'R',
        e is CredentialIncorrect ==> e.code()[5] == 'C',
        e is OauthCodeIncorrect ==> e.code()[5] == 'O',
{
    match e {
        ErrorView::UserNotFound => reveal_strlit("AUTH/USER_NOT_FOUND"),
        ErrorView::UserAuthenticated => reveal_strlit("AUTH/USER_AUTHENTICATED"),
        ErrorView::UserExists => reveal_strlit("AUTH/USER_EXISTS"),
        ErrorView::CredentialAssociated => reveal_strlit("AUTH/CREDENTIAL_ASSOCIATED"),
        ErrorView::CredentialCannotRemove => reveal_strlit("AUTH/CREDENTIAL_CANNOT_REMOVE"),
        ErrorView::CredentialDisabled => reveal_strlit("AUTH/CREDENTIAL_DISABLED"),
        ErrorView::CredentialRequired => reveal_strlit("AUTH/CREDENTIAL_REQUIRED"),
        ErrorView::CredentialIncorrect => reveal_strlit("AUTH/CREDENTIAL_INCORRECT"),
        ErrorView::OauthCodeIncorrect => reveal_strlit("AUTH/OAUTH_CODE_INCORRECT"),
        ErrorView::ResourceNotFound => reveal_strlit("API/RESOURCE_NOT_FOUND"),
        ErrorView::TokenInvalid => reveal_strlit("API/TOKEN_INVALID"),
        _ => reveal_strlit("ERROR/UNKNOWN"),
    }
}

/// The code tells the errors apart: two errors with the same code are the
/// same kind, and only the unknown errors share one.
pub proof fn lemma_codes_identify_kinds(a: ErrorView, b: ErrorView)
    requires
        a.code() == b.code(),
    ensures
        is_unknown(a) == is_unknown(b),
        !is_unknown(a) ==> a == b,
{
    lemma_code_shape(a);
    lemma_code_shape(b);
}

/// Errors about the user a request concerns.
pub enum UserError {
    UserExists,
    UserAuthenticated,
    UserNotFound,
    Unknown(String),
}

/// Errors about the credentials a request presents.
pub enum CredentialError {
    CredentialIncorrect,
    OauthCodeIncorrect,
    CredentialDisabled,
    CredentialAssociated,
    CredentialCannotRemove,
    CredentialRequired,
    Unknown(String),
}

/// Errors about the resource a request names.
pub enum ApiError {
    ResourceNotFound,
    TokenInvalid,
    Unknown(String),
}

impl View for UserError {
    type V = ErrorView;

    open spec fn view(&self) -> ErrorView {
        match self {
            UserError::UserExists => ErrorView::UserExists,
            UserError::UserAuthenticated => ErrorView::UserAuthenticated,
            UserError::UserNotFound => ErrorView::UserNotFound,
            UserError::Unknown(m) => ErrorView::UserUnknown(m@),
        }
    }
}

impl View for CredentialError {
    type V = ErrorView;

    open spec fn view(&self) -> ErrorView {
        match self {
            CredentialError::CredentialIncorrect => ErrorView::CredentialIncorrect,
            CredentialError::OauthCodeIncorrect => ErrorView::OauthCodeIncorrect,
            CredentialError::CredentialDisabled => ErrorView::CredentialDisabled,
            CredentialError::CredentialAssociated => ErrorView::CredentialAssociated,
            CredentialError::CredentialCannotRemove => ErrorView::CredentialCannotRemove,
            CredentialError::CredentialRequired => ErrorView::CredentialRequired,
            CredentialError::Unknown(m) => ErrorView::CredentialUnknown(m@),
        }
    }
}

impl View for ApiError {
    type V = ErrorView;

    open spec fn view(&self) -> ErrorView {
        match self {
            ApiError::ResourceNotFound => ErrorView::ResourceNotFound,
            ApiError::TokenInvalid => ErrorView::TokenInvalid,
            ApiError::Unknown(m) => ErrorView::ApiUnknown(m@),
        }
    }
}

/// Any error of the service: one of the three kinds.
pub enum ApiErrorType {
    User(UserError),
    Credential(CredentialError),
    Api(ApiError),
}

impl View for ApiErrorType {
    type V = ErrorView;

    open spec fn view(&self) -> ErrorView {
        match self {
            ApiErrorType::User(e) => e@,
            ApiErrorType::Credential(e) => e@,
            ApiErrorType::Api(e) => e@,
        }
    }
}

/// A value that has an error code.
pub trait ErrorCode: View<V = ErrorView> {
    /// The machine-readable code of the error.
    fn error_code(&self) -> (code: String)
        ensures
            code@ == self@.code(),
    ;
}

/// An error kind that the service can answer with.
pub trait ErrorKind: ErrorCode + Sized {
    /// The HTTP status that answers the error.
    fn status_code(&self) -> (status: u16)
        ensures
            status == self@.status(),
    ;

    /// The human-readable message of the error.
    fn message(&self) -> (text: String)
        ensures
            text@ == self@.message(),
    ;

    /// The same error, as an [`ApiErrorType`].
    fn into_error(self) -> (error: ApiErrorType)
        ensures
            error@ == self@,
    ;
}

fn owned(s: &str) -> (r: String)
    ensures
        r@ == s@,
{
    s.to_owned()
}

impl ErrorCode for UserError {
    fn error_code(&self) -> (code: String) {
        match self {
            UserError::UserNotFound => owned("AUTH/USER_NOT_FOUND"),
            UserError::UserAuthenticated => owned("AUTH/USER_AUTHENTICATED"),
            UserError::UserExists => owned("AUTH/USER_EXISTS"),
            UserError::Unknown(_) => owned("ERROR/UNKNOWN"),
        }
    }
}

impl ErrorKind for UserError {
    fn status_code(&self) -> (status: u16) {
        match self {
            UserError::UserExists => STATUS_CONFLICT,
            UserError::UserAuthenticated => STATUS_FORBIDDEN,
            UserError::UserNotFound => STATUS_NOT_FOUND,
            UserError::Unknown(_) => STATUS_INTERNAL_SERVER_ERROR,
        }
    }

    fn message(&self) -> (text: String) {
        match self {
            UserError::UserExists => owned("The user is already registered!"),
            UserError::UserAuthenticated => owned("The user is already authenticated!"),
            UserError::UserNotFound => owned("The user doesn't exist or couldn't be found!"),
            UserError::Unknown(m) => m.clone(),
        }
    }

    fn into_error(self) -> (error: ApiErrorType) {
        ApiErrorType::User(self)
    }
}

impl ErrorCode for CredentialError {
    fn error_code(&self) -> (code: String) {
        match self {
            CredentialError::CredentialAssociated => owned("AUTH/CREDENTIAL_ASSOCIATED"),
            CredentialError::CredentialCannotRemove => owned("AUTH/CREDENTIAL_CANNOT_REMOVE"),
            CredentialError::CredentialDisabled => owned("AUTH/CREDENTIAL_DISABLED"),
            CredentialError::CredentialIncorrect => owned("AUTH/CREDENTIAL_INCORRECT"),
            CredentialError::CredentialRequired => owned("AUTH/CREDENTIAL_REQUIRED"),
            CredentialError::OauthCodeIncorrect => owned("AUTH/OAUTH_CODE_INCORRECT"),
            CredentialError::Unknown(_) => owned("ERROR/UNKNOWN"),
        }
    }
}

impl ErrorKind for CredentialError {
    fn status_code(&self) -> (status: u16) {
        match self {
            CredentialError::CredentialIncorrect
            | CredentialError::CredentialRequired
            | CredentialError::OauthCodeIncorrect => STATUS_UNAUTHORIZED,
            CredentialError::CredentialAssociated
            | CredentialError::CredentialCannotRemove => STATUS_CONFLICT,
            CredentialError::CredentialDisabled => STATUS_FORBIDDEN,
            CredentialError::Unknown(_) => STATUS_INTERNAL_SERVER_ERROR,
        }
    }

    fn message(&self) -> (text: String) {
        match self {
            CredentialError::CredentialIncorrect => owned("The credentials are incorrect!"),
            CredentialError::OauthCodeIncorrect => owned("Failed to connect to auth provider!"),
            CredentialError::CredentialDisabled => owned("The credential is disabled!"),
            CredentialError::CredentialAssociated => owned(
                "The authentication method is already associated!",
            ),
            CredentialError::CredentialCannotRemove => owned(
                "Cannot remove the only associated authentication method!",
            ),
            CredentialError::CredentialRequired => owned(
                "A credential is required to perform this operation!",
            ),
            CredentialError::Unknown(m) => m.clone(),
        }
    }

    fn into_error(self) -> (error: ApiErrorType) {
        ApiErrorType::Credential(self)
    }
}

impl ErrorCode for ApiError {
    fn error_code(&self) -> (code: String) {
        match self {
            ApiError::ResourceNotFound => owned("API/RESOURCE_NOT_FOUND"),
            ApiError::TokenInvalid => owned("API/TOKEN_INVALID"),
            ApiError::Unknown(_) => owned("ERROR/UNKNOWN"),
        }
    }
}

impl ErrorKind for ApiError {
    fn status_code(&self) -> (status: u16) {
        match self {
            ApiError::ResourceNotFound => STATUS_NOT_FOUND,
            ApiError::TokenInvalid => STATUS_UNAUTHORIZED,
            ApiError::Unknown(_) => STATUS_INTERNAL_SERVER_ERROR,
        }
    }

    fn message(&self) -> (text: String) {
        match self {
            ApiError::ResourceNotFound => owned("The resource couldn't be found ot doesn't exist!"),
            ApiError::TokenInvalid => owned("The token is invalid or missing!"),
            ApiError::Unknown(m) => m.clone(),
        }
    }

    fn into_error(self) -> (error: ApiErrorType) {
        ApiErrorType::Api(self)
    }
}

impl ErrorCode for ApiErrorType {
    fn error_code(&self) -> (code: String) {
        match self {
            ApiErrorType::User(e) => e.error_code(),
            ApiErrorType::Credential(e) => e.error_code(),
            ApiErrorType::Api(e) => e.error_code(),
        }
    }
}

impl ErrorKind for ApiErrorType {
    fn status_code(&self) -> (status: u16) {
        match self {
            ApiErrorType::User(e) => e.status_code(),
            ApiErrorType::Credential(e) => e.status_code(),
            ApiErrorType::Api(e) => e.status_code(),
        }
    }

    fn message(&self) -> (text: String) {
        match self {
            ApiErrorType::User(e) => e.message(),
            ApiErrorType::Credential(e) => e.message(),
            ApiErrorType::Api(e) => e.message(),
        }
    }

    fn into_error(self) -> (error: ApiErrorType) {
        self
    }
}

impl ApiErrorType {
    /// Wraps an error of any kind; the wrapped error answers exactly as the kind does.
    pub fn new<K: ErrorKind>(error: K) -> (wrapped: ApiErrorType)
        ensures
            wrapped@ == error@,
    {
        error.into_error()
    }
}

/// The body of an error answer: the error's code and message.
pub struct ErrorResponse {
    pub code: String,
    pub message: String,
}

impl ErrorResponse {
    /// The body that answers `error`.
    pub fn from_error<K: ErrorKind>(error: &K) -> (response: ErrorResponse)
        ensures
            response.code@ == error@.code(),
            response.message@ == error@.message(),
    {
        ErrorResponse { code: error.error_code(), message: error.message() }
    }
}

/// A failure reported by the user store, with the description it carries.
pub enum AuthError {
    CredentialDisabled,
    NotFound(String),
    Exists(String),
    CredentialCannotDelete,
    Hash,
    Database(String),
    Unknown(String),
    Invalid(String),
}

/// The error that answers a failure of the user store.
pub open spec fn auth_error_answer(failure: AuthError) -> ErrorView {
    match failure {
        AuthError::CredentialDisabled => ErrorView::CredentialDisabled,
        AuthError::NotFound(_) => ErrorView::UserNotFound,
        AuthError::Exists(_) => ErrorView::UserExists,
        AuthError::CredentialCannotDelete => ErrorView::CredentialCannotRemove,
        AuthError::Hash => ErrorView::CredentialUnknown("Something went wrong!"@),
        AuthError::Database(_) => ErrorView::CredentialUnknown("Something went wrong!"@),
        AuthError::Unknown(message) => ErrorView::UserUnknown(message@),
        AuthError::Invalid(message) => ErrorView::UserUnknown(message@),
    }
}

#[verifier::external_type_specification]
#[verifier::external_body]
pub struct ExUuidError(uuid::Error);

#[verifier::external_type_specification]
#[verifier::external_body]
pub struct ExUrlParseError(oauth2::url::ParseError);

#[verifier::external_type_specification]
#[verifier::external_body]
pub struct ExPoolError(r2d2::Error);

#[verifier::external_type_specification]
#[verifier::external_body]
pub struct ExBlockingError(actix_web::error::BlockingError);

#[verifier::external_type_specification]
#[verifier::external_body]
pub struct ExLoginError(actix_identity::error::LoginError);

#[verifier::external_type_specification]
#[verifier::external_body]
pub struct ExGetIdentityError(actix_identity::error::GetIdentityError);

impl ApiErrorType {
    /// The error that answers a failure of the user store.
    pub fn from_auth_error(failure: AuthError) -> (error: ApiErrorType)
        ensures
            error@ == auth_error_answer(failure),
    {
        match failure {
            AuthError::CredentialDisabled => ApiErrorType::Credential(CredentialError::CredentialDisabled),
            AuthError::NotFound(_) => ApiErrorType::User(UserError::UserNotFound),
            AuthError::Exists(_) => ApiErrorType::User(UserError::UserExists),
            AuthError::CredentialCannotDelete => ApiErrorType::Credential(
                CredentialError::CredentialCannotRemove,
            ),
            AuthError::Hash | AuthError::Database(_) => ApiErrorType::Credential(
                CredentialError::Unknown(owned("Something went wrong!")),
            ),
            AuthError::Unknown(message) | AuthError::Invalid(message) => ApiErrorType::User(
                UserError::Unknown(message),
            ),
        }
    }

    /// An identifier that is not a UUID names no user.
    pub fn from_uuid_error(_failure: uuid::Error) -> (error: ApiErrorType)
        ensures
            error@ == ErrorView::UserNotFound,
    {
        ApiErrorType::User(UserError::UserNotFound)
    }

    /// A URL that does not parse.
    pub fn from_url_parse_error(_failure: oauth2::url::ParseError) -> (error: ApiErrorType)
        ensures
            error@ == ErrorView::ApiUnknown("The URL is incorrect or invalid!"@),
    {
        ApiErrorType::Api(ApiError::Unknown(owned("The URL is incorrect or invalid!")))
    }

    /// A database connection that could not be taken from the pool.
    pub fn from_pool_error(_failure: r2d2::Error) -> (error: ApiErrorType)
        ensures
            error@ == ErrorView::ApiUnknown("Something went wrong!"@),
    {
        ApiErrorType::Api(ApiError::Unknown(owned("Something went wrong!")))
    }

    /// A blocking task that was cancelled.
    pub fn from_blocking_error(_failure: actix_web::error::BlockingError) -> (error: ApiErrorType)
        ensures
            error@ == ErrorView::ApiUnknown("Something went wrong!"@),
    {
        ApiErrorType::Api(ApiError::Unknown(owned("Something went wrong!")))
    }

    /// A login that could not be recorded in the session.
    pub fn from_login_error(_failure: actix_identity::error::LoginError) -> (error: ApiErrorType)
        ensures
            error@ == ErrorView::ApiUnknown("Failed to authenticate!"@),
    {
        ApiErrorType::Api(ApiError::Unknown(owned("Failed to authenticate!")))
    }

    /// A session identity that could not be read.
    pub fn from_get_identity_error(_failure: actix_identity::error::GetIdentityError) -> (error: ApiErrorType)
        ensures
            error@ == ErrorView::ApiUnknown("Failed to authenticate!"@),
    {
        ApiErrorType::Api(ApiError::Unknown(owned("Failed to authenticate!")))
    }
}

} // verus!
