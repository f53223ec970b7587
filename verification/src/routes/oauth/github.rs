//! The GitHub OAuth routes: the redirect to GitHub's authorization page and
//! the steps of the callback GitHub redirects back to.

use vstd::prelude::*;

use crate::error::{auth_error_answer, ApiError, ApiErrorType, AuthError, CredentialError, ErrorView, UserError};
use crate::routes::flow::{
    association_next, removal_next, sign_in_next, AssociationPhase, Command, Event, Flow,
    FlowView, RemovalPhase, SignInPhase,
};
use crate::routes::oauth::OauthCallbackAction;

verus! {

/// The `User-Agent` the profile request carries.
pub const USER_AGENT: &'static str = "Underslight Auth";
/// Where the user's profile is fetched.
pub const GITHUB_USER_API_ENDPOINT: &'static str = "https://api.github.com/user";
/// GitHub's authorization page.
pub const GITHUB_AUTH_ENDPOINT: &'static str = "https://github.com/login/oauth/authorize";
/// Where the authorization code is exchanged for a token.
pub const GITHUB_TOKEN_ENDPOINT: &'static str = "https://github.com/login/oauth/access_token";
/// The scope asked of GitHub.
pub const GITHUB_SCOPE: &'static str = "user";

#[verifier::external_type_specification]
#[verifier::external_body]
pub struct ExUrl(oauth2::url::Url);

/// Whether `oauth2::url::Url::parse` accepts a text.
pub uninterp spec fn url_accepts(text: Seq<char>) -> bool;

/// Calls `oauth2::url::Url::parse` (the url crate's WHATWG parser). Claimed:
/// whether it succeeds is a function of the text alone, named `url_accepts`.
/// Which texts it accepts, and what the parsed URL holds, is left to the url
/// crate and not stated here; its caller keeps the text it checked rather
/// than the parsed value.
#[verifier::external_body]
fn parse_url(text: &str) -> (parsed: Result<oauth2::url::Url, oauth2::url::ParseError>)
    ensures
        parsed is Ok <==> url_accepts(text@),
{
    oauth2::url::Url::parse(text)
}

/// The address GitHub redirects back to after the user authorized `action`.
pub open spec fn callback_address(action: OauthCallbackAction) -> Seq<char> {
    "http://auth.server.com/api/github/callback?action="@ + action.name()
}

/// The address GitHub redirects back to after the user authorized `action`.
pub fn callback_redirect(action: &OauthCallbackAction) -> (address: String)
    ensures
        address@ == callback_address(*action),
{
    let mut address = "http://auth.server.com/api/github/callback?action=".to_owned();
    address.append(action.as_str());
    address
}

/// The decisions of the route that sends the user to GitHub: the path segment
/// must name an action, and the callback address for that action must parse
/// as a URL. The answer is the action and that callback address, which the
/// route hands to GitHub as the redirect of the authorization.
pub fn authorization_redirect(segment: &str) -> (r: Result<(OauthCallbackAction, String), ApiErrorType>)
    ensures
        OauthCallbackAction::named(segment@) is None ==> (r matches Err(e) && e@
            == ErrorView::ResourceNotFound),
        OauthCallbackAction::named(segment@) matches Some(action) ==> {
            &&& url_accepts(callback_address(action)) ==> (r matches Ok((a, address)) && a == action
                && address@ == callback_address(action))
            &&& !url_accepts(callback_address(action)) ==> (r matches Err(e) && e@
                == ErrorView::ApiUnknown("The URL is incorrect or invalid!"@))
        },
{
    match OauthCallbackAction::from_str(segment) {
        Some(action) => {
            let address = callback_redirect(&action);
            match parse_url(address.as_str()) {
                Ok(_) => Ok((action, address)),
                Err(failure) => Err(ApiErrorType::from_url_parse_error(failure)),
            }
        },
        None => Err(ApiErrorType::Api(ApiError::ResourceNotFound)),
    }
}

/// The callback address names the action it was made for: after the fixed
/// prefix stands the action's name, which reads back as that action.
pub proof fn lemma_callback_address_names_action(action: OauthCallbackAction)
    ensures
        callback_address(action).subrange(
            "http://auth.server.com/api/github/callback?action="@.len() as int,
            callback_address(action).len() as int,
        ) == action.name(),
        OauthCallbackAction::named(
            callback_address(action).subrange(
                "http://auth.server.com/api/github/callback?action="@.len() as int,
                callback_address(action).len() as int,
            ),
        ) == Some(action),
{
    let prefix = "http://auth.server.com/api/github/callback?action="@;
    assert(callback_address(action).subrange(prefix.len() as int, callback_address(action).len() as int)
        =~= action.name());
    crate::routes::oauth::lemma_action_name_round_trip(action);
}

/// The `Authorization` header of the profile request made with `token`.
pub fn bearer_authorization(token: &str) -> (header: String)
    ensures
        header@ == "Bearer "@ + token@,
{
    let mut header = "Bearer ".to_owned();
    header.append(token);
    header
}

// ---------------------------------------------------------------- callback

/// The GitHub account a profile answer describes: the credential a callback
/// presents to the user store.
pub struct GithubProfile {
    pub id: i32,
    pub login: String,
}

/// Where the GitHub callback stands: exchanging the authorization code,
/// fetching and reading the user's profile, then the credential flow that the
/// action asks for.
pub enum CallbackPhase {
    Exchanging { session_user: Option<u128>, action: OauthCallbackAction },
    Fetching { session_user: Option<u128>, action: OauthCallbackAction },
    Reading { session_user: Option<u128>, action: OauthCallbackAction },
    SigningIn(SignInPhase),
    Associating(AssociationPhase<GithubProfile>),
    Removing(RemovalPhase),
}

/// How a callback that succeeded is answered: with the signed-in user, or
/// with an empty success.
pub enum CallbackOutcome {
    SignedIn(u128),
    Completed,
}

/// A step of the callback flow, as contracts see it.
pub type CallbackStep = (FlowView<CallbackPhase, CallbackOutcome>, Option<Command<GithubProfile>>);

/// The first step of a callback for `action` with the authorization `code`,
/// from a request that carries the signed-in user `session_user` or none: the
/// action must act on a signed-in user exactly where there is one, and then
/// the code is exchanged.
pub open spec fn callback_start(session_user: Option<u128>, action: OauthCallbackAction, code: String) -> CallbackStep {
    if session_user is Some && !action.needs_user() {
        (FlowView::Finished(Err(ErrorView::UserAuthenticated)), None)
    } else if session_user is None && action.needs_user() {
        (FlowView::Finished(Err(ErrorView::CredentialIncorrect)), None)
    } else {
        (
            FlowView::Running(CallbackPhase::Exchanging { session_user, action }),
            Some(Command::ExchangeCode { code }),
        )
    }
}

/// The answer when GitHub cannot be reached or answers what cannot be read.
pub open spec fn github_unreachable() -> ErrorView {
    ErrorView::ApiUnknown("Failed to connect to GitHub!"@)
}

/// A sign-in step, as a step of the callback.
pub open spec fn lift_sign_in(step: (FlowView<SignInPhase, u128>, Option<Command<GithubProfile>>)) -> CallbackStep {
    match step.0 {
        FlowView::Running(p) => (FlowView::Running(CallbackPhase::SigningIn(p)), step.1),
        FlowView::Finished(Ok(user)) => (FlowView::Finished(Ok(CallbackOutcome::SignedIn(user))), step.1),
        FlowView::Finished(Err(e)) => (FlowView::Finished(Err(e)), step.1),
    }
}

/// An association step, as a step of the callback.
pub open spec fn lift_association(
    step: (FlowView<AssociationPhase<GithubProfile>, ()>, Option<Command<GithubProfile>>),
) -> CallbackStep {
    match step.0 {
        FlowView::Running(p) => (FlowView::Running(CallbackPhase::Associating(p)), step.1),
        FlowView::Finished(Ok(_)) => (FlowView::Finished(Ok(CallbackOutcome::Completed)), step.1),
        FlowView::Finished(Err(e)) => (FlowView::Finished(Err(e)), step.1),
    }
}

/// A removal step, as a step of the callback.
pub open spec fn lift_removal(step: (FlowView<RemovalPhase, ()>, Option<Command<GithubProfile>>)) -> CallbackStep {
    match step.0 {
        FlowView::Running(p) => (FlowView::Running(CallbackPhase::Removing(p)), step.1),
        FlowView::Finished(Ok(_)) => (FlowView::Finished(Ok(CallbackOutcome::Completed)), step.1),
        FlowView::Finished(Err(e)) => (FlowView::Finished(Err(e)), step.1),
    }
}

/// What follows the profile `profile` that was read: the `authenticate`
/// action registers the GitHub user, the `register` action signs it in, and
/// the `associate` and `remove` actions start the credential flow for the
/// signed-in user; each presents that profile to the store.
pub open spec fn after_profile(
    session_user: Option<u128>,
    action: OauthCallbackAction,
    profile: GithubProfile,
) -> CallbackStep {
    match action {
        OauthCallbackAction::Authenticate => (
            FlowView::Running(CallbackPhase::SigningIn(SignInPhase::Storing)),
            Some(Command::RegisterUser { credential: profile }),
        ),
        OauthCallbackAction::Register => (
            FlowView::Running(CallbackPhase::SigningIn(SignInPhase::Storing)),
            Some(Command::AuthenticateUser { credential: profile }),
        ),
        OauthCallbackAction::Associate => match session_user {
            Some(user) => (
                FlowView::Running(CallbackPhase::Associating(AssociationPhase::Associating)),
                Some(Command::AssociateCredential { user, credential: profile }),
            ),
            None => (FlowView::Finished(Err(ErrorView::CredentialIncorrect)), None),
        },
        OauthCallbackAction::Remove => match session_user {
            Some(user) => (
                FlowView::Running(CallbackPhase::Removing(RemovalPhase::Authenticating { requester: user })),
                Some(Command::AuthenticateUser { credential: profile }),
            ),
            None => (FlowView::Finished(Err(ErrorView::CredentialIncorrect)), None),
        },
    }
}

/// The step of a callback in `phase` on `event`.
pub open spec fn callback_next(phase: CallbackPhase, event: Event) -> CallbackStep {
    match phase {
        CallbackPhase::Exchanging { session_user, action } => match event {
            Event::TokenExchanged(token) => (
                FlowView::Running(CallbackPhase::Fetching { session_user, action }),
                Some(Command::FetchProfile { token }),
            ),
            Event::TokenRefused => (FlowView::Finished(Err(ErrorView::OauthCodeIncorrect)), None),
            _ => (FlowView::Running(phase), None),
        },
        CallbackPhase::Fetching { session_user, action } => match event {
            Event::ProfileFetched => (
                FlowView::Running(CallbackPhase::Reading { session_user, action }),
                Some(Command::ReadProfile),
            ),
            Event::ProfileUnavailable => (FlowView::Finished(Err(github_unreachable())), None),
            _ => (FlowView::Running(phase), None),
        },
        CallbackPhase::Reading { session_user, action } => match event {
            Event::ProfileRead { id, login } => after_profile(session_user, action, GithubProfile { id, login }),
            Event::ProfileUnreadable => (FlowView::Finished(Err(github_unreachable())), None),
            _ => (FlowView::Running(phase), None),
        },
        CallbackPhase::SigningIn(p) => lift_sign_in(sign_in_next(p, event)),
        CallbackPhase::Associating(p) => lift_association(association_next(p, event)),
        CallbackPhase::Removing(p) => lift_removal(removal_next(p, event)),
    }
}

fn github_unreachable_error() -> (e: ApiErrorType)
    ensures
        e@ == github_unreachable(),
{
    ApiErrorType::Api(ApiError::Unknown("Failed to connect to GitHub!".to_owned()))
}

fn into_sign_in_step(
    step: (Flow<SignInPhase, u128>, Option<Command<GithubProfile>>),
) -> (r: (Flow<CallbackPhase, CallbackOutcome>, Option<Command<GithubProfile>>))
    ensures
        (r.0@, r.1) == lift_sign_in((step.0@, step.1)),
{
    let (flow, command) = step;
    match flow {
        Flow::Running(p) => (Flow::Running(CallbackPhase::SigningIn(p)), command),
        Flow::Finished(Ok(user)) => (Flow::Finished(Ok(CallbackOutcome::SignedIn(user))), command),
        Flow::Finished(Err(e)) => (Flow::Finished(Err(e)), command),
    }
}

fn into_association_step(
    step: (Flow<AssociationPhase<GithubProfile>, ()>, Option<Command<GithubProfile>>),
) -> (r: (Flow<CallbackPhase, CallbackOutcome>, Option<Command<GithubProfile>>))
    ensures
        (r.0@, r.1) == lift_association((step.0@, step.1)),
{
    let (flow, command) = step;
    match flow {
        Flow::Running(p) => (Flow::Running(CallbackPhase::Associating(p)), command),
        Flow::Finished(Ok(_)) => (Flow::Finished(Ok(CallbackOutcome::Completed)), command),
        Flow::Finished(Err(e)) => (Flow::Finished(Err(e)), command),
    }
}

fn into_removal_step(
    step: (Flow<RemovalPhase, ()>, Option<Command<GithubProfile>>),
) -> (r: (Flow<CallbackPhase, CallbackOutcome>, Option<Command<GithubProfile>>))
    ensures
        (r.0@, r.1) == lift_removal((step.0@, step.1)),
{
    let (flow, command) = step;
    match flow {
        Flow::Running(p) => (Flow::Running(CallbackPhase::Removing(p)), command),
        Flow::Finished(Ok(_)) => (Flow::Finished(Ok(CallbackOutcome::Completed)), command),
        Flow::Finished(Err(e)) => (Flow::Finished(Err(e)), command),
    }
}

fn profile_read(
    session_user: Option<u128>,
    action: OauthCallbackAction,
    profile: GithubProfile,
) -> (r: (Flow<CallbackPhase, CallbackOutcome>, Option<Command<GithubProfile>>))
    ensures
        (r.0@, r.1) == after_profile(session_user, action, profile),
{
    match action {
        OauthCallbackAction::Authenticate => (
            Flow::Running(CallbackPhase::SigningIn(SignInPhase::Storing)),
            Some(Command::RegisterUser { credential: profile }),
        ),
        OauthCallbackAction::Register => (
            Flow::Running(CallbackPhase::SigningIn(SignInPhase::Storing)),
            Some(Command::AuthenticateUser { credential: profile }),
        ),
        OauthCallbackAction::Associate => match session_user {
            Some(user) => (
                Flow::Running(CallbackPhase::Associating(AssociationPhase::Associating)),
                Some(Command::AssociateCredential { user, credential: profile }),
            ),
            None => (Flow::Finished(Err(ApiErrorType::Credential(CredentialError::CredentialIncorrect))), None),
        },
        OauthCallbackAction::Remove => match session_user {
            Some(user) => (
                Flow::Running(CallbackPhase::Removing(RemovalPhase::Authenticating { requester: user })),
                Some(Command::AuthenticateUser { credential: profile }),
            ),
            None => (Flow::Finished(Err(ApiErrorType::Credential(CredentialError::CredentialIncorrect))), None),
        },
    }
}

impl CallbackPhase {
    /// Starts the callback for `action` with the authorization `code`, from a
    /// request that carries the signed-in user `session_user` or none.
    pub fn start(
        session_user: Option<u128>,
        action: OauthCallbackAction,
        code: String,
    ) -> (r: (Flow<CallbackPhase, CallbackOutcome>, Option<Command<GithubProfile>>))
        ensures
            (r.0@, r.1) == callback_start(session_user, action, code),
    {
        let needs_user = action.requires_authentication();
        if session_user.is_some() && !needs_user {
            (Flow::Finished(Err(ApiErrorType::User(UserError::UserAuthenticated))), None)
        } else if session_user.is_none() && needs_user {
            (Flow::Finished(Err(ApiErrorType::Credential(CredentialError::CredentialIncorrect))), None)
        } else {
            (Flow::Running(CallbackPhase::Exchanging { session_user, action }), Some(Command::ExchangeCode { code }))
        }
    }

    /// The next phase, or the answer, and the next command. An event the
    /// phase does not wait for changes nothing and asks for nothing.
    pub fn step(self, event: Event) -> (r: (Flow<CallbackPhase, CallbackOutcome>, Option<Command<GithubProfile>>))
        ensures
            (r.0@, r.1) == callback_next(self, event),
    {
        match self {
            CallbackPhase::Exchanging { session_user, action } => match event {
                Event::TokenExchanged(token) => (
                    Flow::Running(CallbackPhase::Fetching { session_user, action }),
                    Some(Command::FetchProfile { token }),
                ),
                Event::TokenRefused => (
                    Flow::Finished(Err(ApiErrorType::Credential(CredentialError::OauthCodeIncorrect))),
                    None,
                ),
                _ => (Flow::Running(CallbackPhase::Exchanging { session_user, action }), None),
            },
            CallbackPhase::Fetching { session_user, action } => match event {
                Event::ProfileFetched => (
                    Flow::Running(CallbackPhase::Reading { session_user, action }),
                    Some(Command::ReadProfile),
                ),
                Event::ProfileUnavailable => (Flow::Finished(Err(github_unreachable_error())), None),
                _ => (Flow::Running(CallbackPhase::Fetching { session_user, action }), None),
            },
            CallbackPhase::Reading { session_user, action } => match event {
                Event::ProfileRead { id, login } => profile_read(session_user, action, GithubProfile { id, login }),
                Event::ProfileUnreadable => (Flow::Finished(Err(github_unreachable_error())), None),
                _ => (Flow::Running(CallbackPhase::Reading { session_user, action }), None),
            },
            CallbackPhase::SigningIn(p) => into_sign_in_step(p.step::<GithubProfile>(event)),
            CallbackPhase::Associating(p) => into_association_step(p.step(event)),
            CallbackPhase::Removing(p) => into_removal_step(p.step::<GithubProfile>(event)),
        }
    }
}

// ---------------------------------------------------------------- laws

/// A callback goes on to GitHub exactly where the request is signed in if and
/// only if the action acts on a signed-in user, and then exchanges the very
/// code of the request. A signed-in request for an action that does not act on
/// a signed-in user is refused with `UserAuthenticated`; an anonymous one for
/// an action that does, with `CredentialIncorrect`.
pub proof fn lemma_callback_guard(session_user: Option<u128>, action: OauthCallbackAction, code: String)
    ensures
        callback_start(session_user, action, code).1 is Some <==> (session_user is Some) == action.needs_user(),
        callback_start(session_user, action, code).1 is Some ==> callback_start(session_user, action, code).1
            == Some(Command::<GithubProfile>::ExchangeCode { code }),
        (session_user is Some && !action.needs_user()) ==> callback_start(session_user, action, code).0
            == FlowView::<CallbackPhase, CallbackOutcome>::Finished(Err(ErrorView::UserAuthenticated)),
        (session_user is None && action.needs_user()) ==> callback_start(session_user, action, code).0
            == FlowView::<CallbackPhase, CallbackOutcome>::Finished(Err(ErrorView::CredentialIncorrect)),
{
}

/// The profile is fetched with the very token the code was exchanged for.
pub proof fn lemma_profile_fetched_with_exchanged_token(
    session_user: Option<u128>,
    action: OauthCallbackAction,
    token: String,
)
    ensures
        callback_next(CallbackPhase::Exchanging { session_user, action }, Event::TokenExchanged(token)).1
            == Some(Command::<GithubProfile>::FetchProfile { token }),
{
}

/// The GitHub account that is registered, signed in, associated or removed is
/// the one the profile answer described: every credential the callback
/// presents to the store after reading the profile is that profile.
pub proof fn lemma_callback_presents_read_profile(
    session_user: Option<u128>,
    action: OauthCallbackAction,
    id: i32,
    login: String,
)
    ensures
        ({
            let step = callback_next(
                CallbackPhase::Reading { session_user, action },
                Event::ProfileRead { id, login },
            );
            &&& step.1 matches Some(Command::RegisterUser { credential }) ==> credential == (GithubProfile { id, login })
            &&& step.1 matches Some(Command::AuthenticateUser { credential }) ==> credential == (GithubProfile { id, login })
            &&& step.1 matches Some(Command::AssociateCredential { credential, .. }) ==> credential == (GithubProfile { id, login })
            &&& step.1 is Some || step.0 is Finished
        }),
{
}

/// Association and removal through GitHub act for the signed-in user of the
/// request and for no other: the credential is attached to that user, and a
/// removal asks on that user's behalf.
pub proof fn lemma_callback_acts_for_session_user(
    session_user: Option<u128>,
    action: OauthCallbackAction,
    profile: GithubProfile,
    user: u128,
)
    ensures
        after_profile(session_user, action, profile).1 matches Some(Command::AssociateCredential { user: u, .. })
            ==> session_user == Some(u) && action is Associate,
        after_profile(session_user, action, profile).0
            == FlowView::<CallbackPhase, CallbackOutcome>::Running(
                CallbackPhase::Removing(RemovalPhase::Authenticating { requester: user }),
            ) ==> session_user == Some(user) && action is Remove,
{
}

/// While the callback associates the GitHub account, it succeeds only when
/// the store attached the account, and any failure of the store is the
/// callback's answer: an account the store refuses (for instance one already
/// linked) is not answered as linked.
pub proof fn lemma_callback_association_answer(
    phase: AssociationPhase<GithubProfile>,
    event: Event,
    failure: AuthError,
)
    ensures
        callback_next(CallbackPhase::Associating(phase), event).0
            == FlowView::<CallbackPhase, CallbackOutcome>::Finished(Ok(CallbackOutcome::Completed))
            ==> phase is Associating && event == Event::StoreDone,
        callback_next(CallbackPhase::Associating(phase), Event::StoreFailed(failure)) == (
            FlowView::<CallbackPhase, CallbackOutcome>::Finished(Err(auth_error_answer(failure))),
            None::<Command<GithubProfile>>,
        ),
        callback_next(CallbackPhase::Associating(phase), Event::Interrupted) == (
            FlowView::<CallbackPhase, CallbackOutcome>::Finished(
                Err(ErrorView::ApiUnknown("Something went wrong!"@)),
            ),
            None::<Command<GithubProfile>>,
        ),
{
}

/// While the callback removes the GitHub account, it succeeds only when the
/// store deleted it, and any failure of the store is the callback's answer.
pub proof fn lemma_callback_removal_answer(phase: RemovalPhase, event: Event, failure: AuthError)
    ensures
        callback_next(CallbackPhase::Removing(phase), event).0
            == FlowView::<CallbackPhase, CallbackOutcome>::Finished(Ok(CallbackOutcome::Completed))
            ==> phase is Deleting && event == Event::StoreDone,
        callback_next(CallbackPhase::Removing(phase), Event::StoreFailed(failure)) == (
            FlowView::<CallbackPhase, CallbackOutcome>::Finished(Err(auth_error_answer(failure))),
            None::<Command<GithubProfile>>,
        ),
{
}

/// While the callback signs the GitHub user in, it answers with a user only
/// once that user is logged in, and any failure of the store is its answer.
pub proof fn lemma_callback_sign_in_answer(phase: SignInPhase, event: Event, user: u128, failure: AuthError)
    ensures
        callback_next(CallbackPhase::SigningIn(phase), event).0
            == FlowView::<CallbackPhase, CallbackOutcome>::Finished(Ok(CallbackOutcome::SignedIn(user)))
            ==> phase == (SignInPhase::LoggingIn { user }) && event == Event::LoggedIn,
        phase is Storing ==> callback_next(CallbackPhase::SigningIn(phase), Event::StoreFailed(failure)) == (
            FlowView::<CallbackPhase, CallbackOutcome>::Finished(Err(auth_error_answer(failure))),
            None::<Command<GithubProfile>>,
        ),
{
}

/// How far a callback in `phase` is from its answer: the most commands it
/// can still ask for.
pub open spec fn callback_rank(phase: CallbackPhase) -> nat {
    match phase {
        CallbackPhase::Exchanging { .. } => 6,
        CallbackPhase::Fetching { .. } => 5,
        CallbackPhase::Reading { .. } => 4,
        CallbackPhase::SigningIn(SignInPhase::Storing) => 2,
        CallbackPhase::SigningIn(SignInPhase::LoggingIn { .. }) => 1,
        CallbackPhase::Associating(AssociationPhase::Checking { .. }) => 2,
        CallbackPhase::Associating(AssociationPhase::Associating) => 1,
        CallbackPhase::Removing(RemovalPhase::Authenticating { .. }) => 3,
        CallbackPhase::Removing(RemovalPhase::Loading { .. }) => 2,
        CallbackPhase::Removing(RemovalPhase::Deleting) => 1,
    }
}

/// Every step of a callback either asks for nothing and leaves the phase as it
/// was, or finishes, or moves to a phase nearer the answer: a callback asks
/// for at most six commands after the first.
pub proof fn lemma_callback_progress(phase: CallbackPhase, event: Event)
    ensures
        callback_next(phase, event).0 matches FlowView::Running(next) ==> {
            ||| next == phase && callback_next(phase, event).1 is None
            ||| callback_rank(next) < callback_rank(phase) && callback_next(phase, event).1 is Some
        },
        callback_next(phase, event).0 is Finished ==> callback_next(phase, event).1 is None,
{
}

} // verus!
