//! The steps of the credential handlers (sign-in, registration, association
//! and removal of a credential), as state machines. The handler performs each
//! command against the user store or the session and feeds back what came of
//! it; the machine decides the next command or the answer.

use vstd::prelude::*;

use crate::error::{
    auth_error_answer, ApiError, ApiErrorType, AuthError, CredentialError, ErrorView,
};

verus! {

/// What came of the last command.
pub enum Event {
    /// The store registered or authenticated the user with this id.
    UserFound(u128),
    /// Whether the user already holds a credential of the handler's kind.
    CredentialPresence(bool),
    /// The credential that was presented belongs to the user with this id.
    CredentialOwner(u128),
    /// The store associated or deleted the credential.
    StoreDone,
    /// The store failed.
    StoreFailed(AuthError),
    /// The blocking task that ran the store was cancelled.
    Interrupted,
    /// The session now holds the user's identity.
    LoggedIn,
    /// The identity could not be stored in the session.
    LoginFailed,
    /// The provider exchanged the authorization code for this access token.
    TokenExchanged(String),
    /// The provider refused the authorization code.
    TokenRefused,
    /// The provider answered the profile request.
    ProfileFetched,
    /// The profile request failed.
    ProfileUnavailable,
    /// The profile answer was read: the provider's id and login of the user.
    ProfileRead { id: i32, login: String },
    /// The profile answer could not be read.
    ProfileUnreadable,
}

/// What the handler is asked to do next; `C` is the credential the request
/// presents.
pub enum Command<C> {
    /// Create a user holding this credential.
    RegisterUser { credential: C },
    /// Find the user this credential authenticates.
    AuthenticateUser { credential: C },
    /// Tell whether this user already holds a credential of the handler's kind.
    CheckCredential { user: u128 },
    /// Load the credential of the handler's kind of this user, to learn its owner.
    LoadCredential { user: u128 },
    /// Attach this credential to this user.
    AssociateCredential { user: u128, credential: C },
    /// Delete the credential that was loaded.
    DeleteCredential,
    /// Record this user's identity in the session.
    LogIn { user: u128 },
    /// Exchange this authorization code with the provider.
    ExchangeCode { code: String },
    /// Fetch the user's profile from the provider with this access token.
    FetchProfile { token: String },
    /// Read the profile answer.
    ReadProfile,
}

/// A flow that is still running, in the given phase, or has finished with an answer.
pub enum Flow<P, T> {
    Running(P),
    Finished(Result<T, ApiErrorType>),
}

/// A flow as contracts see it: its answer's error is seen by its view.
pub enum FlowView<P, T> {
    Running(P),
    Finished(Result<T, ErrorView>),
}

impl<P, T> View for Flow<P, T> {
    type V = FlowView<P, T>;

    open spec fn view(&self) -> FlowView<P, T> {
        match self {
            Flow::Running(p) => FlowView::Running(*p),
            Flow::Finished(Ok(v)) => FlowView::Finished(Ok(*v)),
            Flow::Finished(Err(e)) => FlowView::Finished(Err(e@)),
        }
    }
}

/// The answer to a failure that ends any flow waiting on the store.
pub open spec fn store_failure_answer(event: Event) -> Option<ErrorView> {
    match event {
        Event::StoreFailed(failure) => Some(auth_error_answer(failure)),
        Event::Interrupted => Some(ErrorView::ApiUnknown("Something went wrong!"@)),
        _ => None,
    }
}

fn something_went_wrong() -> (e: ApiErrorType)
    ensures
        e@ == ErrorView::ApiUnknown("Something went wrong!"@),
{
    ApiErrorType::Api(ApiError::Unknown("Something went wrong!".to_owned()))
}

/// The step of a flow that has finished with `answer`.
pub open spec fn finish<P, T, C>(answer: Result<T, ErrorView>) -> (FlowView<P, T>, Option<Command<C>>) {
    (FlowView::Finished(answer), None)
}

/// The step of a flow that stays in `phase` and asks for nothing.
pub open spec fn stay<P, T, C>(phase: P) -> (FlowView<P, T>, Option<Command<C>>) {
    (FlowView::Running(phase), None)
}

/// The step of a flow that moves to `phase` and asks for `command`.
pub open spec fn advance<P, T, C>(phase: P, command: Command<C>) -> (FlowView<P, T>, Option<Command<C>>) {
    (FlowView::Running(phase), Some(command))
}

// ---------------------------------------------------------------- sign-in

/// Sign-in and registration: the store finds or creates the user, then the
/// session records the user's identity.
pub enum SignInPhase {
    Storing,
    LoggingIn { user: u128 },
}

/// The step of a sign-in in `phase` on `event`.
pub open spec fn sign_in_next<C>(phase: SignInPhase, event: Event) -> (FlowView<SignInPhase, u128>, Option<Command<C>>) {
    match phase {
        SignInPhase::Storing => match event {
            Event::UserFound(user) => advance(SignInPhase::LoggingIn { user }, Command::LogIn { user }),
            _ => match store_failure_answer(event) {
                Some(e) => finish(Err(e)),
                None => stay(phase),
            },
        },
        SignInPhase::LoggingIn { user } => match event {
            Event::LoggedIn => finish(Ok(user)),
            Event::LoginFailed => finish(Err(ErrorView::ApiUnknown("Failed to authenticate!"@))),
            _ => stay(phase),
        },
    }
}

impl SignInPhase {
    /// Starts a registration (`register`) or a sign-in with `credential`.
    pub fn start<C>(register: bool, credential: C) -> (r: (Flow<SignInPhase, u128>, Command<C>))
        ensures
            r.0@ == FlowView::<SignInPhase, u128>::Running(SignInPhase::Storing),
            r.1 == (if register {
                Command::RegisterUser { credential }
            } else {
                Command::AuthenticateUser { credential }
            }),
    {
        (
            Flow::Running(SignInPhase::Storing),
            if register {
                Command::RegisterUser { credential }
            } else {
                Command::AuthenticateUser { credential }
            },
        )
    }

    /// The next phase, or the answer, and the next command. An event the
    /// phase does not wait for changes nothing and asks for nothing.
    pub fn step<C>(self, event: Event) -> (r: (Flow<SignInPhase, u128>, Option<Command<C>>))
        ensures
            (r.0@, r.1) == sign_in_next::<C>(self, event),
    {
        match self {
            SignInPhase::Storing => match event {
                Event::UserFound(user) => (Flow::Running(SignInPhase::LoggingIn { user }), Some(Command::LogIn { user })),
                Event::StoreFailed(failure) => (Flow::Finished(Err(ApiErrorType::from_auth_error(failure))), None),
                Event::Interrupted => (Flow::Finished(Err(something_went_wrong())), None),
                _ => (Flow::Running(self), None),
            },
            SignInPhase::LoggingIn { user } => match event {
                Event::LoggedIn => (Flow::Finished(Ok(user)), None),
                Event::LoginFailed => (
                    Flow::Finished(Err(ApiErrorType::Api(ApiError::Unknown("Failed to authenticate!".to_owned())))),
                    None,
                ),
                _ => (Flow::Running(self), None),
            },
        }
    }
}

// ---------------------------------------------------------------- association

/// Association of the presented credential with the signed-in user; where the
/// handler asks for it, first a check that the user holds no credential of
/// that kind yet.
pub enum AssociationPhase<C> {
    Checking { user: u128, credential: C },
    Associating,
}

/// The step of an association in `phase` on `event`.
pub open spec fn association_next<C>(phase: AssociationPhase<C>, event: Event) -> (FlowView<AssociationPhase<C>, ()>, Option<Command<C>>) {
    match store_failure_answer(event) {
        Some(e) => finish(Err(e)),
        None => match phase {
            AssociationPhase::Checking { user, credential } => match event {
                Event::CredentialPresence(true) => finish(Err(ErrorView::CredentialAssociated)),
                Event::CredentialPresence(false) => advance(
                    AssociationPhase::Associating,
                    Command::AssociateCredential { user, credential },
                ),
                _ => stay(phase),
            },
            AssociationPhase::Associating => match event {
                Event::StoreDone => finish(Ok(())),
                _ => stay(phase),
            },
        },
    }
}

impl<C> AssociationPhase<C> {
    /// Starts the association of `credential` with `user`, with the check
    /// (`checked`) or without.
    pub fn start(user: u128, credential: C, checked: bool) -> (r: (Flow<AssociationPhase<C>, ()>, Command<C>))
        ensures
            checked ==> r.0@ == (FlowView::<AssociationPhase<C>, ()>::Running(
                AssociationPhase::Checking { user, credential },
            )) && r.1 == (Command::<C>::CheckCredential { user }),
            !checked ==> r.0@ == (FlowView::<AssociationPhase<C>, ()>::Running(AssociationPhase::Associating))
                && r.1 == (Command::AssociateCredential { user, credential }),
    {
        if checked {
            (Flow::Running(AssociationPhase::Checking { user, credential }), Command::CheckCredential { user })
        } else {
            (Flow::Running(AssociationPhase::Associating), Command::AssociateCredential { user, credential })
        }
    }

    /// The next phase, or the answer, and the next command. An event the
    /// phase does not wait for changes nothing and asks for nothing.
    pub fn step(self, event: Event) -> (r: (Flow<AssociationPhase<C>, ()>, Option<Command<C>>))
        ensures
            (r.0@, r.1) == association_next(self, event),
    {
        match event {
            Event::StoreFailed(failure) => (Flow::Finished(Err(ApiErrorType::from_auth_error(failure))), None),
            Event::Interrupted => (Flow::Finished(Err(something_went_wrong())), None),
            _ => match self {
                AssociationPhase::Checking { user, credential } => match event {
                    Event::CredentialPresence(present) => if present {
                        (Flow::Finished(Err(ApiErrorType::Credential(CredentialError::CredentialAssociated))), None)
                    } else {
                        (
                            Flow::Running(AssociationPhase::Associating),
                            Some(Command::AssociateCredential { user, credential }),
                        )
                    },
                    _ => (Flow::Running(AssociationPhase::Checking { user, credential }), None),
                },
                AssociationPhase::Associating => match event {
                    Event::StoreDone => (Flow::Finished(Ok(())), None),
                    _ => (Flow::Running(self), None),
                },
            },
        }
    }
}

// ---------------------------------------------------------------- removal

/// Removal of a credential: the store authenticates the presented credential,
/// loads the credential of that kind of the user it belongs to, and deletes it
/// only where that user is the one who asks.
pub enum RemovalPhase {
    Authenticating { requester: u128 },
    Loading { requester: u128 },
    Deleting,
}

/// The step of a removal in `phase` on `event`.
pub open spec fn removal_next<C>(phase: RemovalPhase, event: Event) -> (FlowView<RemovalPhase, ()>, Option<Command<C>>) {
    match store_failure_answer(event) {
        Some(e) => finish(Err(e)),
        None => match phase {
            RemovalPhase::Authenticating { requester } => match event {
                Event::UserFound(user) => advance(
                    RemovalPhase::Loading { requester },
                    Command::LoadCredential { user },
                ),
                _ => stay(phase),
            },
            RemovalPhase::Loading { requester } => match event {
                Event::CredentialOwner(owner) => if owner == requester {
                    advance(RemovalPhase::Deleting, Command::DeleteCredential)
                } else {
                    finish(Err(ErrorView::CredentialIncorrect))
                },
                _ => stay(phase),
            },
            RemovalPhase::Deleting => match event {
                Event::StoreDone => finish(Ok(())),
                _ => stay(phase),
            },
        },
    }
}

impl RemovalPhase {
    /// Starts the removal of the credential of `credential`'s kind, asked for by
    /// the signed-in user `requester`, who presents `credential`.
    pub fn start<C>(requester: u128, credential: C) -> (r: (Flow<RemovalPhase, ()>, Command<C>))
        ensures
            r.0@ == (FlowView::<RemovalPhase, ()>::Running(RemovalPhase::Authenticating { requester })),
            r.1 == (Command::AuthenticateUser { credential }),
    {
        (Flow::Running(RemovalPhase::Authenticating { requester }), Command::AuthenticateUser { credential })
    }

    /// The next phase, or the answer, and the next command. An event the
    /// phase does not wait for changes nothing and asks for nothing.
    pub fn step<C>(self, event: Event) -> (r: (Flow<RemovalPhase, ()>, Option<Command<C>>))
        ensures
            (r.0@, r.1) == removal_next::<C>(self, event),
    {
        match event {
            Event::StoreFailed(failure) => (Flow::Finished(Err(ApiErrorType::from_auth_error(failure))), None),
            Event::Interrupted => (Flow::Finished(Err(something_went_wrong())), None),
            _ => match self {
                RemovalPhase::Authenticating { requester } => match event {
                    Event::UserFound(user) => (Flow::Running(RemovalPhase::Loading { requester }), Some(Command::LoadCredential { user })),
                    _ => (Flow::Running(self), None),
                },
                RemovalPhase::Loading { requester } => match event {
                    Event::CredentialOwner(owner) => if owner == requester {
                        (Flow::Running(RemovalPhase::Deleting), Some(Command::DeleteCredential))
                    } else {
                        (Flow::Finished(Err(ApiErrorType::Credential(CredentialError::CredentialIncorrect))), None)
                    },
                    _ => (Flow::Running(self), None),
                },
                RemovalPhase::Deleting => match event {
                    Event::StoreDone => (Flow::Finished(Ok(())), None),
                    _ => (Flow::Running(self), None),
                },
            },
        }
    }
}

// ---------------------------------------------------------------- laws

/// A credential is deleted only after it was found to belong to the user who
/// asks for its removal.
pub proof fn lemma_removal_deletes_only_own_credential<C>(phase: RemovalPhase, event: Event)
    requires
        removal_next::<C>(phase, event).1 == Some(Command::<C>::DeleteCredential),
    ensures
        phase matches RemovalPhase::Loading { requester } && event == Event::CredentialOwner(requester),
{
}

/// A credential that belongs to another user is not removed: the removal ends
/// with `CredentialIncorrect`.
pub proof fn lemma_removal_refuses_foreign_credential<C>(requester: u128, owner: u128)
    requires
        owner != requester,
    ensures
        removal_next::<C>(RemovalPhase::Loading { requester }, Event::CredentialOwner(owner))
            == finish::<RemovalPhase, (), C>(Err(ErrorView::CredentialIncorrect)),
{
}

/// A checked association attaches the presented credential only to the user
/// it checked, and only where that user holds no credential of the kind yet;
/// where the user holds one, it ends with `CredentialAssociated`.
pub proof fn lemma_association_checks_first<C>(user: u128, credential: C, event: Event)
    ensures
        association_next(AssociationPhase::Checking { user, credential }, event).1 matches Some(c)
            ==> c == (Command::AssociateCredential { user, credential }) && event == Event::CredentialPresence(false),
        event == Event::CredentialPresence(true) ==> association_next(AssociationPhase::Checking { user, credential }, event)
            == finish::<AssociationPhase<C>, (), C>(Err(ErrorView::CredentialAssociated)),
        !(association_next(AssociationPhase::Checking { user, credential }, event).0 matches FlowView::Finished(Ok(_))),
{
}

/// A sign-in answers with a user only once that user's identity is in the
/// session, and that user is the one the store found.
pub proof fn lemma_sign_in_answers_logged_in_user<C>(phase: SignInPhase, event: Event, user: u128)
    requires
        sign_in_next::<C>(phase, event).0 == FlowView::<SignInPhase, u128>::Finished(Ok(user)),
    ensures
        phase == (SignInPhase::LoggingIn { user }) && event == Event::LoggedIn,
{
}

/// The session records exactly the user the store found.
pub proof fn lemma_sign_in_logs_in_found_user<C>(phase: SignInPhase, event: Event, user: u128)
    requires
        sign_in_next::<C>(phase, event).1 == Some(Command::<C>::LogIn { user }),
    ensures
        phase == SignInPhase::Storing && event == Event::UserFound(user),
{
}

/// Every failure of the store ends a credential flow, answered as the store's
/// failure is answered everywhere.
pub proof fn lemma_store_failure_ends_flows<C>(
    failure: AuthError,
    sign_in: SignInPhase,
    association: AssociationPhase<C>,
    removal: RemovalPhase,
)
    ensures
        sign_in is Storing ==> sign_in_next::<C>(sign_in, Event::StoreFailed(failure))
            == finish::<SignInPhase, u128, C>(Err(auth_error_answer(failure))),
        association_next(association, Event::StoreFailed(failure))
            == finish::<AssociationPhase<C>, (), C>(Err(auth_error_answer(failure))),
        removal_next::<C>(removal, Event::StoreFailed(failure))
            == finish::<RemovalPhase, (), C>(Err(auth_error_answer(failure))),
{
}

/// The credential a removal loads is that of the user the presented
/// credential authenticates, whoever asks: the requester stays the one who
/// asked, and the owner check is left to the loaded credential.
pub proof fn lemma_removal_loads_authenticated_users_credential<C>(requester: u128, user: u128)
    ensures
        removal_next::<C>(RemovalPhase::Authenticating { requester }, Event::UserFound(user)) == (
            FlowView::<RemovalPhase, ()>::Running(RemovalPhase::Loading { requester }),
            Some(Command::<C>::LoadCredential { user }),
        ),
{
}

/// A credential presented by a user other than its owner is never deleted:
/// where the presented credential authenticates `user` and the loaded
/// credential is that user's, a requester other than `user` is refused, and
/// the requester `user` goes on to the deletion.
pub proof fn lemma_removal_owner_decides<C>(requester: u128, user: u128)
    ensures
        ({
            let loading = removal_next::<C>(RemovalPhase::Authenticating { requester }, Event::UserFound(user));
            loading.0 matches FlowView::Running(p) && {
                let deciding = removal_next::<C>(p, Event::CredentialOwner(user));
                &&& requester != user ==> deciding == (
                    FlowView::<RemovalPhase, ()>::Finished(Err(ErrorView::CredentialIncorrect)),
                    None::<Command<C>>,
                )
                &&& requester == user ==> deciding == (
                    FlowView::<RemovalPhase, ()>::Running(RemovalPhase::Deleting),
                    Some(Command::<C>::DeleteCredential),
                )
            }
        }),
{
}

/// A user who holds no credential of the kind has the presented credential
/// attached, whatever the user's id: the check that finds none asks to
/// associate exactly that credential with exactly that user.
pub proof fn lemma_association_attaches_when_none_held<C>(user: u128, credential: C)
    ensures
        association_next(AssociationPhase::Checking { user, credential }, Event::CredentialPresence(false)) == (
            FlowView::<AssociationPhase<C>, ()>::Running(AssociationPhase::Associating),
            Some(Command::AssociateCredential { user, credential }),
        ),
        association_next(AssociationPhase::<C>::Associating, Event::StoreDone)
            == (FlowView::<AssociationPhase<C>, ()>::Finished(Ok(())), None::<Command<C>>),
{
}

/// A sign-in that finds user `user` logs that user in and, once the session
/// holds the identity, answers with that same user.
pub proof fn lemma_sign_in_answers_found_user<C>(user: u128)
    ensures
        ({
            let found = sign_in_next::<C>(SignInPhase::Storing, Event::UserFound(user));
            &&& found.1 == Some(Command::<C>::LogIn { user })
            &&& found.0 matches FlowView::Running(p)
                && sign_in_next::<C>(p, Event::LoggedIn) == (
                    FlowView::<SignInPhase, u128>::Finished(Ok(user)),
                    None::<Command<C>>,
                )
        }),
{
}

} // verus!
