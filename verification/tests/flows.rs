use api::error::{ApiErrorType, AuthError, CredentialError, ErrorKind, UserError};
use api::routes::flow::{AssociationPhase, Command, Event, Flow, RemovalPhase, SignInPhase};
use api::routes::oauth::github::{CallbackOutcome, CallbackPhase, GithubProfile};
use api::routes::oauth::OauthCallbackAction;

/// Runs a callback to its end, answering each command from `replies` in turn,
/// and returns the commands asked for and the answer.
fn run_callback(
    session_user: Option<u128>,
    action: OauthCallbackAction,
    replies: Vec<Event>,
) -> (Vec<Command<GithubProfile>>, Result<CallbackOutcome, ApiErrorType>) {
    let (mut flow, mut command) = CallbackPhase::start(session_user, action, "the-code".to_string());
    let mut commands = Vec::new();
    let mut replies = replies.into_iter();
    loop {
        match flow {
            Flow::Finished(answer) => return (commands, answer),
            Flow::Running(phase) => {
                let asked = command.take().expect("a running callback asks for something");
                commands.push(asked);
                let (next, next_command) = phase.step(replies.next().expect("a reply"));
                flow = next;
                command = next_command;
            }
        }
    }
}

fn run_removal(requester: u128, replies: Vec<Event>) -> (Vec<Command<&'static str>>, Result<(), ApiErrorType>) {
    let (mut flow, first) = RemovalPhase::start(requester, "presented");
    let mut commands = vec![first];
    for reply in replies {
        match flow {
            Flow::Finished(_) => break,
            Flow::Running(phase) => {
                let (next, command) = phase.step(reply);
                commands.extend(command);
                flow = next;
            }
        }
    }
    match flow {
        Flow::Finished(answer) => (commands, answer),
        Flow::Running(_) => panic!("the removal did not finish"),
    }
}

#[test]
fn removal_deletes_the_requesters_credential() {
    let (commands, answer) = run_removal(
        7,
        vec![Event::UserFound(7), Event::CredentialOwner(7), Event::StoreDone],
    );
    assert!(matches!(answer, Ok(())));
    assert!(matches!(
        commands.as_slice(),
        [
            Command::AuthenticateUser { credential: "presented" },
            Command::LoadCredential { user: 7 },
            Command::DeleteCredential,
        ]
    ));
}

#[test]
fn removal_refuses_another_users_credential() {
    let (commands, answer) = run_removal(7, vec![Event::UserFound(8), Event::CredentialOwner(8)]);
    assert!(matches!(answer, Err(ApiErrorType::Credential(CredentialError::CredentialIncorrect))));
    assert!(!commands.iter().any(|c| matches!(c, Command::DeleteCredential)));
}

#[test]
fn removal_reports_store_failures() {
    let (_, answer) = run_removal(7, vec![Event::StoreFailed(AuthError::CredentialCannotDelete)]);
    assert!(matches!(answer, Err(ApiErrorType::Credential(CredentialError::CredentialCannotRemove))));
    let (_, answer) = run_removal(
        7,
        vec![Event::UserFound(7), Event::CredentialOwner(7), Event::StoreFailed(AuthError::CredentialCannotDelete)],
    );
    assert!(matches!(answer, Err(ApiErrorType::Credential(CredentialError::CredentialCannotRemove))));
    let (_, answer) = run_removal(7, vec![Event::Interrupted]);
    match answer {
        Err(e) => assert_eq!(e.message(), "Something went wrong!"),
        Ok(_) => panic!("an interrupted removal succeeded"),
    }
}

#[test]
fn removal_ignores_unexpected_events() {
    let (flow, _) = RemovalPhase::start(3, ());
    let phase = match flow {
        Flow::Running(p) => p,
        Flow::Finished(_) => panic!("finished at once"),
    };
    let (flow, command) = phase.step::<()>(Event::LoggedIn);
    assert!(command.is_none());
    assert!(matches!(flow, Flow::Running(RemovalPhase::Authenticating { requester: 3 })));
}

#[test]
fn checked_association_refuses_a_second_credential() {
    let (flow, first) = AssociationPhase::start(4, "key", true);
    assert!(matches!(first, Command::CheckCredential { user: 4 }));
    let phase = match flow {
        Flow::Running(p) => p,
        Flow::Finished(_) => panic!("finished at once"),
    };
    let (flow, command) = phase.step(Event::CredentialPresence(true));
    assert!(command.is_none());
    assert!(matches!(
        flow,
        Flow::Finished(Err(ApiErrorType::Credential(CredentialError::CredentialAssociated)))
    ));
}

#[test]
fn checked_association_attaches_a_first_credential() {
    let (flow, _) = AssociationPhase::start(4, "key", true);
    let phase = match flow {
        Flow::Running(p) => p,
        Flow::Finished(_) => panic!("finished at once"),
    };
    let (flow, command) = phase.step(Event::CredentialPresence(false));
    assert!(matches!(command, Some(Command::AssociateCredential { user: 4, credential: "key" })));
    let phase = match flow {
        Flow::Running(p) => p,
        Flow::Finished(_) => panic!("finished early"),
    };
    let (flow, command) = phase.step(Event::StoreDone);
    assert!(command.is_none());
    assert!(matches!(flow, Flow::Finished(Ok(()))));
}

#[test]
fn unchecked_association_attaches_at_once() {
    let (flow, first) = AssociationPhase::start(9, "key", false);
    assert!(matches!(first, Command::AssociateCredential { user: 9, credential: "key" }));
    assert!(matches!(flow, Flow::Running(AssociationPhase::Associating)));
}

#[test]
fn sign_in_logs_in_the_found_user() {
    let (flow, first) = SignInPhase::start(false, "alice");
    assert!(matches!(first, Command::AuthenticateUser { credential: "alice" }));
    let phase = match flow {
        Flow::Running(p) => p,
        Flow::Finished(_) => panic!("finished at once"),
    };
    let (flow, command) = phase.step::<&str>(Event::UserFound(11));
    assert!(matches!(command, Some(Command::LogIn { user: 11 })));
    let phase = match flow {
        Flow::Running(p) => p,
        Flow::Finished(_) => panic!("finished early"),
    };
    let (flow, _) = phase.step::<&str>(Event::LoggedIn);
    assert!(matches!(flow, Flow::Finished(Ok(11))));
}

#[test]
fn registration_reports_an_existing_user() {
    let (flow, first) = SignInPhase::start(true, "bob");
    assert!(matches!(first, Command::RegisterUser { credential: "bob" }));
    let phase = match flow {
        Flow::Running(p) => p,
        Flow::Finished(_) => panic!("finished at once"),
    };
    let (flow, command) = phase.step::<&str>(Event::StoreFailed(AuthError::Exists("bob".to_string())));
    assert!(command.is_none());
    assert!(matches!(flow, Flow::Finished(Err(ApiErrorType::User(UserError::UserExists)))));
}

#[test]
fn failed_login_fails_to_authenticate() {
    let phase = SignInPhase::LoggingIn { user: 2 };
    let (flow, _) = phase.step::<()>(Event::LoginFailed);
    match flow {
        Flow::Finished(Err(e)) => assert_eq!(e.message(), "Failed to authenticate!"),
        _ => panic!("a failed login was not reported"),
    }
}

#[test]
fn callback_refuses_signed_in_authentication() {
    let (commands, answer) = run_callback(Some(1), OauthCallbackAction::Authenticate, vec![]);
    assert!(commands.is_empty());
    assert!(matches!(answer, Err(ApiErrorType::User(UserError::UserAuthenticated))));
}

#[test]
fn callback_refuses_anonymous_removal() {
    let (commands, answer) = run_callback(None, OauthCallbackAction::Remove, vec![]);
    assert!(commands.is_empty());
    assert!(matches!(answer, Err(ApiErrorType::Credential(CredentialError::CredentialIncorrect))));
}

#[test]
fn callback_authenticate_registers_the_github_user() {
    let (commands, answer) = run_callback(
        None,
        OauthCallbackAction::Authenticate,
        vec![
            Event::TokenExchanged("tok".to_string()),
            Event::ProfileFetched,
            Event::ProfileRead { id: 77, login: "octo".to_string() },
            Event::UserFound(21),
            Event::LoggedIn,
        ],
    );
    assert!(matches!(answer, Ok(CallbackOutcome::SignedIn(21))));
    assert!(matches!(
        commands.as_slice(),
        [
            Command::ExchangeCode { code },
            Command::FetchProfile { token },
            Command::ReadProfile,
            Command::RegisterUser { credential: GithubProfile { id: 77, login } },
            Command::LogIn { user: 21 },
        ] if code == "the-code" && token == "tok" && login == "octo"
    ));
}

#[test]
fn callback_register_signs_in_the_github_user() {
    let (commands, answer) = run_callback(
        None,
        OauthCallbackAction::Register,
        vec![
            Event::TokenExchanged("t".to_string()),
            Event::ProfileFetched,
            Event::ProfileRead { id: 77, login: "octo".to_string() },
            Event::UserFound(5),
            Event::LoggedIn,
        ],
    );
    assert!(matches!(answer, Ok(CallbackOutcome::SignedIn(5))));
    assert!(matches!(&commands[3], Command::AuthenticateUser { credential } if credential.id == 77 && credential.login == "octo"));
}

#[test]
fn callback_associates_with_the_session_user() {
    let (commands, answer) = run_callback(
        Some(33),
        OauthCallbackAction::Associate,
        vec![Event::TokenExchanged("t".to_string()), Event::ProfileFetched, Event::ProfileRead { id: 77, login: "octo".to_string() }, Event::StoreDone],
    );
    assert!(matches!(answer, Ok(CallbackOutcome::Completed)));
    assert!(matches!(&commands[3], Command::AssociateCredential { user: 33, credential } if credential.id == 77));
}

#[test]
fn callback_removes_only_the_session_users_credential() {
    let replies = |owner: u128| {
        vec![
            Event::TokenExchanged("t".to_string()),
            Event::ProfileFetched,
            Event::ProfileRead { id: 77, login: "octo".to_string() },
            Event::UserFound(owner),
            Event::CredentialOwner(owner),
            Event::StoreDone,
        ]
    };
    let (commands, answer) = run_callback(Some(40), OauthCallbackAction::Remove, replies(40));
    assert!(matches!(answer, Ok(CallbackOutcome::Completed)));
    assert!(matches!(commands.last(), Some(Command::DeleteCredential)));
    let (commands, answer) = run_callback(Some(40), OauthCallbackAction::Remove, replies(41));
    assert!(matches!(answer, Err(ApiErrorType::Credential(CredentialError::CredentialIncorrect))));
    assert!(!commands.iter().any(|c| matches!(c, Command::DeleteCredential)));
}

#[test]
fn callback_reports_a_refused_code() {
    let (_, answer) = run_callback(None, OauthCallbackAction::Register, vec![Event::TokenRefused]);
    assert!(matches!(answer, Err(ApiErrorType::Credential(CredentialError::OauthCodeIncorrect))));
}

#[test]
fn callback_reports_github_failures() {
    for replies in [
        vec![Event::TokenExchanged("t".to_string()), Event::ProfileUnavailable],
        vec![Event::TokenExchanged("t".to_string()), Event::ProfileFetched, Event::ProfileUnreadable],
    ] {
        let (_, answer) = run_callback(None, OauthCallbackAction::Register, replies);
        match answer {
            Err(e) => {
                assert_eq!(e.status_code(), 500);
                assert_eq!(e.message(), "Failed to connect to GitHub!");
            }
            Ok(_) => panic!("a GitHub failure was not reported"),
        }
    }
}
