use api::error::{ApiError, ApiErrorType};
use api::routes::oauth::github::{authorization_redirect, bearer_authorization, callback_redirect};
use api::routes::oauth::OauthCallbackAction;

const ACTIONS: [&str; 4] = ["authenticate", "register", "associate", "remove"];

#[test]
fn action_names_read_back() {
    for name in ACTIONS {
        let action = OauthCallbackAction::from_str(name).expect("an action name");
        assert_eq!(action.as_str(), name);
    }
    assert!(matches!(OauthCallbackAction::from_str("associate"), Some(OauthCallbackAction::Associate)));
}

#[test]
fn other_texts_name_no_action() {
    for text in ["", "Authenticate", "REMOVE", "login", "remove ", "associates"] {
        assert!(OauthCallbackAction::from_str(text).is_none(), "{text}");
    }
}

#[test]
fn only_associate_and_remove_require_authentication() {
    assert!(!OauthCallbackAction::Authenticate.requires_authentication());
    assert!(!OauthCallbackAction::Register.requires_authentication());
    assert!(OauthCallbackAction::Associate.requires_authentication());
    assert!(OauthCallbackAction::Remove.requires_authentication());
}

#[test]
fn callback_address_names_the_action() {
    assert_eq!(
        callback_redirect(&OauthCallbackAction::Register),
        "http://auth.server.com/api/github/callback?action=register"
    );
}

#[test]
fn authorization_redirect_parses_the_callback_address() {
    for name in ACTIONS {
        let (action, address) = match authorization_redirect(name) {
            Ok(pair) => pair,
            Err(_) => panic!("the {name} action was refused"),
        };
        assert_eq!(action.as_str(), name);
        assert_eq!(address, format!("http://auth.server.com/api/github/callback?action={name}"));
        let url = oauth2::url::Url::parse(&address).expect("the callback address parses");
        assert_eq!(url.query(), Some(format!("action={name}").as_str()));
    }
}

#[test]
fn authorization_redirect_refuses_unknown_actions() {
    assert!(matches!(
        authorization_redirect("delete"),
        Err(ApiErrorType::Api(ApiError::ResourceNotFound))
    ));
}

#[test]
fn bearer_header_carries_the_token() {
    assert_eq!(bearer_authorization("gho_abc123"), "Bearer gho_abc123");
    assert_eq!(bearer_authorization(""), "Bearer ");
}
