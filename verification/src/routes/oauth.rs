//! The OAuth provider routes: which action a callback performs.

use vstd::prelude::*;

pub mod github;

verus! {

/// What the user asked the provider's callback to do.
pub enum OauthCallbackAction {
    Authenticate,
    Register,
    Associate,
    Remove,
}

impl OauthCallbackAction {
    /// The action's name in paths and queries: its variant name in lower case.
    pub open spec fn name(self) -> Seq<char> {
        match self {
            OauthCallbackAction::Authenticate => "authenticate"@,
            OauthCallbackAction::Register => "register"@,
            OauthCallbackAction::Associate => "associate"@,
            OauthCallbackAction::Remove => "remove"@,
        }
    }

    /// Whether the action acts on the signed-in user.
    pub open spec fn needs_user(self) -> bool {
        self is Associate || self is Remove
    }

    /// The action named `text`, if any.
    pub open spec fn named(text: Seq<char>) -> Option<OauthCallbackAction> {
        if text == "authenticate"@ {
            Some(OauthCallbackAction::Authenticate)
        } else if text == "register"@ {
            Some(OauthCallbackAction::Register)
        } else if text == "associate"@ {
            Some(OauthCallbackAction::Associate)
        } else if text == "remove"@ {
            Some(OauthCallbackAction::Remove)
        } else {
            None
        }
    }

    /// Associating and removing a credential act on the signed-in user.
    pub fn requires_authentication(&self) -> (required: bool)
        ensures
            required == self.needs_user(),
    {
        match self {
            OauthCallbackAction::Associate | OauthCallbackAction::Remove => true,
            _ => false,
        }
    }

    /// The action's name.
    pub fn as_str(&self) -> (name: &'static str)
        ensures
            name@ == self.name(),
    {
        match self {
            OauthCallbackAction::Authenticate => "authenticate",
            OauthCallbackAction::Register => "register",
            OauthCallbackAction::Associate => "associate",
            OauthCallbackAction::Remove => "remove",
        }
    }

    /// Reads an action from its name; any other text names no action.
    pub fn from_str(text: &str) -> (action: Option<OauthCallbackAction>)
        ensures
            action == OauthCallbackAction::named(text@),
    {
        let text = text.to_owned();
        if text == "authenticate".to_owned() {
            Some(OauthCallbackAction::Authenticate)
        } else if text == "register".to_owned() {
            Some(OauthCallbackAction::Register)
        } else if text == "associate".to_owned() {
            Some(OauthCallbackAction::Associate)
        } else if text == "remove".to_owned() {
            Some(OauthCallbackAction::Remove)
        } else {
            None
        }
    }
}

/// An action's name reads back as that action.
pub proof fn lemma_action_name_round_trip(action: OauthCallbackAction)
    ensures
        OauthCallbackAction::named(action.name()) == Some(action),
{
    reveal_strlit("authenticate");
    reveal_strlit("register");
    reveal_strlit("associate");
    reveal_strlit("remove");
    assert("authenticate"@.len() == 12);
    assert("register"@.len() == 8);
    assert("associate"@.len() == 9);
    assert("remove"@.len() == 6);
}

/// Each action is named by its variant name in lower case, and those four
/// names read back as those actions.
pub proof fn lemma_action_names_are_lowercase_variants()
    ensures
        OauthCallbackAction::Authenticate.name() == "authenticate"@,
        OauthCallbackAction::Register.name() == "register"@,
        OauthCallbackAction::Associate.name() == "associate"@,
        OauthCallbackAction::Remove.name() == "remove"@,
        OauthCallbackAction::named("authenticate"@) == Some(OauthCallbackAction::Authenticate),
        OauthCallbackAction::named("register"@) == Some(OauthCallbackAction::Register),
        OauthCallbackAction::named("associate"@) == Some(OauthCallbackAction::Associate),
        OauthCallbackAction::named("remove"@) == Some(OauthCallbackAction::Remove),
{
    lemma_action_name_round_trip(OauthCallbackAction::Authenticate);
    lemma_action_name_round_trip(OauthCallbackAction::Register);
    lemma_action_name_round_trip(OauthCallbackAction::Associate);
    lemma_action_name_round_trip(OauthCallbackAction::Remove);
}

/// Only an action's name reads as that action.
pub proof fn lemma_action_named_only_by_name(text: Seq<char>, action: OauthCallbackAction)
    requires
        OauthCallbackAction::named(text) == Some(action),
    ensures
        text == action.name(),
{
}

} // verus!
