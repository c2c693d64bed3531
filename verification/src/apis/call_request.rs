//! What is sent to the chat-completion endpoint and what is taken from its
//! answer. The request itself is the driver's work.

use crate::models::agents::agent_traits::{RunError, RunErrorView};
use vstd::prelude::*;

verus! {

/// The endpoint that completes a conversation.
pub const CHAT_COMPLETIONS_URL: &'static str = "https://api.openai.com/v1/chat/completions";

/// The model that is asked.
pub const CHAT_MODEL: &'static str = "gpt-3.5-turbo";

/// The variable of the process configuration that holds the credential.
pub const CREDENTIAL_VARIABLE: &'static str = "OPENAI_API_KEY";

/// The header that carries the credential.
pub const AUTHORIZATION_HEADER: &'static str = "authorization";

/// The model gateway could not be reached, answered with a failure, or sent
/// an envelope without a completion.
#[derive(Debug, Clone, PartialEq, Eq)]
pub struct TransportError {
    pub detail: String,
}

/// The value of the authorization header for a credential.
pub open spec fn bearer(api_key: Seq<char>) -> Seq<char> {
    "Bearer "@ + api_key
}

/// The mathematical content of the result of [`authorization`].
pub open spec fn authorization_view(value: Result<String, RunError>) -> Result<
    Seq<char>,
    RunErrorView,
> {
    match value {
        Ok(header) => Ok(header@),
        Err(error) => Err(error@),
    }
}

/// The authorization header for the configured credential. A run without a
/// credential fails here, before anything is sent.
pub fn authorization(api_key: Option<&str>) -> (value: Result<String, RunError>)
    ensures
        authorization_view(value) == match api_key {
            Some(key) => Ok::<Seq<char>, RunErrorView>(bearer(key@)),
            None => Err::<Seq<char>, RunErrorView>(RunErrorView::Configuration),
        },
{
    match api_key {
        Some(key) => {
            let mut header = String::from_str("Bearer ");
            header.append(key);
            Ok(header)
        },
        None => Err(RunError::Configuration),
    }
}

/// What is reported of an envelope that holds no choice.
pub open spec fn no_choice() -> Seq<char> {
    "the response holds no choice"@
}

/// The mathematical content of the result of [`first_choice`].
pub open spec fn completion_view(completion: Result<String, TransportError>) -> Result<
    Seq<char>,
    Seq<char>,
> {
    match completion {
        Ok(text) => Ok(text@),
        Err(error) => Err(error.detail@),
    }
}

/// The completion of a response envelope: the content of its first choice,
/// as it stands. An envelope without a choice is a transport error.
pub fn first_choice(choices: Vec<String>) -> (completion: Result<String, TransportError>)
    ensures
        completion_view(completion) == if choices@.len() > 0 {
            Ok::<Seq<char>, Seq<char>>(choices@[0]@)
        } else {
            Err::<Seq<char>, Seq<char>>(no_choice())
        },
{
    let mut choices = choices;
    if choices.len() > 0 {
        Ok(choices.swap_remove(0))
    } else {
        Err(TransportError { detail: String::from_str("the response holds no choice") })
    }
}

} // verus!
