//! The prompt builder: the fixed instructions and the user's words, as one
//! request to the translation service.

use vstd::prelude::*;
use vstd::string::StringExecFns;

verus! {

/// The instructions that open every request. They ask the service for the
/// bare text of a pattern and nothing around it.
pub const TRANSLATION_CONTEXT: &'static str = "\n\
    \x20   I am going to give you a text in natural language. \n\
    \x20   Your job is to write a regular expression for Rust Regex that matches the search patterns described by the text.\n\
    \n\
    \x20   You must return the output in the format: <regex> NOTHING else.\n\
    \x20   You MUST NOT, under any circumstances, return an output that does not match the format above. \n\
    \x20   You also MUST NOT print anything besides the output, like an introduction to the response or any explanation. \n\
    \x20   For everything I say you MUST respond with the regex pattern only without any type of markdown formatting.\n\
    \x20   Just plain text.\n\
    ";

/// Who speaks in a message of a request.
#[derive(Clone, Copy, Debug, PartialEq, Eq, Structural)]
pub enum MessageRole {
    System,
    User,
}

/// One message of a request: a role and a text.
#[derive(Clone, Debug, PartialEq, Eq)]
pub struct RoleMessage {
    pub role: MessageRole,
    pub content: String,
}

impl View for RoleMessage {
    type V = (MessageRole, Seq<char>);

    open spec fn view(&self) -> (MessageRole, Seq<char>) {
        (self.role, self.content@)
    }
}

/// What is sent to the translation service: messages in the order in which
/// the service reads them. A request serves one call and is not used again.
#[derive(Clone, Debug, PartialEq, Eq)]
pub struct TranslationRequest {
    pub messages: Vec<RoleMessage>,
}

impl View for TranslationRequest {
    type V = Seq<(MessageRole, Seq<char>)>;

    open spec fn view(&self) -> Seq<(MessageRole, Seq<char>)> {
        self.messages@.map_values(|m: RoleMessage| m@)
    }
}

/// The request for an utterance: the instructions under the system role,
/// then the utterance under the user role.
pub open spec fn request_for(utterance: Seq<char>) -> Seq<(MessageRole, Seq<char>)> {
    seq![(MessageRole::System, TRANSLATION_CONTEXT@), (MessageRole::User, utterance)]
}

/// Builds the request for an utterance. Every text is taken, the empty one
/// too; nothing in it is changed or escaped.
pub fn build_request(utterance: &str) -> (request: TranslationRequest)
    ensures
        request@ == request_for(utterance@),
{
    let mut messages: Vec<RoleMessage> = Vec::new();
    messages.push(
        RoleMessage { role: MessageRole::System, content: String::from_str(TRANSLATION_CONTEXT) },
    );
    messages.push(RoleMessage { role: MessageRole::User, content: String::from_str(utterance) });
    let request = TranslationRequest { messages };
    assert(request@ =~= request_for(utterance@));
    request
}

} // verus!
