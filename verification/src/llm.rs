use crate::errors::ExecutionError;
use vstd::prelude::*;

verus! {

/// Spec-level mirror of [`Message`].
pub struct MessageView {
    pub role: Seq<char>,
    pub content: Seq<char>,
}

/// One chat message exchanged with the language-model gateway.  Ordering
/// within a list matters (conversation order); uniqueness is not required.
#[derive(Debug, Clone)]
pub struct Message {
    pub role: String,
    pub content: String,
}

impl View for Message {
    type V = MessageView;

    open spec fn view(&self) -> MessageView {
        MessageView { role: self.role@, content: self.content@ }
    }
}

/// The reply text carried inside one choice of a gateway response.
#[derive(Debug)]
pub struct APIMessage {
    pub content: String,
}

/// One completion choice of a gateway response.
#[derive(Debug)]
pub struct APIChoice {
    pub api_message: APIMessage,
}

/// The decoded body of a gateway response; only the first choice's message
/// content is ever consumed.
#[derive(Debug)]
pub struct APIResponse {
    pub choices: Vec<APIChoice>,
}

/// Extracts the reply text of the first completion choice, failing exactly
/// when the response holds zero choices.
pub fn first_choice_content(response: &APIResponse) -> (r: Result<String, ExecutionError>)
    ensures
        response.choices@.len() > 0 ==> (r matches Ok(c) && c@
            == response.choices@[0].api_message.content@),
        response.choices@.len() == 0 ==> (r matches Err(e) && e is EmptyReply),
{
    if response.choices.len() > 0 {
        Ok(response.choices[0].api_message.content.clone())
    } else {
        Err(ExecutionError::EmptyReply)
    }
}

} // verus!
