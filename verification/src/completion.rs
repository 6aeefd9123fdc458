//! What is asked of the chat model, and what comes back.

use crate::config::{CONTEXT_SEPARATOR, GPT_MODEL, SYSTEM_PROMPT};
use vstd::prelude::*;
use vstd::string::StringExecFns;

verus! {

/// Who speaks in a message.
#[derive(Clone, Copy, Debug, PartialEq, Eq, Structural)]
pub enum Role {
    System,
    User,
}

/// One message of a completion request.
#[derive(Debug)]
pub struct Message {
    pub role: Role,
    pub content: String,
}

/// What a `Message` holds.
pub struct MessageView {
    pub role: Role,
    pub content: Seq<char>,
}

impl View for Message {
    type V = MessageView;

    open spec fn view(&self) -> MessageView {
        MessageView { role: self.role, content: self.content@ }
    }
}

/// A request for a completion of a conversation.
#[derive(Debug)]
pub struct CompletionRequest {
    pub model: String,
    pub messages: Vec<Message>,
}

/// What a `CompletionRequest` holds.
pub struct CompletionRequestView {
    pub model: Seq<char>,
    pub messages: Seq<MessageView>,
}

impl View for CompletionRequest {
    type V = CompletionRequestView;

    open spec fn view(&self) -> CompletionRequestView {
        CompletionRequestView {
            model: self.model@,
            messages: Seq::new(self.messages@.len(), |i: int| self.messages@[i]@),
        }
    }
}

/// One candidate of a completion response; `content` is absent where the
/// model returned no text.
#[derive(Debug)]
pub struct Choice {
    pub content: Option<String>,
}

/// The user message for a question and its context: the question, the
/// separator, the context.
pub open spec fn user_message(question: Seq<char>, context: Seq<char>) -> Seq<char> {
    question + CONTEXT_SEPARATOR@ + context
}

/// The request that puts `question` to the configured model with `context`:
/// the system instruction first, then the one user message.
pub open spec fn completion_request(question: Seq<char>, context: Seq<char>) -> CompletionRequestView {
    CompletionRequestView {
        model: GPT_MODEL@,
        messages: seq![
            MessageView { role: Role::System, content: SYSTEM_PROMPT@ },
            MessageView { role: Role::User, content: user_message(question, context) },
        ],
    }
}

impl CompletionRequest {
    /// The request that puts `question` to the configured model with `context`.
    pub fn new(question: &str, context: &str) -> (request: CompletionRequest)
        ensures
            request@ == completion_request(question@, context@),
    {
        let mut input = String::from_str(question);
        input.append(CONTEXT_SEPARATOR);
        input.append(context);
        let mut messages: Vec<Message> = Vec::new();
        messages.push(Message { role: Role::System, content: String::from_str(SYSTEM_PROMPT) });
        messages.push(Message { role: Role::User, content: input });
        let request = CompletionRequest { model: String::from_str(GPT_MODEL), messages };
        assert(request@.messages =~= completion_request(question@, context@).messages);
        request
    }
}

/// A completion request holds two messages, the system instruction and then
/// the user message, and the user message opens with the question and closes
/// with the context, both letter for letter.
pub proof fn lemma_request_holds_question_and_context(question: Seq<char>, context: Seq<char>)
    ensures
        completion_request(question, context).messages.len() == 2,
        completion_request(question, context).messages[0] == (MessageView {
            role: Role::System,
            content: SYSTEM_PROMPT@,
        }),
        completion_request(question, context).messages[1] == (MessageView {
            role: Role::User,
            content: user_message(question, context),
        }),
        user_message(question, context).len() == question.len() + CONTEXT_SEPARATOR@.len()
            + context.len(),
        user_message(question, context).subrange(0, question.len() as int) == question,
        user_message(question, context).subrange(
            user_message(question, context).len() - context.len(),
            user_message(question, context).len() as int,
        ) == context,
{
    let whole = user_message(question, context);
    assert(whole.subrange(0, question.len() as int) =~= question);
    assert(whole.subrange(whole.len() - context.len(), whole.len() as int) =~= context);
}

} // verus!
