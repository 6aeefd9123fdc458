//! The prompting pipeline: a question, answered with retrieved context.
//!
//! `answer` starts a run. The run retrieves the context for the question,
//! once, and puts the question and the context to the chat model. Without
//! context there is no completion request, and a response without text is an
//! error, never an empty answer. Nothing is kept from one run to the next.

use crate::completion::{completion_request, Choice, CompletionRequest};
use crate::embedding::{embedding_request, EmbeddingRequest, EmbeddingVector};
use crate::error::{PromptError, ServiceFailure};
use crate::retrieval::{retrieve, retrieved, searched, AwaitingHits, AwaitingQueryVector, RetrieveStep};
use crate::store::{nearest_to, SearchHit, SearchRequest};
use crate::text::text_result;
use vstd::prelude::*;
use vstd::string::StringExecFns;

verus! {

/// A run whose retrieval has asked for the embedding of the question.
#[derive(Debug)]
pub struct AwaitingQuestionVector {
    question: String,
    retrieval: AwaitingQueryVector,
}

/// A run whose retrieval has asked the store for the nearest point.
#[derive(Debug)]
pub struct AwaitingContext {
    question: String,
    retrieval: AwaitingHits,
}

/// A run that has put its question to the chat model.
#[derive(Debug)]
pub struct AwaitingCompletion {}

/// What a prompting run does next.
#[derive(Debug)]
pub enum AnswerStep {
    /// Perform the embedding request and resume the run with the reply.
    Embed(EmbeddingRequest, AwaitingQuestionVector),
    /// Perform the search and resume the run with the reply.
    Search(SearchRequest, AwaitingContext),
    /// Perform the completion request and resume the run with the reply.
    Complete(CompletionRequest, AwaitingCompletion),
    /// The run is over.
    Done(Result<String, PromptError>),
}

impl AwaitingQuestionVector {
    /// The question that the run answers.
    pub closed spec fn question(&self) -> Seq<char> {
        self.question@
    }
}

impl AwaitingContext {
    /// The question that the run answers.
    pub closed spec fn question(&self) -> Seq<char> {
        self.question@
    }
}

/// Whether `step` carries on a run for `question` whose retrieval does `inner`
/// next: the retrieval's request is passed on, a retrieved context leads to
/// the completion request, and a retrieval error ends the run unchanged.
pub open spec fn carries_on(step: AnswerStep, question: Seq<char>, inner: RetrieveStep) -> bool {
    match inner {
        RetrieveStep::Embed(request, _) => {
            &&& step matches AnswerStep::Embed(passed, state)
            &&& passed == request
            &&& state.question() == question
        },
        RetrieveStep::Search(request, _) => {
            &&& step matches AnswerStep::Search(passed, state)
            &&& passed == request
            &&& state.question() == question
        },
        RetrieveStep::Done(Ok(context)) => {
            &&& step matches AnswerStep::Complete(request, _)
            &&& request@ == completion_request(question, context@)
        },
        RetrieveStep::Done(Err(error)) => step == AnswerStep::Done(
            Err(PromptError::Retrieval(error)),
        ),
    }
}

fn carry_on(question: String, inner: RetrieveStep) -> (step: AnswerStep)
    ensures
        carries_on(step, question@, inner),
{
    match inner {
        RetrieveStep::Embed(request, retrieval) => AnswerStep::Embed(
            request,
            AwaitingQuestionVector { question, retrieval },
        ),
        RetrieveStep::Search(request, retrieval) => AnswerStep::Search(
            request,
            AwaitingContext { question, retrieval },
        ),
        RetrieveStep::Done(Ok(context)) => AnswerStep::Complete(
            CompletionRequest::new(question.as_str(), context.as_str()),
            AwaitingCompletion {},
        ),
        RetrieveStep::Done(Err(error)) => AnswerStep::Done(Err(PromptError::Retrieval(error))),
    }
}

/// The answer in a completion response: the text of the first choice.
/// A response without choices, or whose first choice has no text or an empty
/// one, is `EmptyCompletion`; a failed call is `CompletionFailed`.
pub open spec fn completed(reply: Result<Vec<Choice>, ServiceFailure>) -> Result<
    Seq<char>,
    PromptError,
> {
    match reply {
        Ok(choices) => if choices@.len() > 0 && choices@[0].content is Some
            && choices@[0].content->0@.len() > 0 {
            Ok(choices@[0].content->0@)
        } else {
            Err(PromptError::EmptyCompletion)
        },
        Err(_) => Err(PromptError::CompletionFailed),
    }
}

/// Starts answering `question`: starts the retrieval of its context, with the
/// question itself as the query.
pub fn answer(question: &str) -> (step: AnswerStep)
    ensures
        step matches AnswerStep::Embed(request, state) && request@ == embedding_request(
            seq![question@],
        ) && state.question() == question@,
{
    carry_on(String::from_str(question), retrieve(question))
}

impl AwaitingQuestionVector {
    /// Resumes the run with the embedding service's reply.
    ///
    /// The run does what its retrieval does: it searches for the one point
    /// nearest to the first vector, or ends with the retrieval's error.
    pub fn resume(self, reply: Result<Vec<EmbeddingVector>, ServiceFailure>) -> (step: AnswerStep)
        ensures
            match searched(reply) {
                Ok(vector) => {
                    &&& step matches AnswerStep::Search(request, state)
                    &&& request@ == nearest_to(vector)
                    &&& state.question() == self.question()
                },
                Err(error) => step == AnswerStep::Done(Err(PromptError::Retrieval(error))),
            },
    {
        carry_on(self.question, self.retrieval.resume(reply))
    }
}

impl AwaitingContext {
    /// Resumes the run with the store's reply.
    ///
    /// Where the retrieval fails, the run fails with the same error and asks
    /// for no completion. Otherwise it asks for one, with the system
    /// instruction and one user message that holds the question and the
    /// retrieved context.
    pub fn resume(self, reply: Result<Vec<SearchHit>, ServiceFailure>) -> (step: AnswerStep)
        ensures
            match retrieved(reply) {
                Ok(context) => {
                    &&& step matches AnswerStep::Complete(request, _)
                    &&& request@ == completion_request(self.question(), context)
                },
                Err(error) => step == AnswerStep::Done(Err(PromptError::Retrieval(error))),
            },
    {
        carry_on(self.question, self.retrieval.resume(reply))
    }
}

impl AwaitingCompletion {
    /// Resumes the run with the chat model's reply and ends it.
    ///
    /// The answer is the text of the first choice and is never empty.
    pub fn resume(self, reply: Result<Vec<Choice>, ServiceFailure>) -> (step: AnswerStep)
        ensures
            step matches AnswerStep::Done(result) && text_result(result) == completed(reply),
            step matches AnswerStep::Done(Ok(text)) ==> text@.len() > 0,
    {
        match reply {
            Ok(choices) => {
                let mut choices = choices;
                if choices.len() > 0 {
                    let first = choices.remove(0);
                    match first.content {
                        Some(text) => {
                            if text.as_str().is_empty() {
                                AnswerStep::Done(Err(PromptError::EmptyCompletion))
                            } else {
                                AnswerStep::Done(Ok(text))
                            }
                        },
                        None => AnswerStep::Done(Err(PromptError::EmptyCompletion)),
                    }
                } else {
                    AnswerStep::Done(Err(PromptError::EmptyCompletion))
                }
            },
            Err(_) => AnswerStep::Done(Err(PromptError::CompletionFailed)),
        }
    }
}

/// An answer is never the empty text.
pub proof fn lemma_answer_is_not_empty(reply: Result<Vec<Choice>, ServiceFailure>)
    ensures
        completed(reply) matches Ok(text) ==> text.len() > 0,
{
}

} // verus!
