use csv_rag::completion::{Choice, CompletionRequest, Role};
use csv_rag::config::{CONTEXT_SEPARATOR, GPT_MODEL, SYSTEM_PROMPT};
use csv_rag::embedding::EmbeddingVector;
use csv_rag::error::{PromptError, RetrievalError, ServiceFailure};
use csv_rag::payload::{Payload, PayloadField, PayloadValue};
use csv_rag::prompting::{answer, AnswerStep, AwaitingCompletion, AwaitingContext};
use csv_rag::store::SearchHit;

fn hit(content: PayloadValue) -> SearchHit {
    SearchHit { payload: Payload { fields: vec![PayloadField { key: "content".to_string(), value: content }] } }
}

fn text_hit(content: &str) -> SearchHit {
    hit(PayloadValue::Text(content.to_string()))
}

fn awaiting_context(question: &str) -> AwaitingContext {
    let state = match answer(question) {
        AnswerStep::Embed(_, state) => state,
        other => panic!("expected an embedding request, got {:?}", other),
    };
    match state.resume(Ok(vec![EmbeddingVector { bits: vec![9, 8, 7] }])) {
        AnswerStep::Search(_, state) => state,
        other => panic!("expected a search, got {:?}", other),
    }
}

fn completion_for(question: &str, context: &str) -> (CompletionRequest, AwaitingCompletion) {
    match awaiting_context(question).resume(Ok(vec![text_hit(context)])) {
        AnswerStep::Complete(request, state) => (request, state),
        other => panic!("expected a completion request, got {:?}", other),
    }
}

fn outcome(step: AnswerStep) -> Result<String, PromptError> {
    match step {
        AnswerStep::Done(result) => result,
        other => panic!("expected the end, got {:?}", other),
    }
}

fn choice(content: Option<&str>) -> Choice {
    Choice { content: content.map(|s| s.to_string()) }
}

#[test]
fn answer_starts_by_embedding_the_question() {
    match answer("What is the average of val?") {
        AnswerStep::Embed(request, _) => {
            assert_eq!(request.model, "text-embedding-3-small");
            assert_eq!(request.dimensions, 512);
            assert_eq!(request.input, vec!["What is the average of val?"]);
        }
        other => panic!("expected an embedding request, got {:?}", other),
    }
}

#[test]
fn answer_searches_with_the_question_vector() {
    let state = match answer("q") {
        AnswerStep::Embed(_, state) => state,
        other => panic!("expected an embedding request, got {:?}", other),
    };
    match state.resume(Ok(vec![EmbeddingVector { bits: vec![4, 5, 6] }])) {
        AnswerStep::Search(request, _) => {
            assert_eq!(request.collection, "csv-files");
            assert_eq!(request.limit, 1);
            assert!(request.with_payload);
            assert_eq!(request.vector.bits, vec![4, 5, 6]);
        }
        other => panic!("expected a search, got {:?}", other),
    }
}

#[test]
fn completion_request_has_system_then_user_message() {
    let (request, _) = completion_for("What is the average of val?", "id,val\n1,10\n2,20");
    assert_eq!(request.model, "gpt-4o-mini");
    assert_eq!(request.messages.len(), 2);
    assert_eq!(request.messages[0].role, Role::System);
    assert_eq!(request.messages[0].content, SYSTEM_PROMPT);
    assert_eq!(request.messages[1].role, Role::User);
    assert_eq!(
        request.messages[1].content,
        "What is the average of val?\n          \n          Context:\n          id,val\n1,10\n2,20"
    );
}

#[test]
fn user_message_holds_question_and_context() {
    let question = "which row has the largest val?";
    let context = "id,val\n1,10\n2,20";
    let (request, _) = completion_for(question, context);
    let user = &request.messages[1].content;
    assert!(user.starts_with(question));
    assert!(user.ends_with(context));
    assert_eq!(user.len(), question.len() + CONTEXT_SEPARATOR.len() + context.len());
    assert_eq!(user, &format!("{}{}{}", question, CONTEXT_SEPARATOR, context));
}

#[test]
fn completion_request_new_matches_the_pipeline() {
    let direct = CompletionRequest::new("q", "c");
    let (piped, _) = completion_for("q", "c");
    assert_eq!(direct.model, piped.model);
    assert_eq!(direct.messages.len(), piped.messages.len());
    for (a, b) in direct.messages.iter().zip(piped.messages.iter()) {
        assert_eq!(a.role, b.role);
        assert_eq!(a.content, b.content);
    }
    let empty = CompletionRequest::new("", "");
    assert_eq!(empty.messages[1].content, CONTEXT_SEPARATOR);
}

#[test]
fn configured_texts() {
    assert_eq!(GPT_MODEL, "gpt-4o-mini");
    assert_eq!(CONTEXT_SEPARATOR, "\n          \n          Context:\n          ");
    assert!(SYSTEM_PROMPT.starts_with("You are a world-class data analyst, specialising in analysing comma-delimited CSV files.\n      Your job"));
    assert!(SYSTEM_PROMPT.ends_with("asking.\n      You should aim to be concise. If you don't know something, don't make it up but say 'I don't know.'."));
    assert_eq!(SYSTEM_PROMPT.lines().count(), 3);
    assert_eq!(SYSTEM_PROMPT.len(), 319);
}

#[test]
fn retrieval_errors_pass_through_unchanged() {
    let state = match answer("q") {
        AnswerStep::Embed(_, state) => state,
        other => panic!("expected an embedding request, got {:?}", other),
    };
    assert_eq!(
        outcome(state.resume(Err(ServiceFailure::Failed))),
        Err(PromptError::Retrieval(RetrievalError::EmbeddingFailed))
    );
    let state = match answer("q") {
        AnswerStep::Embed(_, state) => state,
        other => panic!("expected an embedding request, got {:?}", other),
    };
    assert_eq!(
        outcome(state.resume(Ok(vec![]))),
        Err(PromptError::Retrieval(RetrievalError::EmbeddingFailed))
    );
    assert_eq!(
        outcome(awaiting_context("q").resume(Err(ServiceFailure::TimedOut))),
        Err(PromptError::Retrieval(RetrievalError::StoreSearchFailed))
    );
    assert_eq!(
        outcome(awaiting_context("q").resume(Ok(vec![]))),
        Err(PromptError::Retrieval(RetrievalError::NoMatch))
    );
    assert_eq!(
        outcome(awaiting_context("q").resume(Ok(vec![hit(PayloadValue::Integer(3))]))),
        Err(PromptError::Retrieval(RetrievalError::MalformedPayload))
    );
}

#[test]
fn context_comes_from_the_first_hit_only() {
    match awaiting_context("q").resume(Ok(vec![text_hit("near"), text_hit("far")])) {
        AnswerStep::Complete(request, _) => {
            assert!(request.messages[1].content.ends_with("near"));
            assert!(!request.messages[1].content.contains("far"));
        }
        other => panic!("expected a completion request, got {:?}", other),
    }
}

#[test]
fn first_choice_is_the_answer() {
    let (_, state) = completion_for("q", "c");
    let reply = vec![choice(Some("15")), choice(Some("other"))];
    assert_eq!(outcome(state.resume(Ok(reply))), Ok("15".to_string()));
}

#[test]
fn completion_failure_is_reported() {
    for failure in [ServiceFailure::Failed, ServiceFailure::TimedOut] {
        let (_, state) = completion_for("q", "c");
        assert_eq!(outcome(state.resume(Err(failure))), Err(PromptError::CompletionFailed));
    }
}

#[test]
fn response_without_choices_is_empty_completion() {
    let (_, state) = completion_for("q", "c");
    assert_eq!(outcome(state.resume(Ok(vec![]))), Err(PromptError::EmptyCompletion));
}

#[test]
fn first_choice_without_text_is_empty_completion() {
    let (_, state) = completion_for("q", "c");
    assert_eq!(
        outcome(state.resume(Ok(vec![choice(None), choice(Some("later"))]))),
        Err(PromptError::EmptyCompletion)
    );
}

#[test]
fn first_choice_with_empty_text_is_empty_completion() {
    let (_, state) = completion_for("q", "c");
    assert_eq!(
        outcome(state.resume(Ok(vec![choice(Some("")), choice(Some("later"))]))),
        Err(PromptError::EmptyCompletion)
    );
}
