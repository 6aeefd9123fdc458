use csv_rag::embedding::EmbeddingVector;
use csv_rag::error::{RetrievalError, ServiceFailure};
use csv_rag::payload::{Payload, PayloadField, PayloadValue};
use csv_rag::retrieval::{content, retrieve, AwaitingHits, RetrieveStep};
use csv_rag::store::SearchHit;

fn field(key: &str, value: PayloadValue) -> PayloadField {
    PayloadField { key: key.to_string(), value }
}

fn text(s: &str) -> PayloadValue {
    PayloadValue::Text(s.to_string())
}

fn hit(content: &str) -> SearchHit {
    SearchHit {
        payload: Payload {
            fields: vec![
                field("id", text("a.csv")),
                field("content", text(content)),
                field("rows", PayloadValue::List(vec![text(content)])),
            ],
        },
    }
}

fn searching() -> AwaitingHits {
    let state = match retrieve("q") {
        RetrieveStep::Embed(_, state) => state,
        other => panic!("expected an embedding request, got {:?}", other),
    };
    match state.resume(Ok(vec![EmbeddingVector { bits: vec![1, 2, 3] }])) {
        RetrieveStep::Search(_, state) => state,
        other => panic!("expected a search, got {:?}", other),
    }
}

fn outcome(step: RetrieveStep) -> Result<String, RetrievalError> {
    match step {
        RetrieveStep::Done(result) => result,
        other => panic!("expected the end, got {:?}", other),
    }
}

#[test]
fn retrieve_embeds_the_query_alone() {
    match retrieve("what is row 1?") {
        RetrieveStep::Embed(request, _) => {
            assert_eq!(request.model, "text-embedding-3-small");
            assert_eq!(request.dimensions, 512);
            assert_eq!(request.input, vec!["what is row 1?"]);
        }
        other => panic!("expected an embedding request, got {:?}", other),
    }
}

#[test]
fn search_asks_for_the_single_nearest_point_with_payload() {
    let state = match retrieve("q") {
        RetrieveStep::Embed(_, state) => state,
        other => panic!("expected an embedding request, got {:?}", other),
    };
    let first = EmbeddingVector { bits: vec![0.25f32.to_bits(), (-1.5f32).to_bits()] };
    let second = EmbeddingVector { bits: vec![7, 8] };
    match state.resume(Ok(vec![first, second])) {
        RetrieveStep::Search(request, _) => {
            assert_eq!(request.collection, "csv-files");
            assert_eq!(request.limit, 1);
            assert!(request.with_payload);
            assert_eq!(request.vector.bits, vec![0.25f32.to_bits(), (-1.5f32).to_bits()]);
        }
        other => panic!("expected a search, got {:?}", other),
    }
}

#[test]
fn query_embedding_failure_is_reported() {
    for failure in [ServiceFailure::Failed, ServiceFailure::TimedOut] {
        match retrieve("q") {
            RetrieveStep::Embed(_, state) => assert_eq!(
                outcome(state.resume(Err(failure))),
                Err(RetrievalError::EmbeddingFailed)
            ),
            other => panic!("expected an embedding request, got {:?}", other),
        }
    }
}

#[test]
fn reply_without_a_vector_is_an_embedding_failure() {
    match retrieve("q") {
        RetrieveStep::Embed(_, state) => {
            assert_eq!(outcome(state.resume(Ok(vec![]))), Err(RetrievalError::EmbeddingFailed))
        }
        other => panic!("expected an embedding request, got {:?}", other),
    }
}

#[test]
fn content_of_the_hit_is_returned_verbatim() {
    let result = outcome(searching().resume(Ok(vec![hit("id,val\n1,10\n2,20")])));
    assert_eq!(result, Ok("id,val\n1,10\n2,20".to_string()));
}

#[test]
fn only_the_first_hit_is_used() {
    let result = outcome(searching().resume(Ok(vec![hit("first"), hit("second"), hit("third")])));
    assert_eq!(result, Ok("first".to_string()));
}

#[test]
fn no_hit_is_no_match() {
    assert_eq!(outcome(searching().resume(Ok(vec![]))), Err(RetrievalError::NoMatch));
}

#[test]
fn search_failure_is_reported() {
    for failure in [ServiceFailure::Failed, ServiceFailure::TimedOut] {
        assert_eq!(
            outcome(searching().resume(Err(failure))),
            Err(RetrievalError::StoreSearchFailed)
        );
    }
}

#[test]
fn missing_content_is_malformed() {
    let bare = SearchHit { payload: Payload { fields: vec![field("id", text("a.csv"))] } };
    assert_eq!(outcome(searching().resume(Ok(vec![bare]))), Err(RetrievalError::MalformedPayload));
    let empty = SearchHit { payload: Payload { fields: vec![] } };
    assert_eq!(
        outcome(searching().resume(Ok(vec![empty, hit("second")]))),
        Err(RetrievalError::MalformedPayload)
    );
}

#[test]
fn content_that_is_not_text_is_malformed() {
    let values = vec![
        PayloadValue::Null,
        PayloadValue::Bool(true),
        PayloadValue::Integer(7),
        PayloadValue::Number(1.5f64.to_bits()),
        PayloadValue::List(vec![text("x")]),
        PayloadValue::Object(vec![field("content", text("x"))]),
    ];
    for value in values {
        let payload = Payload { fields: vec![field("content", value)] };
        assert_eq!(content(&payload), Err(RetrievalError::MalformedPayload));
    }
}

#[test]
fn empty_content_is_still_content() {
    assert_eq!(outcome(searching().resume(Ok(vec![hit("")]))), Ok(String::new()));
}

#[test]
fn get_finds_the_first_field_of_that_name() {
    let payload = Payload {
        fields: vec![
            field("id", text("a")),
            field("content", text("one")),
            field("content", text("two")),
        ],
    };
    assert_eq!(payload.get("content"), Some(&text("one")));
    assert_eq!(payload.get("id"), Some(&text("a")));
    assert_eq!(payload.get("rows"), None);
    assert_eq!(payload.get(""), None);
    assert_eq!(payload.get("Content"), None);
    assert_eq!(content(&payload), Ok("one".to_string()));
}

#[test]
fn list_of_keeps_order() {
    let rows = vec!["b".to_string(), "a".to_string(), "".to_string()];
    assert_eq!(
        PayloadValue::list_of(&rows),
        PayloadValue::List(vec![text("b"), text("a"), text("")])
    );
    assert_eq!(PayloadValue::list_of(&vec![]), PayloadValue::List(vec![]));
}
