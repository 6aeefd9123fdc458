//! The retrieval pipeline: the full text of the document nearest to a query.
//!
//! `retrieve` starts a run. The run embeds the query, searches the collection
//! for the single nearest point and returns the text under that point's
//! content key, as it is. Only that one point is looked at: there is no
//! threshold on the score and no second candidate.

use crate::config::KEY_CONTENT;
use crate::embedding::{embedding_request, EmbeddingRequest, EmbeddingVector};
use crate::error::{RetrievalError, ServiceFailure};
use crate::file::FileView;
use crate::payload::{
    is_document_payload, lemma_document_payload_fields, lookup, Payload, PayloadValue,
};
use crate::store::{nearest_to, SearchHit, SearchRequest};
use crate::text::text_result;
use vstd::prelude::*;
use vstd::string::StringExecFns;

verus! {

/// A run that has asked for the embedding of its query.
#[derive(Debug)]
pub struct AwaitingQueryVector {}

/// A run that has asked the store for the nearest point.
#[derive(Debug)]
pub struct AwaitingHits {}

/// What a retrieval run does next.
#[derive(Debug)]
pub enum RetrieveStep {
    /// Perform the embedding request and resume the run with the reply.
    Embed(EmbeddingRequest, AwaitingQueryVector),
    /// Perform the search and resume the run with the reply.
    Search(SearchRequest, AwaitingHits),
    /// The run is over.
    Done(Result<String, RetrievalError>),
}

/// The text under the content key of `payload`; malformed where the key is
/// missing or its value is not text.
pub open spec fn content_of(payload: Payload) -> Result<Seq<char>, RetrievalError> {
    match lookup(payload.fields@, KEY_CONTENT@) {
        Some(PayloadValue::Text(content)) => Ok(content@),
        _ => Err(RetrievalError::MalformedPayload),
    }
}

/// What a run makes of the embedding service's reply: a search with the first
/// vector; `EmbeddingFailed` where the call failed or returned no vector.
pub open spec fn searched(reply: Result<Vec<EmbeddingVector>, ServiceFailure>) -> Result<
    Seq<u32>,
    RetrievalError,
> {
    match reply {
        Ok(found) => if found@.len() > 0 {
            Ok(found@[0]@)
        } else {
            Err(RetrievalError::EmbeddingFailed)
        },
        Err(_) => Err(RetrievalError::EmbeddingFailed),
    }
}

/// What a run makes of the store's reply: the content of the first hit, and
/// of no other; `NoMatch` where there is no hit, `StoreSearchFailed` where
/// the call failed.
pub open spec fn retrieved(reply: Result<Vec<SearchHit>, ServiceFailure>) -> Result<
    Seq<char>,
    RetrievalError,
> {
    match reply {
        Ok(hits) => if hits@.len() > 0 {
            content_of(hits@[0].payload)
        } else {
            Err(RetrievalError::NoMatch)
        },
        Err(_) => Err(RetrievalError::StoreSearchFailed),
    }
}

/// The text under the content key of `payload`.
pub fn content(payload: &Payload) -> (found: Result<String, RetrievalError>)
    ensures
        text_result(found) == content_of(*payload),
{
    match payload.get(KEY_CONTENT) {
        Some(PayloadValue::Text(content)) => Ok(content.clone()),
        _ => Err(RetrievalError::MalformedPayload),
    }
}

/// Starts retrieving the context for `query`: asks for the embedding of the
/// query alone.
pub fn retrieve(query: &str) -> (step: RetrieveStep)
    ensures
        step matches RetrieveStep::Embed(request, _) && request@ == embedding_request(
            seq![query@],
        ),
{
    let mut input: Vec<String> = Vec::new();
    input.push(String::from_str(query));
    let request = EmbeddingRequest::new(input);
    assert(request@.input =~= seq![query@]);
    RetrieveStep::Embed(request, AwaitingQueryVector {})
}

impl AwaitingQueryVector {
    /// Resumes the run with the embedding service's reply.
    ///
    /// With a vector, the run searches for the one point nearest to it.
    /// A failure, a timeout included, or a reply without any vector ends the
    /// run with `EmbeddingFailed`.
    pub fn resume(self, reply: Result<Vec<EmbeddingVector>, ServiceFailure>) -> (step: RetrieveStep)
        ensures
            match searched(reply) {
                Ok(vector) => step matches RetrieveStep::Search(request, _) && request@
                    == nearest_to(vector),
                Err(error) => step == RetrieveStep::Done(Err(error)),
            },
    {
        match reply {
            Ok(found) => {
                let mut found = found;
                if found.len() > 0 {
                    let first = found.remove(0);
                    RetrieveStep::Search(SearchRequest::nearest(first), AwaitingHits {})
                } else {
                    RetrieveStep::Done(Err(RetrievalError::EmbeddingFailed))
                }
            },
            Err(_) => RetrieveStep::Done(Err(RetrievalError::EmbeddingFailed)),
        }
    }
}

impl AwaitingHits {
    /// Resumes the run with the store's reply and ends it.
    ///
    /// The result is the content of the first hit, however many hits the
    /// store returned. No hit is `NoMatch`; a failure, a timeout included, is
    /// `StoreSearchFailed`; a first hit without text under the content key is
    /// `MalformedPayload`.
    pub fn resume(self, reply: Result<Vec<SearchHit>, ServiceFailure>) -> (step: RetrieveStep)
        ensures
            step matches RetrieveStep::Done(result) && text_result(result) == retrieved(reply),
            (reply matches Ok(hits) && hits@.len() == 0) ==> step == RetrieveStep::Done(
                Err(RetrievalError::NoMatch),
            ),
    {
        match reply {
            Ok(hits) => {
                if hits.len() > 0 {
                    RetrieveStep::Done(content(&hits[0].payload))
                } else {
                    RetrieveStep::Done(Err(RetrievalError::NoMatch))
                }
            },
            Err(_) => RetrieveStep::Done(Err(RetrievalError::StoreSearchFailed)),
        }
    }
}

/// A search whose first hit is a point of `doc` retrieves the full text of
/// `doc`, whichever of its rows the point embeds and whatever hits follow.
pub proof fn lemma_indexed_document_is_retrieved(hits: Vec<SearchHit>, doc: FileView)
    requires
        hits@.len() > 0,
        is_document_payload(hits@[0].payload, doc),
    ensures
        retrieved(Ok(hits)) == Ok::<Seq<char>, RetrievalError>(doc.contents),
{
    lemma_document_payload_fields(hits@[0].payload, doc);
}

/// Only the nearest hit counts: two replies with the same first hit retrieve
/// the same, whatever else and however much they hold.
pub proof fn lemma_only_nearest_hit_counts(one: Vec<SearchHit>, other: Vec<SearchHit>)
    requires
        one@.len() > 0,
        other@.len() > 0,
        one@[0] == other@[0],
    ensures
        retrieved(Ok(one)) == retrieved(Ok(other)),
{
}

} // verus!
