//! What is written to and asked of the vector store.

use crate::config::{COLLECTION, EMBEDDING_DIMENSIONS, SEARCH_LIMIT};
use crate::embedding::{embedding_request, EmbeddingVector};
use crate::file::{File, FileView};
use crate::ids::is_point_id;
use crate::payload::{is_document_payload, Payload};
use vstd::prelude::*;
use vstd::string::StringExecFns;

verus! {

/// How the collection measures the similarity of two vectors.
#[derive(Clone, Copy, Debug, PartialEq, Eq, Structural)]
pub enum Distance {
    Cosine,
}

/// A request to create a collection.
#[derive(Debug)]
pub struct CreateCollectionRequest {
    pub name: String,
    pub dimensions: u64,
    pub distance: Distance,
}

/// What a `CreateCollectionRequest` holds.
pub struct CreateCollectionRequestView {
    pub name: Seq<char>,
    pub dimensions: u64,
    pub distance: Distance,
}

impl View for CreateCollectionRequest {
    type V = CreateCollectionRequestView;

    open spec fn view(&self) -> CreateCollectionRequestView {
        CreateCollectionRequestView {
            name: self.name@,
            dimensions: self.dimensions,
            distance: self.distance,
        }
    }
}

/// The one collection of this library: as wide as the embeddings, compared by cosine.
pub open spec fn collection_request() -> CreateCollectionRequestView {
    CreateCollectionRequestView {
        name: COLLECTION@,
        dimensions: EMBEDDING_DIMENSIONS as u64,
        distance: Distance::Cosine,
    }
}

/// The collection is as wide as the embeddings that are asked for, whatever
/// is embedded.
pub proof fn lemma_collection_fits_embeddings(input: Seq<Seq<char>>)
    ensures
        collection_request().dimensions == embedding_request(input).dimensions,
        collection_request().distance == Distance::Cosine,
{
}

impl CreateCollectionRequest {
    /// The request that creates the configured collection.
    pub fn configured() -> (request: CreateCollectionRequest)
        ensures
            request@ == collection_request(),
    {
        CreateCollectionRequest {
            name: String::from_str(COLLECTION),
            dimensions: EMBEDDING_DIMENSIONS as u64,
            distance: Distance::Cosine,
        }
    }
}

/// One stored point: an identifier, the embedding of one row, and the payload
/// of the document that the row belongs to.
#[derive(Debug)]
pub struct IndexedPoint {
    pub id: String,
    pub vector: EmbeddingVector,
    pub payload: Payload,
}

impl IndexedPoint {
    /// The point that stores `vector`, the embedding of one row of `doc`,
    /// under `id`. Its payload is that of the whole document.
    pub fn new(id: String, vector: EmbeddingVector, doc: &File) -> (point: IndexedPoint)
        ensures
            point.id == id,
            point.vector == vector,
            is_document_payload(point.payload, doc@),
    {
        IndexedPoint { id, vector, payload: Payload::of_document(doc) }
    }
}

/// A request to insert points into a collection.
#[derive(Debug)]
pub struct UpsertRequest {
    pub collection: String,
    pub points: Vec<IndexedPoint>,
}

/// Whether `request` writes exactly one point into the configured collection:
/// a point with a well-formed identifier, the given vector and the payload of `doc`.
pub open spec fn writes_point(request: UpsertRequest, doc: FileView, vector: Seq<u32>) -> bool {
    &&& request.collection@ == COLLECTION@
    &&& request.points@.len() == 1
    &&& is_point_id(request.points@[0].id@)
    &&& request.points@[0].vector@ == vector
    &&& is_document_payload(request.points@[0].payload, doc)
}

impl UpsertRequest {
    /// The request that writes `point`, and nothing else, into the configured collection.
    pub fn single(point: IndexedPoint) -> (request: UpsertRequest)
        ensures
            request.collection@ == COLLECTION@,
            request.points@ == seq![point],
    {
        let mut points: Vec<IndexedPoint> = Vec::new();
        points.push(point);
        assert(points@ =~= seq![point]);
        UpsertRequest { collection: String::from_str(COLLECTION), points }
    }
}

/// A request for the points nearest to a vector.
#[derive(Debug)]
pub struct SearchRequest {
    pub collection: String,
    pub vector: EmbeddingVector,
    pub limit: u64,
    pub with_payload: bool,
}

/// What a `SearchRequest` holds.
pub struct SearchRequestView {
    pub collection: Seq<char>,
    pub vector: Seq<u32>,
    pub limit: u64,
    pub with_payload: bool,
}

impl View for SearchRequest {
    type V = SearchRequestView;

    open spec fn view(&self) -> SearchRequestView {
        SearchRequestView {
            collection: self.collection@,
            vector: self.vector@,
            limit: self.limit,
            with_payload: self.with_payload,
        }
    }
}

/// The search for the single point nearest to `vector`, payload included.
pub open spec fn nearest_to(vector: Seq<u32>) -> SearchRequestView {
    SearchRequestView {
        collection: COLLECTION@,
        vector,
        limit: SEARCH_LIMIT,
        with_payload: true,
    }
}

impl SearchRequest {
    /// The search for the single point nearest to `vector`, payload included.
    pub fn nearest(vector: EmbeddingVector) -> (request: SearchRequest)
        ensures
            request@ == nearest_to(vector@),
            request.limit == 1,
            request.with_payload,
    {
        SearchRequest {
            collection: String::from_str(COLLECTION),
            vector,
            limit: SEARCH_LIMIT,
            with_payload: true,
        }
    }
}

/// One point that a search found. Hits come nearest first.
#[derive(Debug)]
pub struct SearchHit {
    pub payload: Payload,
}

} // verus!
