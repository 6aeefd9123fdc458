//! The indexing pipeline: one point per row of a document.
//!
//! `index` starts a run. The run asks for the embeddings of all rows in one
//! request, then writes one point per returned vector, in order, one request
//! each. It stops at the first failure; points written before it stay.

use crate::embedding::{embedding_request, vectors, EmbeddingRequest, EmbeddingVector};
use crate::error::{IndexError, ServiceFailure};
use crate::file::{File, FileView};
use crate::ids::fresh_point_id;
use crate::store::{writes_point, IndexedPoint, UpsertRequest};
use crate::text::clone_texts;
use vstd::prelude::*;

verus! {

/// A run that has asked for the embeddings of its document's rows.
#[derive(Debug)]
pub struct AwaitingEmbeddings {
    doc: File,
}

/// A run that has asked the store to write a point.
#[derive(Debug)]
pub struct AwaitingWrite {
    doc: File,
    vectors: Vec<EmbeddingVector>,
    issued: usize,
}

/// What an indexing run does next.
#[derive(Debug)]
pub enum IndexStep {
    /// Perform the embedding request and resume the run with the reply.
    Embed(EmbeddingRequest, AwaitingEmbeddings),
    /// Perform the upsert request and resume the run with the reply.
    Upsert(UpsertRequest, AwaitingWrite),
    /// The run is over.
    Done(Result<(), IndexError>),
}

impl AwaitingEmbeddings {
    /// The document that the run indexes.
    pub closed spec fn document(&self) -> FileView {
        self.doc@
    }
}

impl AwaitingWrite {
    /// The document that the run indexes.
    pub closed spec fn document(&self) -> FileView {
        self.doc@
    }

    /// The vectors that the embedding service returned, in its order.
    pub closed spec fn vectors(&self) -> Seq<Seq<u32>> {
        vectors(self.vectors@)
    }

    /// How many points the run has asked the store to write so far.
    pub closed spec fn issued(&self) -> nat {
        self.issued as nat
    }
}

/// Whether `step` is what a run does once `issued` of its points are written:
/// it writes the next vector in order with the payload of the whole document,
/// or it is done when every vector has been written.
pub open spec fn writes_next(
    step: IndexStep,
    doc: FileView,
    all: Seq<Seq<u32>>,
    issued: nat,
) -> bool {
    if issued < all.len() {
        &&& step matches IndexStep::Upsert(request, state)
        &&& writes_point(request, doc, all[issued as int])
        &&& state.document() == doc
        &&& state.vectors() == all
        &&& state.issued() == issued + 1
    } else {
        step == IndexStep::Done(Ok(()))
    }
}

/// Whether `next` is what a run does when the write that `step` asks for succeeded.
pub open spec fn follows_write(step: IndexStep, next: IndexStep) -> bool {
    match step {
        IndexStep::Upsert(_, state) => writes_next(
            next,
            state.document(),
            state.vectors(),
            state.issued(),
        ),
        _ => false,
    }
}

/// Whether `steps` are the steps of a run for `doc` from the moment the
/// embedding service returned `all`, each taken when the write before it
/// succeeded.
pub open spec fn is_write_run(steps: Seq<IndexStep>, doc: FileView, all: Seq<Seq<u32>>) -> bool {
    &&& steps.len() > 0
    &&& writes_next(steps[0], doc, all, 0)
    &&& forall|k: int| 0 <= k < steps.len() - 1 ==> follows_write(#[trigger] steps[k], steps[k + 1])
}

/// In a run, the write at position `k` carries the vector at position `k` and
/// the payload of the whole document, and the step after the last vector ends
/// the run with success.
pub proof fn lemma_run_writes_in_order(
    steps: Seq<IndexStep>,
    doc: FileView,
    all: Seq<Seq<u32>>,
    k: int,
)
    requires
        is_write_run(steps, doc, all),
        0 <= k < steps.len(),
    ensures
        k <= all.len(),
        writes_next(steps[k], doc, all, k as nat),
        k < all.len() ==> (steps[k] matches IndexStep::Upsert(request, _) && writes_point(
            request,
            doc,
            all[k],
        )),
        k == all.len() ==> steps[k] == IndexStep::Done(Ok(())),
    decreases k,
{
    if k > 0 {
        lemma_run_writes_in_order(steps, doc, all, k - 1);
        assert(follows_write(steps[k - 1], steps[k]));
    }
}

fn write_next(doc: File, all: Vec<EmbeddingVector>, issued: usize) -> (step: IndexStep)
    ensures
        writes_next(step, doc@, vectors(all@), issued as nat),
{
    if issued < all.len() {
        let point = IndexedPoint::new(fresh_point_id(), all[issued].clone(), &doc);
        IndexStep::Upsert(
            UpsertRequest::single(point),
            AwaitingWrite { doc, vectors: all, issued: issued + 1 },
        )
    } else {
        IndexStep::Done(Ok(()))
    }
}

/// Starts indexing `doc`.
///
/// A document without rows is rejected at once, before any request is made.
/// Any other document has all its rows embedded in one request, in their order.
pub fn index(doc: File) -> (step: IndexStep)
    ensures
        doc@.rows.len() == 0 ==> step == IndexStep::Done(Err(IndexError::EmptyDocument)),
        doc@.rows.len() > 0 ==> {
            &&& step matches IndexStep::Embed(request, state)
            &&& request@ == embedding_request(doc@.rows)
            &&& state.document() == doc@
        },
{
    if doc.rows.len() == 0 {
        IndexStep::Done(Err(IndexError::EmptyDocument))
    } else {
        let request = EmbeddingRequest::new(clone_texts(&doc.rows));
        IndexStep::Embed(request, AwaitingEmbeddings { doc })
    }
}

impl AwaitingEmbeddings {
    /// Resumes the run with the embedding service's reply.
    ///
    /// A failure, a timeout included, ends the run with `EmbeddingFailed`.
    /// Otherwise the first returned vector is written, or the run is done if
    /// none was returned.
    pub fn resume(self, reply: Result<Vec<EmbeddingVector>, ServiceFailure>) -> (step: IndexStep)
        ensures
            match reply {
                Ok(all) => writes_next(step, self.document(), vectors(all@), 0),
                Err(_) => step == IndexStep::Done(Err(IndexError::EmbeddingFailed)),
            },
    {
        match reply {
            Ok(all) => write_next(self.doc, all, 0),
            Err(_) => IndexStep::Done(Err(IndexError::EmbeddingFailed)),
        }
    }
}

impl AwaitingWrite {
    /// Resumes the run with the store's reply to the last write.
    ///
    /// A failure, a timeout included, ends the run with `StoreWriteFailed`
    /// and no further write is attempted. Otherwise the next vector is
    /// written, or the run is done if none is left.
    pub fn resume(self, reply: Result<(), ServiceFailure>) -> (step: IndexStep)
        ensures
            match reply {
                Ok(_) => writes_next(step, self.document(), self.vectors(), self.issued()),
                Err(_) => step == IndexStep::Done(Err(IndexError::StoreWriteFailed)),
            },
    {
        match reply {
            Ok(_) => write_next(self.doc, self.vectors, self.issued),
            Err(_) => IndexStep::Done(Err(IndexError::StoreWriteFailed)),
        }
    }
}

} // verus!
