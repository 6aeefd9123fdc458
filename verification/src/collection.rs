//! Setting up the collection that holds the points.
//!
//! The collection is created once, before the first document is indexed. It
//! takes vectors of the configured length and compares them by cosine.

use crate::error::{InitError, ServiceFailure};
use crate::store::{collection_request, CreateCollectionRequest};
use vstd::prelude::*;

verus! {

/// A set-up that has asked the store to create the collection.
#[derive(Debug)]
pub struct AwaitingCollection {}

/// What the store said to a request to create the collection.
#[derive(Clone, Copy, Debug, PartialEq, Eq, Structural)]
pub enum Creation {
    /// The collection was created.
    Created,
    /// The store reports that the collection exists already.
    AlreadyExists,
}

/// What setting up the collection does next.
#[derive(Debug)]
pub enum InitStep {
    /// Perform the request and resume with the reply.
    Create(CreateCollectionRequest, AwaitingCollection),
    /// The set-up is over.
    Done(Result<(), InitError>),
}

/// Starts setting up the collection: asks the store to create it, as wide as
/// the embeddings and compared by cosine.
pub fn initialize_collection() -> (step: InitStep)
    ensures
        step matches InitStep::Create(request, _) && request@ == collection_request(),
{
    InitStep::Create(CreateCollectionRequest::configured(), AwaitingCollection {})
}

impl AwaitingCollection {
    /// Resumes the set-up with the store's reply.
    ///
    /// A collection that exists already is as good as one just created; any
    /// failure, a timeout included, is `StoreWriteFailed`.
    pub fn resume(self, reply: Result<Creation, ServiceFailure>) -> (step: InitStep)
        ensures
            match reply {
                Ok(_) => step == InitStep::Done(Ok(())),
                Err(_) => step == InitStep::Done(Err(InitError::StoreWriteFailed)),
            },
    {
        match reply {
            Ok(_) => InitStep::Done(Ok(())),
            Err(_) => InitStep::Done(Err(InitError::StoreWriteFailed)),
        }
    }
}

} // verus!
