//! Embedding vectors and the request that asks for them.

use crate::config::{EMBEDDING_DIMENSIONS, EMBEDDING_MODEL};
use crate::text::texts;
use vstd::prelude::*;
use vstd::string::StringExecFns;

verus! {

/// One embedding, as the service returned it.
///
/// Each component is held as the bit pattern of its single-precision value,
/// so that a vector passes through the library unchanged.
#[derive(Debug)]
pub struct EmbeddingVector {
    pub bits: Vec<u32>,
}

impl View for EmbeddingVector {
    type V = Seq<u32>;

    open spec fn view(&self) -> Seq<u32> {
        self.bits@
    }
}

impl Clone for EmbeddingVector {
    fn clone(&self) -> (copy: EmbeddingVector)
        ensures
            copy@ == self@,
    {
        let mut bits: Vec<u32> = Vec::new();
        let mut i: usize = 0;
        while i < self.bits.len()
            invariant
                i <= self.bits.len(),
                bits@ == self.bits@.subrange(0, i as int),
            decreases self.bits.len() - i,
        {
            bits.push(self.bits[i]);
            assert(bits@ =~= self.bits@.subrange(0, i + 1));
            i += 1;
        }
        assert(bits@ =~= self.bits@);
        EmbeddingVector { bits }
    }
}

/// The contents of a list of vectors.
pub open spec fn vectors(items: Seq<EmbeddingVector>) -> Seq<Seq<u32>> {
    Seq::new(items.len(), |i: int| items[i]@)
}

/// A request to embed some texts, one vector per text, in the order given.
#[derive(Debug)]
pub struct EmbeddingRequest {
    pub model: String,
    pub input: Vec<String>,
    pub dimensions: u32,
}

/// What an `EmbeddingRequest` holds.
pub struct EmbeddingRequestView {
    pub model: Seq<char>,
    pub input: Seq<Seq<char>>,
    pub dimensions: u32,
}

impl View for EmbeddingRequest {
    type V = EmbeddingRequestView;

    open spec fn view(&self) -> EmbeddingRequestView {
        EmbeddingRequestView {
            model: self.model@,
            input: texts(self.input@),
            dimensions: self.dimensions,
        }
    }
}

/// The request that embeds `input` with the configured model and dimensions.
pub open spec fn embedding_request(input: Seq<Seq<char>>) -> EmbeddingRequestView {
    EmbeddingRequestView {
        model: EMBEDDING_MODEL@,
        input,
        dimensions: EMBEDDING_DIMENSIONS,
    }
}

impl EmbeddingRequest {
    /// The request that embeds `input` with the configured model and dimensions.
    pub fn new(input: Vec<String>) -> (request: EmbeddingRequest)
        ensures
            request@ == embedding_request(texts(input@)),
    {
        EmbeddingRequest {
            model: String::from_str(EMBEDDING_MODEL),
            input,
            dimensions: EMBEDDING_DIMENSIONS,
        }
    }
}

} // verus!
