//! What can go wrong, by pipeline.

use vstd::prelude::*;
use vstd::string::StringExecFns;

verus! {

/// Why a call to an outside service gave no result.
#[derive(Clone, Copy, Debug, PartialEq, Eq, Structural)]
pub enum ServiceFailure {
    /// The call did not finish within its time limit.
    TimedOut,
    /// The service was unreachable or reported an error.
    Failed,
}

/// Why the collection could not be set up.
#[derive(Clone, Copy, Debug, PartialEq, Eq, Structural)]
pub enum InitError {
    /// The vector store did not create the collection.
    StoreWriteFailed,
}

/// Why a document was not, or not wholly, indexed.
#[derive(Clone, Copy, Debug, PartialEq, Eq, Structural)]
pub enum IndexError {
    /// The document has no rows.
    EmptyDocument,
    /// The embedding service gave no vectors.
    EmbeddingFailed,
    /// The vector store refused a point; points written before it stay.
    StoreWriteFailed,
}

/// Why no context was retrieved.
#[derive(Clone, Copy, Debug, PartialEq, Eq, Structural)]
pub enum RetrievalError {
    /// The embedding service gave no vector for the query.
    EmbeddingFailed,
    /// The vector store did not answer the search.
    StoreSearchFailed,
    /// The search found no point.
    NoMatch,
    /// The nearest point's payload has no text under the content key.
    MalformedPayload,
}

/// Why a question got no answer.
#[derive(Clone, Copy, Debug, PartialEq, Eq, Structural)]
pub enum PromptError {
    /// Retrieval failed; the error is the one it failed with.
    Retrieval(RetrievalError),
    /// The completion service gave no response.
    CompletionFailed,
    /// The response's first choice is absent or has no text.
    EmptyCompletion,
}

impl InitError {
    /// What to tell the user.
    pub open spec fn message_of(self) -> Seq<char> {
        "The collection could not be created"@
    }

    /// What to tell the user.
    pub fn message(&self) -> (text: String)
        ensures
            text@ == self.message_of(),
    {
        String::from_str("The collection could not be created")
    }
}

impl IndexError {
    /// What to tell the user.
    pub open spec fn message_of(self) -> Seq<char> {
        match self {
            IndexError::EmptyDocument => "There are no rows in the file"@,
            IndexError::EmbeddingFailed => "The rows could not be embedded"@,
            IndexError::StoreWriteFailed => "A point could not be written"@,
        }
    }

    /// What to tell the user.
    pub fn message(&self) -> (text: String)
        ensures
            text@ == self.message_of(),
    {
        match self {
            IndexError::EmptyDocument => String::from_str("There are no rows in the file"),
            IndexError::EmbeddingFailed => String::from_str("The rows could not be embedded"),
            IndexError::StoreWriteFailed => String::from_str("A point could not be written"),
        }
    }
}

impl RetrievalError {
    /// What to tell the user.
    pub open spec fn message_of(self) -> Seq<char> {
        match self {
            RetrievalError::EmbeddingFailed => "The question could not be embedded"@,
            RetrievalError::StoreSearchFailed => "The search could not be performed"@,
            RetrievalError::NoMatch => "There were no results that matched :("@,
            RetrievalError::MalformedPayload => "The nearest point carries no content"@,
        }
    }

    /// What to tell the user.
    pub fn message(&self) -> (text: String)
        ensures
            text@ == self.message_of(),
    {
        match self {
            RetrievalError::EmbeddingFailed => String::from_str(
                "The question could not be embedded",
            ),
            RetrievalError::StoreSearchFailed => String::from_str(
                "The search could not be performed",
            ),
            RetrievalError::NoMatch => String::from_str("There were no results that matched :("),
            RetrievalError::MalformedPayload => String::from_str(
                "The nearest point carries no content",
            ),
        }
    }
}

impl PromptError {
    /// What to tell the user; for a retrieval error, what that error tells.
    pub open spec fn message_of(self) -> Seq<char> {
        match self {
            PromptError::Retrieval(error) => error.message_of(),
            PromptError::CompletionFailed => "The completion could not be performed"@,
            PromptError::EmptyCompletion => "The completion holds no answer"@,
        }
    }

    /// What to tell the user; for a retrieval error, what that error tells.
    pub fn message(&self) -> (text: String)
        ensures
            text@ == self.message_of(),
    {
        match self {
            PromptError::Retrieval(error) => error.message(),
            PromptError::CompletionFailed => String::from_str(
                "The completion could not be performed",
            ),
            PromptError::EmptyCompletion => String::from_str("The completion holds no answer"),
        }
    }
}

} // verus!
