//! The fixed configuration of the pipelines.

use vstd::prelude::*;

verus! {

/// The collection that holds every indexed point.
pub const COLLECTION: &'static str = "csv-files";

/// The chat model that answers questions.
pub const GPT_MODEL: &'static str = "gpt-4o-mini";

/// The model that embeds rows and questions.
pub const EMBEDDING_MODEL: &'static str = "text-embedding-3-small";

/// The length of every embedding vector, and of the collection's vectors.
pub const EMBEDDING_DIMENSIONS: u32 = 512;

/// How many neighbours a search asks for: only the nearest.
pub const SEARCH_LIMIT: u64 = 1;

/// The instruction that opens every completion request.
pub const SYSTEM_PROMPT: &'static str =
    "You are a world-class data analyst, specialising in analysing comma-delimited CSV files.\n      Your job is to analyse some CSV snippets and determine what the results are for the question that the user is asking.\n      You should aim to be concise. If you don't know something, don't make it up but say 'I don't know.'.";

/// What stands between the question and the retrieved context in the user message.
pub const CONTEXT_SEPARATOR: &'static str = "\n          \n          Context:\n          ";

/// The payload key under which a point carries its document's path.
pub const KEY_ID: &'static str = "id";

/// The payload key under which a point carries its document's full text.
pub const KEY_CONTENT: &'static str = "content";

/// The payload key under which a point carries its document's rows.
pub const KEY_ROWS: &'static str = "rows";

} // verus!
