//! Retrieval-augmented prompting over tabular text documents.
//!
//! A document is split into rows, each row is embedded and stored as a point
//! in a vector collection, and a question is answered by handing the single
//! nearest document to a chat model as context.
//!
//! The library decides; it never talks to a service itself. Each pipeline is a
//! small machine: it hands its caller the next request to perform and is
//! resumed with the service's reply.

pub mod collection;
pub mod completion;
pub mod config;
pub mod embedding;
pub mod error;
pub mod file;
pub mod ids;
pub mod indexing;
pub mod payload;
pub mod prompting;
pub mod retrieval;
pub mod settings;
pub mod state;
pub mod store;
pub mod text;
