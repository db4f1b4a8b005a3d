//! Document retrieval (RAG) and gateway decision logic, verified with Verus.
pub mod text;
pub mod json;
pub mod chunk;
pub mod document;
pub mod content;
pub mod rag;
pub mod context;
pub mod query;
pub mod ingest;
pub mod index;
pub mod clock;
pub mod work;
pub mod send;
pub mod gateway;
pub mod hook;
