//! The data of the document index: documents, their types, requests to
//! ingest and to query, retrieved chunks, entries of the memory backend,
//! and the errors of ingestion.
use vstd::prelude::*;
use crate::index::Keyed;
use crate::text::{decimal, joined, owned, push_decimal};

verus! {

/// The kind of text a document holds.
#[derive(Clone, Copy, Debug, PartialEq, Eq, Structural)]
pub enum DocumentType {
    Markdown,
    Text,
    Html,
    Pdf,
}

/// The lowercase name under which a document type is shown and stored.
pub open spec fn kind_name(t: DocumentType) -> Seq<char> {
    match t {
        DocumentType::Markdown => "markdown"@,
        DocumentType::Text => "text"@,
        DocumentType::Html => "html"@,
        DocumentType::Pdf => "pdf"@,
    }
}

impl DocumentType {
    /// The lowercase name of the type.
    pub fn as_str(&self) -> (r: &'static str)
        ensures
            r@ == kind_name(*self),
    {
        match self {
            DocumentType::Markdown => "markdown",
            DocumentType::Text => "text",
            DocumentType::Html => "html",
            DocumentType::Pdf => "pdf",
        }
    }

    /// The lowercase name of the type, as an owned string.
    pub fn to_string(&self) -> (r: String)
        ensures
            r@ == kind_name(*self),
    {
        owned(self.as_str())
    }
}

/// Different document types have different names.
pub proof fn lemma_kind_names_distinct(a: DocumentType, b: DocumentType)
    ensures
        kind_name(a) == kind_name(b) ==> a == b,
{
    reveal_strlit("markdown");
    reveal_strlit("text");
    reveal_strlit("html");
    reveal_strlit("pdf");
    if a != b {
        assert(kind_name(a).len() != kind_name(b).len() || kind_name(a)[0] != kind_name(b)[0]);
    }
}

/// A document held in the index.
pub struct Document {
    pub id: String,
    pub title: String,
    /// The file path or URL the text came from, or `inline`.
    pub source: String,
    pub content_type: DocumentType,
    pub chunk_count: usize,
    pub created_at: String,
}

impl Clone for Document {
    fn clone(&self) -> (r: Self)
        ensures
            r == *self,
    {
        Document {
            id: self.id.clone(),
            title: self.title.clone(),
            source: self.source.clone(),
            content_type: self.content_type,
            chunk_count: self.chunk_count,
            created_at: self.created_at.clone(),
        }
    }
}

impl Keyed for Document {
    open spec fn key_of(&self) -> Seq<char> {
        self.id@
    }

    fn key(&self) -> (r: &str) {
        self.id.as_str()
    }

    fn duplicate(&self) -> (r: Self) {
        self.clone()
    }
}

/// A chunk of a document that a query retrieved, with its relevance score.
pub struct RetrievedChunk {
    pub document_id: String,
    pub document_title: String,
    pub chunk_index: usize,
    pub content: String,
    /// The relevance score in millionths (0.85 is 850000).
    pub score_micros: i64,
}

/// A request to ingest a document: its text inline, or a URL to fetch, or a
/// file to read, in that order of preference.
pub struct IngestRequest {
    pub title: String,
    pub content: Option<String>,
    pub url: Option<String>,
    pub file_path: Option<String>,
    pub content_type: Option<DocumentType>,
}

/// A request to query the index.
pub struct QueryRequest {
    pub query: String,
    pub max_chunks: Option<usize>,
    /// The least relevance score accepted, in millionths.
    pub min_relevance_micros: Option<i64>,
}

/// The category of an entry of the memory backend.
pub enum MemoryCategory {
    /// A category named by its user.
    Custom(String),
    /// One of the backend's own categories.
    Builtin,
}

/// An entry that the memory backend gives back.
pub struct MemoryEntry {
    pub key: String,
    pub content: String,
    pub category: MemoryCategory,
    /// The entry's relevance score in millionths, where the backend gave one.
    pub score_micros: Option<i64>,
}

/// One chunk of a split document: its position, content and heading.
pub struct ChunkData {
    pub index: usize,
    pub content: String,
    pub heading: Option<String>,
}

/// Why ingesting, querying or deleting failed.
pub enum RagError {
    /// Splitting the text gave no chunks.
    NoChunks,
    /// The file is a PDF, which this build does not read.
    PdfUnsupported,
    /// The request names no content, URL or file.
    NoSource,
    /// Fetching the URL failed.
    FetchUrl { url: String },
    /// Reading the body of the fetched URL failed.
    ReadBody,
    /// Reading the file failed.
    ReadFile { path: String },
    /// The chunk's metadata could not be written as JSON; the JSON error's text.
    Metadata(String),
    /// Storing the chunk with this index failed.
    StoreChunk { index: usize },
    /// The memory backend failed to answer a query.
    QueryBackend,
    /// The memory backend failed; its error's text.
    Backend(String),
}

/// The text shown for an error.
pub open spec fn error_message(e: RagError) -> Seq<char> {
    match e {
        RagError::NoChunks => "Document produced no chunks after splitting"@,
        RagError::PdfUnsupported => "PDF support requires the `rag-pdf` feature flag"@,
        RagError::NoSource => "IngestRequest must specify content, url, or file_path"@,
        RagError::FetchUrl { url } => "Failed to fetch URL: "@ + url@,
        RagError::ReadBody => "Failed to read URL response body"@,
        RagError::ReadFile { path } => "Failed to read file: "@ + path@,
        RagError::Metadata(m) => m@,
        RagError::StoreChunk { index } => "Failed to store chunk "@ + decimal(index as nat),
        RagError::QueryBackend => "Failed to query memory backend"@,
        RagError::Backend(m) => m@,
    }
}

impl RagError {
    /// The text shown for this error.
    pub fn message(&self) -> (r: String)
        ensures
            r@ == error_message(*self),
    {
        match self {
            RagError::NoChunks => owned("Document produced no chunks after splitting"),
            RagError::PdfUnsupported => owned("PDF support requires the `rag-pdf` feature flag"),
            RagError::NoSource => owned("IngestRequest must specify content, url, or file_path"),
            RagError::FetchUrl { url } => joined("Failed to fetch URL: ", url.as_str()),
            RagError::ReadBody => owned("Failed to read URL response body"),
            RagError::ReadFile { path } => joined("Failed to read file: ", path.as_str()),
            RagError::Metadata(m) => m.clone(),
            RagError::StoreChunk { index } => {
                let mut r = owned("Failed to store chunk ");
                push_decimal(&mut r, *index as u64);
                r
            },
            RagError::QueryBackend => owned("Failed to query memory backend"),
            RagError::Backend(m) => m.clone(),
        }
    }
}

} // verus!
