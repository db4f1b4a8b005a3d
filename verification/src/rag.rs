//! The document index: its settings, the documents it holds, and how a
//! stored chunk is read back.
use vstd::prelude::*;
use crate::chunk::{split_stored_chunk, stored_body, stored_metadata, ChunkMetadata};
use crate::document::Document;
use crate::index::{lemma_listing_after_insert, lists, Keyed, Registry};
use crate::json::parse_json_object;
use crate::text::owned;

verus! {

/// The settings of the document index.
pub struct RagConfig {
    pub enabled: bool,
    /// The largest chunk, in tokens, that splitting a document makes.
    pub chunk_max_tokens: usize,
    /// How many chunks a query returns where it names no number.
    pub max_chunks: usize,
    /// The least relevance, in millionths, where a query names none.
    pub min_relevance_micros: i64,
}

/// The document index: its settings and the documents it holds.
pub struct DocumentRag {
    pub config: RagConfig,
    pub documents: Registry<Document>,
}

/// Once a document is held under an id that no document had (as ingesting
/// holds each new document under a fresh id), the listing is a permutation
/// of the earlier listing with that document added.
pub proof fn lemma_listing_after_ingest(
    before: Map<Seq<char>, Document>,
    d: Document,
    l1: Seq<Document>,
    l2: Seq<Document>,
)
    requires
        lists(before, l1),
        !before.contains_key(d.id@),
        lists(before.insert(d.id@, d), l2),
    ensures
        l2.to_multiset() == l1.push(d).to_multiset(),
{
    broadcast use vstd::seq_lib::group_to_multiset_ensures;
    lemma_listing_after_insert(before, d, l1, l2);
}

impl DocumentRag {
    /// An index with the given settings, holding no document.
    pub fn new(config: RagConfig) -> (r: DocumentRag)
        ensures
            r.config == config,
            r.documents() == Map::<Seq<char>, Document>::empty(),
    {
        DocumentRag { config, documents: Registry::new() }
    }

    /// The documents held, by id.
    pub open spec fn documents(&self) -> Map<Seq<char>, Document> {
        self.documents@
    }

    /// Holds a document under its id, in place of any held under it.
    pub fn register_document(&mut self, doc: Document)
        ensures
            final(self).documents() == old(self).documents().insert(doc.id@, doc),
            final(self).config == old(self).config,
    {
        self.documents.insert(doc);
    }

    /// Drops the document with the given id; whether one was held.
    pub fn remove_document(&mut self, document_id: &str) -> (r: bool)
        ensures
            r == old(self).documents().contains_key(document_id@),
            final(self).documents() == old(self).documents().remove(document_id@),
            final(self).config == old(self).config,
    {
        self.documents.remove(document_id)
    }

    /// All documents held, each once.
    pub fn list_documents(&self) -> (r: Vec<Document>)
        ensures
            r@.len() == self.documents().len(),
            forall|i: int| 0 <= i < r@.len() ==> self.documents().contains_key(#[trigger] r@[i].id@)
                && self.documents()[r@[i].id@] == r@[i],
            forall|i: int, j: int| 0 <= i < j < r@.len() ==> r@[i].id@ != r@[j].id@,
            lists(self.documents(), r@),
    {
        let r = self.documents.list();
        assert forall|i: int| 0 <= i < r@.len() implies self.documents().contains_key(#[trigger] r@[i].id@)
            && self.documents()[r@[i].id@] == r@[i] by {
            assert(r@[i].key_of() == r@[i].id@);
        }
        r
    }

    /// The document with the given id, if one is held.
    pub fn document(&self, document_id: &str) -> (r: Option<&Document>)
        ensures
            match r {
                Some(d) => self.documents().contains_key(document_id@) && self.documents()[document_id@] == *d,
                None => !self.documents().contains_key(document_id@),
            },
    {
        self.documents.get(document_id)
    }

    /// Reads a stored chunk back: the string members of its JSON metadata
    /// and its content, split at the first separator. Where there is no
    /// separator, or the text before it is not a JSON object, there is no
    /// metadata and the content is the whole stored text.
    pub fn parse_chunk_content(stored: &str) -> (r: (ChunkMetadata, String))
        ensures
            r.0@ == stored_metadata(stored@),
            r.1@ == stored_body(stored@),
    {
        match split_stored_chunk(stored) {
            Some((meta_text, body)) => match parse_json_object(meta_text.as_str()) {
                Some(entries) => (ChunkMetadata::from_entries(&entries), body),
                None => (ChunkMetadata::new(), owned(stored)),
            },
            None => (ChunkMetadata::new(), owned(stored)),
        }
    }
}

} // verus!
