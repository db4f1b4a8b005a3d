//! Which chunks a query returns, from the entries the memory backend recalls.
use vstd::prelude::*;
use crate::chunk::{stored_body, stored_metadata, ChunkMetadata};
use crate::document::{kind_name, ChunkData, DocumentType, IngestRequest, MemoryCategory, MemoryEntry, RetrievedChunk};
use crate::ingest::{heading_text, lemma_member_names_distinct, plan_matches, source_of, IngestPlan};
use crate::json::metadata_members;
use crate::rag::DocumentRag;
use crate::text::{parse_usize, same_text, usize_text_value};

verus! {

/// The entry is a stored document chunk: its category is the custom
/// category `rag_document`.
pub open spec fn is_rag_entry(e: MemoryEntry) -> bool {
    e.category matches MemoryCategory::Custom(c) && c@ == "rag_document"@
}

/// The relevance of an entry, in millionths; 0 where the backend gave none.
pub open spec fn entry_score(e: MemoryEntry) -> int {
    match e.score_micros {
        Some(s) => s as int,
        None => 0,
    }
}

/// The entry is a chunk relevant enough for a query with least relevance `min`.
pub open spec fn qualifies(e: MemoryEntry, min: i64) -> bool {
    is_rag_entry(e) && entry_score(e) >= min
}

/// The entries that qualify, in the order the backend gave them.
pub open spec fn qualifying(entries: Seq<MemoryEntry>, min: i64) -> Seq<MemoryEntry>
    decreases entries.len(),
{
    if entries.len() == 0 {
        Seq::empty()
    } else {
        let q = qualifying(entries.drop_last(), min);
        if qualifies(entries.last(), min) { q.push(entries.last()) } else { q }
    }
}

/// How many chunks a query with `max_chunks` returns at most: the check for
/// the limit comes after a chunk is added, so a limit of 0 still lets one in.
pub open spec fn chunk_limit(max_chunks: usize) -> nat {
    if max_chunks == 0 { 1 } else { max_chunks as nat }
}

/// The value of member `k`, or the empty text.
pub open spec fn member_or_empty(m: Map<Seq<char>, Seq<char>>, k: Seq<char>) -> Seq<char> {
    if m.contains_key(k) { m[k] } else { Seq::empty() }
}

/// The chunk index that metadata gives: its `chunk_index` member read as a
/// number, else 0.
pub open spec fn index_member(m: Map<Seq<char>, Seq<char>>) -> usize {
    if m.contains_key("chunk_index"@) {
        match usize_text_value(m["chunk_index"@]) {
            Some(n) => n,
            None => 0,
        }
    } else {
        0
    }
}

/// `c` is the chunk that a query makes of the entry `e`.
pub open spec fn retrieved_from(c: RetrievedChunk, e: MemoryEntry) -> bool {
    let m = stored_metadata(e.content@);
    &&& c.document_id@ == member_or_empty(m, "document_id"@)
    &&& c.document_title@ == member_or_empty(m, "document_title"@)
    &&& c.chunk_index == index_member(m)
    &&& c.content@ == stored_body(e.content@)
    &&& c.score_micros as int == entry_score(e)
}

proof fn lemma_qualifying_prefix(s: Seq<MemoryEntry>, k: int, min: i64)
    requires
        0 <= k <= s.len(),
    ensures
        qualifying(s.take(k), min).len() <= qualifying(s, min).len(),
        forall|j: int| 0 <= j < qualifying(s.take(k), min).len()
            ==> qualifying(s.take(k), min)[j] == qualifying(s, min)[j],
    decreases s.len(),
{
    if k == s.len() {
        assert(s.take(k) =~= s);
    } else {
        assert(s.drop_last().take(k) =~= s.take(k));
        lemma_qualifying_prefix(s.drop_last(), k, min);
    }
}

/// A chunk that ingesting stored, once a query retrieves it, gives back the
/// id and title of its document and exactly the chunk's content. Its index
/// reads back as 0: the index is stored as a JSON number, and only the
/// string members of the metadata are read back.
pub proof fn lemma_stored_chunk_retrieved(
    plan: IngestPlan,
    req: IngestRequest,
    content_type: DocumentType,
    chunks: Seq<ChunkData>,
    id: Seq<char>,
    created_at: Seq<char>,
    i: int,
    e: MemoryEntry,
    c: RetrievedChunk,
)
    requires
        plan_matches(plan, req, content_type, chunks, id, created_at),
        0 <= i < chunks.len(),
        e.content@ == plan.records@[i].stored@,
        retrieved_from(c, e),
    ensures
        c.document_id@ == id,
        c.document_title@ == req.title@,
        c.content@ == chunks[i].content@,
        c.chunk_index == 0,
{
    lemma_member_names_distinct();
    let rec = plan.records@[i];
    let m = stored_metadata(e.content@);
    assert(m == metadata_members(id, req.title@, kind_name(content_type), source_of(req), heading_text(chunks[i])));
    assert(!m.contains_key("chunk_index"@));
}

/// `r` is what a query with `max_chunks` and `min` makes of the recalled
/// `entries`: the chunks read back from the qualifying entries, in order, as
/// many as `chunk_limit` allows.
pub open spec fn selected(entries: Seq<MemoryEntry>, max_chunks: usize, min: i64, r: Seq<RetrievedChunk>) -> bool {
    let q = qualifying(entries, min);
    &&& r.len() == if q.len() < chunk_limit(max_chunks) { q.len() } else { chunk_limit(max_chunks) }
    &&& forall|j: int| 0 <= j < r.len() ==> retrieved_from(#[trigger] r[j], q[j])
}

/// A query returns as many chunks as it asks for where at least that many
/// entries qualify, and every qualifying entry where fewer do; asking for
/// none still returns one where any qualifies. Every chunk returned comes
/// from a stored document chunk scoring at least the least relevance, in
/// the order the entries were recalled.
pub proof fn lemma_query_returns_what_it_asks(
    entries: Seq<MemoryEntry>,
    max_chunks: usize,
    min: i64,
    r: Seq<RetrievedChunk>,
)
    requires
        selected(entries, max_chunks, min, r),
    ensures
        max_chunks >= 1 && qualifying(entries, min).len() >= max_chunks ==> r.len() == max_chunks,
        qualifying(entries, min).len() <= max_chunks ==> r.len() == qualifying(entries, min).len(),
        max_chunks == 0 && qualifying(entries, min).len() >= 1 ==> r.len() == 1,
        r.len() <= qualifying(entries, min).len(),
        forall|j: int| 0 <= j < r.len() ==> (#[trigger] r[j]).score_micros >= min
            && retrieved_from(r[j], qualifying(entries, min)[j])
            && is_rag_entry(qualifying(entries, min)[j]),
{
    let q = qualifying(entries, min);
    lemma_qualifying_all_qualify(entries, min);
    assert forall|j: int| 0 <= j < r.len() implies (#[trigger] r[j]).score_micros >= min
        && retrieved_from(r[j], q[j]) && is_rag_entry(q[j]) by {
        assert(qualifies(q[j], min));
    }
}

/// Every entry in `qualifying` qualifies.
proof fn lemma_qualifying_all_qualify(entries: Seq<MemoryEntry>, min: i64)
    ensures
        forall|j: int| 0 <= j < qualifying(entries, min).len() ==> qualifies(#[trigger] qualifying(entries, min)[j], min),
    decreases entries.len(),
{
    if entries.len() > 0 {
        lemma_qualifying_all_qualify(entries.drop_last(), min);
        let q0 = qualifying(entries.drop_last(), min);
        let q = qualifying(entries, min);
        assert forall|j: int| 0 <= j < q.len() implies qualifies(#[trigger] q[j], min) by {
            if j < q0.len() {
                assert(q[j] == q0[j]);
            }
        }
    }
}

impl DocumentRag {
    /// The member `key` of the metadata, or the empty text.
    fn member_text(meta: &ChunkMetadata, key: &str) -> (r: String)
        ensures
            r@ == member_or_empty(meta@, key@),
    {
        match meta.get(key) {
            Some(v) => v.clone(),
            None => String::new(),
        }
    }

    /// The chunks a query returns from the entries the memory backend
    /// recalled: the entries in the `rag_document` category whose score
    /// (0 where none) is at least `min_relevance_micros`, in order, each read
    /// back into its document id, title, index, content and score, stopping
    /// once `max_chunks` have been taken (one, where `max_chunks` is 0).
    pub fn select_chunks(entries: &Vec<MemoryEntry>, max_chunks: usize, min_relevance_micros: i64) -> (r: Vec<RetrievedChunk>)
        ensures
            selected(entries@, max_chunks, min_relevance_micros, r@),
            max_chunks >= 1 && qualifying(entries@, min_relevance_micros).len() >= max_chunks ==> r@.len() == max_chunks,
    {
        proof {
            reveal_strlit("rag_document");
            reveal_strlit("document_id");
            reveal_strlit("document_title");
            reveal_strlit("chunk_index");
        }
        let mut r: Vec<RetrievedChunk> = Vec::new();
        let mut i: usize = 0;
        while i < entries.len()
            invariant
                i <= entries@.len(),
                r@.len() == qualifying(entries@.take(i as int), min_relevance_micros).len(),
                r@.len() < chunk_limit(max_chunks),
                forall|j: int| 0 <= j < r@.len()
                    ==> retrieved_from(#[trigger] r@[j], qualifying(entries@.take(i as int), min_relevance_micros)[j]),
            decreases entries@.len() - i,
        {
            let e = &entries[i];
            assert(entries@.take(i + 1).drop_last() =~= entries@.take(i as int));
            assert(entries@.take(i + 1).last() == *e);
            let is_rag = match &e.category {
                MemoryCategory::Custom(c) => same_text(c.as_str(), "rag_document"),
                MemoryCategory::Builtin => false,
            };
            let score: i64 = match e.score_micros {
                Some(s) => s,
                None => 0,
            };
            if is_rag && score >= min_relevance_micros {
                let (meta, content) = DocumentRag::parse_chunk_content(e.content.as_str());
                let document_id = DocumentRag::member_text(&meta, "document_id");
                let document_title = DocumentRag::member_text(&meta, "document_title");
                let chunk_index: usize = match meta.get("chunk_index") {
                    Some(v) => match parse_usize(v.as_str()) {
                        Some(n) => n,
                        None => 0,
                    },
                    None => 0,
                };
                let c = RetrievedChunk { document_id, document_title, chunk_index, content, score_micros: score };
                assert(retrieved_from(c, *e));
                let ghost before = r@;
                r.push(c);
                assert(forall|j: int| 0 <= j < before.len() ==> r@[j] == before[j]);
                if r.len() >= max_chunks {
                    proof {
                        lemma_qualifying_prefix(entries@, i + 1, min_relevance_micros);
                    }
                    return r;
                }
            }
            i = i + 1;
        }
        assert(entries@.take(entries@.len() as int) =~= entries@);
        r
    }
}

} // verus!
