//! What ingesting a document stores, and which keys deleting it forgets.
use vstd::prelude::*;
use crate::chunk::{framed, frame_chunk, lemma_read_back_framed, stored_body, stored_metadata};
use crate::clock::{is_rfc3339_utc_text, is_uuid_v4_text, new_id, now_rfc3339};
use crate::document::{kind_name, ChunkData, Document, DocumentType, IngestRequest, MemoryEntry, RagError};
use crate::json::{json_error_text, json_object_text, json_object_text_of, metadata_members, text_members, JsonScalar, JsonScalarModel};
use crate::rag::DocumentRag;
use crate::text::{chars_vec, contains_chars, contains_text, decimal, matches_at, owned, push_decimal};

verus! {

/// The key under which chunk `index` of document `document_id` is stored.
pub open spec fn chunk_key(document_id: Seq<char>, index: nat) -> Seq<char> {
    "rag:"@ + document_id + ":"@ + decimal(index)
}

/// The text that marks the keys of a document's chunks.
pub open spec fn chunk_key_marker(document_id: Seq<char>) -> Seq<char> {
    "rag:"@ + document_id + ":"@
}

/// The keys of the entries that hold `marker`, in order.
pub open spec fn keys_containing(entries: Seq<MemoryEntry>, marker: Seq<char>) -> Seq<Seq<char>>
    decreases entries.len(),
{
    if entries.len() == 0 {
        Seq::empty()
    } else {
        let k = keys_containing(entries.drop_last(), marker);
        if contains_text(entries.last().key@, marker) { k.push(entries.last().key@) } else { k }
    }
}

/// Every chunk key of a document holds the marker of that document, so
/// deleting the document forgets every chunk that ingesting it stored.
pub proof fn lemma_chunk_key_marked(document_id: Seq<char>, index: nat)
    ensures
        contains_text(chunk_key(document_id, index), chunk_key_marker(document_id)),
{
    let key = chunk_key(document_id, index);
    let marker = chunk_key_marker(document_id);
    assert(key.subrange(0, marker.len() as int) =~= marker);
    assert(matches_at(key, marker, 0));
}

/// Where a requested document's text is said to come from: its file path,
/// else its URL, else `inline`.
pub open spec fn source_of(req: IngestRequest) -> Seq<char> {
    match req.file_path {
        Some(p) => p@,
        None => match req.url {
            Some(u) => u@,
            None => "inline"@,
        },
    }
}

/// The heading of a chunk, as text.
pub open spec fn heading_text(c: ChunkData) -> Option<Seq<char>> {
    match c.heading {
        Some(h) => Some(h@),
        None => None,
    }
}

/// A chunk to store: its key and the stored text.
pub struct ChunkRecord {
    pub key: String,
    pub stored: String,
}

/// What ingesting a document stores: the document record, and one record
/// per chunk.
pub struct IngestPlan {
    pub document: Document,
    pub records: Vec<ChunkRecord>,
}

/// The members of the metadata object stored with chunk `index` of a
/// document, in the order they are written.
pub open spec fn chunk_members(
    document_id: Seq<char>,
    document_title: Seq<char>,
    index: usize,
    content_type: Seq<char>,
    source: Seq<char>,
    heading: Option<Seq<char>>,
) -> Seq<(Seq<char>, JsonScalarModel)> {
    seq![
        ("document_id"@, JsonScalarModel::Text(document_id)),
        ("document_title"@, JsonScalarModel::Text(document_title)),
        ("chunk_index"@, JsonScalarModel::Number(index as u64)),
        ("content_type"@, JsonScalarModel::Text(content_type)),
        ("source"@, JsonScalarModel::Text(source)),
        ("heading"@, match heading {
            Some(h) => JsonScalarModel::Text(h),
            None => JsonScalarModel::Null,
        }),
    ]
}

/// The names of the members of a chunk's metadata differ from each other.
pub(crate) proof fn lemma_member_names_distinct()
    ensures
        "document_id"@ != "document_title"@,
        "document_id"@ != "chunk_index"@,
        "document_id"@ != "content_type"@,
        "document_id"@ != "source"@,
        "document_id"@ != "heading"@,
        "document_title"@ != "chunk_index"@,
        "document_title"@ != "content_type"@,
        "document_title"@ != "source"@,
        "document_title"@ != "heading"@,
        "chunk_index"@ != "content_type"@,
        "chunk_index"@ != "source"@,
        "chunk_index"@ != "heading"@,
        "content_type"@ != "source"@,
        "content_type"@ != "heading"@,
        "source"@ != "heading"@,
{
    reveal_strlit("document_id");
    reveal_strlit("document_title");
    reveal_strlit("chunk_index");
    reveal_strlit("content_type");
    reveal_strlit("source");
    reveal_strlit("heading");
    assert("document_id"@[9] != "document_title"@[9]);
    assert("document_id"@[0] != "chunk_index"@[0]);
    assert("document_id"@[0] != "content_type"@[0]);
    assert("document_id"@[0] != "source"@[0]);
    assert("document_id"@[0] != "heading"@[0]);
    assert("document_title"@[0] != "chunk_index"@[0]);
    assert("document_title"@[0] != "content_type"@[0]);
    assert("document_title"@[0] != "source"@[0]);
    assert("document_title"@[0] != "heading"@[0]);
    assert("chunk_index"@[1] != "content_type"@[1]);
    assert("chunk_index"@[0] != "source"@[0]);
    assert("chunk_index"@[0] != "heading"@[0]);
    assert("content_type"@[0] != "source"@[0]);
    assert("content_type"@[0] != "heading"@[0]);
    assert("source"@[0] != "heading"@[0]);
}

/// The string members of a chunk's metadata object are its document id,
/// title, type, source and, where it has one, its heading.
proof fn lemma_chunk_members_read_back(
    document_id: Seq<char>,
    document_title: Seq<char>,
    index: usize,
    content_type: Seq<char>,
    source: Seq<char>,
    heading: Option<Seq<char>>,
)
    ensures
        text_members(chunk_members(document_id, document_title, index, content_type, source, heading))
            == metadata_members(document_id, document_title, content_type, source, heading),
{
    lemma_member_names_distinct();
    let s = chunk_members(document_id, document_title, index, content_type, source, heading);
    reveal_with_fuel(text_members, 7);
    assert(s.drop_last().drop_last().drop_last().drop_last().drop_last().drop_last() =~= Seq::<(Seq<char>, JsonScalarModel)>::empty());
    let m2 = Map::<Seq<char>, Seq<char>>::empty().insert("document_id"@, document_id).insert("document_title"@, document_title);
    assert(m2.remove("chunk_index"@) =~= m2);
    let m4 = m2.insert("content_type"@, content_type).insert("source"@, source);
    assert(m4.remove("heading"@) =~= m4);
    assert(text_members(s) =~= metadata_members(document_id, document_title, content_type, source, heading));
}

/// The members of the metadata object stored with a chunk.
fn chunk_member_list(
    document_id: &str,
    document_title: &str,
    index: usize,
    content_type: &str,
    source: &str,
    heading: Option<&str>,
) -> (r: Vec<(String, JsonScalar)>)
    ensures
        r.deep_view() == chunk_members(document_id@, document_title@, index, content_type@, source@,
            match heading { Some(h) => Some(h@), None => None }),
{
    let mut r: Vec<(String, JsonScalar)> = Vec::new();
    r.push((owned("document_id"), JsonScalar::Text(owned(document_id))));
    r.push((owned("document_title"), JsonScalar::Text(owned(document_title))));
    r.push((owned("chunk_index"), JsonScalar::Number(index as u64)));
    r.push((owned("content_type"), JsonScalar::Text(owned(content_type))));
    r.push((owned("source"), JsonScalar::Text(owned(source))));
    r.push((owned("heading"), match heading {
        Some(h) => JsonScalar::Text(owned(h)),
        None => JsonScalar::Null,
    }));
    assert(r.deep_view() =~= chunk_members(document_id@, document_title@, index, content_type@, source@,
        match heading { Some(h) => Some(h@), None => None }));
    r
}

/// `plan` is what ingesting `req`'s text of type `content_type`, split into
/// `chunks`, stores under the id `id` at the time `created_at`.
pub open spec fn plan_matches(
    plan: IngestPlan,
    req: IngestRequest,
    content_type: DocumentType,
    chunks: Seq<ChunkData>,
    id: Seq<char>,
    created_at: Seq<char>,
) -> bool {
    let d = plan.document;
    &&& d.id@ == id
    &&& d.title@ == req.title@
    &&& d.source@ == source_of(req)
    &&& d.content_type == content_type
    &&& d.chunk_count == chunks.len()
    &&& d.created_at@ == created_at
    &&& plan.records@.len() == chunks.len()
    &&& forall|i: int| 0 <= i < chunks.len() ==> {
        let rec = #[trigger] plan.records@[i];
        let meta = json_object_text_of(chunk_members(id, req.title@, i as usize, kind_name(content_type),
            source_of(req), heading_text(chunks[i])));
        &&& rec.key@ == chunk_key(id, i as nat)
        &&& rec.stored@ == framed(meta, chunks[i].content@)
        &&& stored_metadata(rec.stored@) == metadata_members(id, req.title@, kind_name(content_type),
            source_of(req), heading_text(chunks[i]))
        &&& stored_body(rec.stored@) == chunks[i].content@
    }
}

/// Deleting a document forgets every listed entry stored under one of the
/// document's chunk keys.
pub proof fn lemma_delete_forgets_chunks(entries: Seq<MemoryEntry>, document_id: Seq<char>, j: int, index: nat)
    requires
        0 <= j < entries.len(),
        entries[j].key@ == chunk_key(document_id, index),
    ensures
        keys_containing(entries, chunk_key_marker(document_id)).contains(entries[j].key@),
    decreases entries.len(),
{
    lemma_chunk_key_marked(document_id, index);
    let marker = chunk_key_marker(document_id);
    if j == entries.len() - 1 {
        let k = keys_containing(entries.drop_last(), marker);
        assert(keys_containing(entries, marker) == k.push(entries[j].key@));
        assert(k.push(entries[j].key@)[k.len() as int] == entries[j].key@);
    } else {
        lemma_delete_forgets_chunks(entries.drop_last(), document_id, j, index);
        let k = keys_containing(entries.drop_last(), marker);
        let idx = choose|idx: int| 0 <= idx < k.len() && k[idx] == entries[j].key@;
        if contains_text(entries.last().key@, marker) {
            assert(k.push(entries.last().key@)[idx] == entries[j].key@);
        }
    }
}

impl DocumentRag {
    /// The chunks of a split document, refused where splitting gave none.
    pub fn chunk_and_own(chunks: Vec<ChunkData>) -> (r: Result<Vec<ChunkData>, RagError>)
        ensures
            chunks@.len() == 0 ==> r matches Err(RagError::NoChunks),
            chunks@.len() > 0 ==> (r matches Ok(c) && c@ == chunks@),
    {
        if chunks.len() == 0 {
            Err(RagError::NoChunks)
        } else {
            Ok(chunks)
        }
    }

    /// What ingesting stores for a document: its record (id `id`, title,
    /// source, type, chunk count, time `created_at`) and, for each chunk in
    /// order, the key `rag:<id>:<i>` and the text of its JSON metadata, the
    /// separator and its content, such that reading that text back gives the
    /// document id, title, type, source and heading, and the content.
    /// Refused exactly where there are no chunks.
    pub fn prepare_ingest(
        req: &IngestRequest,
        content_type: DocumentType,
        chunks: Vec<ChunkData>,
        id: String,
        created_at: String,
    ) -> (r: Result<IngestPlan, RagError>)
        ensures
            chunks@.len() == 0 ==> r matches Err(RagError::NoChunks),
            chunks@.len() > 0 ==> (r matches Ok(plan) && plan_matches(plan, *req, content_type, chunks@, id@, created_at@)),
    {
        let ghost given = chunks@;
        let parts = DocumentRag::chunk_and_own(chunks)?;
        let source: String = match &req.file_path {
            Some(p) => p.clone(),
            None => match &req.url {
                Some(u) => u.clone(),
                None => owned("inline"),
            },
        };
        let type_text = content_type.to_string();
        let mut records: Vec<ChunkRecord> = Vec::new();
        let mut i: usize = 0;
        while i < parts.len()
            invariant
                i <= parts@.len(),
                parts@ == given,
                given == chunks@,
                given.len() > 0,
                source@ == source_of(*req),
                type_text@ == kind_name(content_type),
                records@.len() == i,
                forall|j: int| 0 <= j < i ==> {
                    let rec = #[trigger] records@[j];
                    let meta = json_object_text_of(chunk_members(id@, req.title@, j as usize, kind_name(content_type),
                        source_of(*req), heading_text(parts@[j])));
                    &&& rec.key@ == chunk_key(id@, j as nat)
                    &&& rec.stored@ == framed(meta, parts@[j].content@)
                    &&& stored_metadata(rec.stored@) == metadata_members(id@, req.title@,
                        kind_name(content_type), source_of(*req), heading_text(parts@[j]))
                    &&& stored_body(rec.stored@) == parts@[j].content@
                },
            decreases parts@.len() - i,
        {
            let chunk = &parts[i];
            let heading: Option<&str> = match &chunk.heading {
                Some(h) => Some(h.as_str()),
                None => None,
            };
            let members = chunk_member_list(id.as_str(), req.title.as_str(), i, type_text.as_str(),
                source.as_str(), heading);
            proof {
                lemma_chunk_members_read_back(id@, req.title@, i, type_text@, source@,
                    match heading { Some(h) => Some(h@), None => None });
            }
            let meta = match json_object_text(&members) {
                Ok(t) => t,
                Err(e) => {
                    return Err(RagError::Metadata(json_error_text(&e)));
                },
            };
            assert(heading_text(*chunk) == match heading { Some(h) => Some(h@), None => None::<Seq<char>> });
            let stored = frame_chunk(meta.as_str(), chunk.content.as_str());
            proof {
                lemma_read_back_framed(meta@, chunk.content@);
            }
            let key = DocumentRag::chunk_key(id.as_str(), i);
            records.push(ChunkRecord { key, stored });
            i = i + 1;
        }
        let document = Document {
            id,
            title: req.title.clone(),
            source,
            content_type,
            chunk_count: parts.len(),
            created_at,
        };
        Ok(IngestPlan { document, records })
    }

    /// What ingesting stores for a document, under a fresh random id and
    /// stamped with the current time: as `prepare_ingest` says for that id
    /// and time. The id is the hyphenated text of a random UUID, and the time
    /// is an RFC 3339 date and time in UTC.
    pub fn stage_ingest(req: &IngestRequest, content_type: DocumentType, chunks: Vec<ChunkData>) -> (r: Result<IngestPlan, RagError>)
        ensures
            chunks@.len() == 0 ==> r matches Err(RagError::NoChunks),
            chunks@.len() > 0 ==> (r matches Ok(plan) && plan_matches(plan, *req, content_type, chunks@,
                plan.document.id@, plan.document.created_at@) && is_uuid_v4_text(plan.document.id@)
                && is_rfc3339_utc_text(plan.document.created_at@)),
    {
        let id = new_id();
        let now = now_rfc3339();
        DocumentRag::prepare_ingest(req, content_type, chunks, id, now)
    }

    /// The key under which chunk `index` of document `document_id` is stored.
    pub fn chunk_key(document_id: &str, index: usize) -> (r: String)
        ensures
            r@ == chunk_key(document_id@, index as nat),
    {
        let mut r = DocumentRag::chunk_key_marker(document_id);
        push_decimal(&mut r, index as u64);
        r
    }

    /// The text that marks the keys of a document's chunks.
    pub fn chunk_key_marker(document_id: &str) -> (r: String)
        ensures
            r@ == chunk_key_marker(document_id@),
    {
        let mut r = owned("rag:");
        r.append(document_id);
        r.append(":");
        r
    }

    /// The keys to forget when deleting a document: those of the listed
    /// entries that hold `rag:<document_id>:`, in order.
    pub fn keys_to_forget(entries: &Vec<MemoryEntry>, document_id: &str) -> (r: Vec<String>)
        ensures
            r.deep_view() == keys_containing(entries@, chunk_key_marker(document_id@)),
    {
        let marker = DocumentRag::chunk_key_marker(document_id);
        let marker_chars = chars_vec(marker.as_str());
        let mut r: Vec<String> = Vec::new();
        let mut i: usize = 0;
        while i < entries.len()
            invariant
                i <= entries@.len(),
                marker_chars@ == chunk_key_marker(document_id@),
                r.deep_view() == keys_containing(entries@.take(i as int), chunk_key_marker(document_id@)),
            decreases entries@.len() - i,
        {
            assert(entries@.take(i + 1).drop_last() =~= entries@.take(i as int));
            let key_chars = chars_vec(entries[i].key.as_str());
            if contains_chars(&key_chars, &marker_chars) {
                let ghost before = r.deep_view();
                r.push(entries[i].key.clone());
                assert(r.deep_view() =~= before.push(entries@[i as int].key@));
            }
            i = i + 1;
        }
        assert(entries@.take(entries@.len() as int) =~= entries@);
        r
    }
}

} // verus!
