use rag_gateway::chunk::frame_chunk;
use rag_gateway::content::{content_from_file, content_from_html, resolve_content, ContentStep};
use rag_gateway::document::{
    ChunkData, Document, DocumentType, IngestRequest, MemoryCategory, MemoryEntry, RagError, RetrievedChunk,
};
use rag_gateway::rag::{DocumentRag, RagConfig};

fn micros(score: f64) -> i64 {
    (score * 1_000_000.0).round() as i64
}

fn config() -> RagConfig {
    RagConfig { enabled: true, chunk_max_tokens: 512, max_chunks: 5, min_relevance_micros: micros(0.3) }
}

fn chunk(title: &str, index: usize, content: &str, score: f64) -> RetrievedChunk {
    RetrievedChunk {
        document_id: "doc1".into(),
        document_title: title.into(),
        chunk_index: index,
        content: content.into(),
        score_micros: micros(score),
    }
}

fn request(content: Option<&str>, url: Option<&str>, file_path: Option<&str>) -> IngestRequest {
    IngestRequest {
        title: "Guide".into(),
        content: content.map(|s| s.to_string()),
        url: url.map(|s| s.to_string()),
        file_path: file_path.map(|s| s.to_string()),
        content_type: None,
    }
}

fn entry(key: &str, content: &str, category: &str, score: Option<f64>) -> MemoryEntry {
    MemoryEntry {
        key: key.into(),
        content: content.into(),
        category: if category.is_empty() { MemoryCategory::Builtin } else { MemoryCategory::Custom(category.into()) },
        score_micros: score.map(micros),
    }
}

#[test]
fn test_parse_chunk_content_valid() {
    let stored = r#"{"document_id":"abc","document_title":"Test","chunk_index":0}

---

This is the actual content."#;
    let (meta, content) = DocumentRag::parse_chunk_content(stored);
    assert_eq!(meta.get("document_id").unwrap(), "abc");
    assert_eq!(meta.get("document_title").unwrap(), "Test");
    assert_eq!(content, "This is the actual content.");
}

#[test]
fn test_parse_chunk_content_no_separator() {
    let stored = "Just plain content with no metadata";
    let (meta, content) = DocumentRag::parse_chunk_content(stored);
    assert!(meta.is_empty());
    assert_eq!(content, stored);
}

#[test]
fn test_build_context_empty() {
    assert!(DocumentRag::build_context(&[]).is_empty());
}

#[test]
fn test_build_context_with_chunks() {
    let chunks = vec![RetrievedChunk {
        document_id: "doc1".into(),
        document_title: "Test Doc".into(),
        chunk_index: 0,
        content: "Hello world".into(),
        score_micros: micros(0.85),
    }];
    let ctx = DocumentRag::build_context(&chunks);
    assert!(ctx.contains("[RAG Context]"));
    assert!(ctx.contains("Test Doc"));
    assert!(ctx.contains("Hello world"));
    assert!(ctx.contains("[/RAG Context]"));
}

#[test]
fn build_context_exact_text() {
    let chunks = vec![chunk("Test Doc", 0, "Hello world", 0.85), chunk("Other", 12, "Second", 0.5)];
    let ctx = DocumentRag::build_context(&chunks);
    assert_eq!(
        ctx,
        "[RAG Context]\n--- Document: Test Doc (chunk 0, score: 0.85) ---\nHello world\n\n--- Document: Other (chunk 12, score: 0.50) ---\nSecond\n\n[/RAG Context]\n"
    );
}

#[test]
fn build_context_score_rounding() {
    let ctx = DocumentRag::build_context(&[chunk("T", 3, "c", 0.456)]);
    assert!(ctx.contains("(chunk 3, score: 0.46)"));
    let ctx = DocumentRag::build_context(&[chunk("T", 0, "c", -0.001)]);
    assert!(ctx.contains("score: -0.00)"));
    let ctx = DocumentRag::build_context(&[chunk("T", 0, "c", 12.0)]);
    assert!(ctx.contains("score: 12.00)"));
}

#[test]
fn parse_chunk_content_not_json_keeps_whole_text() {
    let stored = "not json\n\n---\n\nbody";
    let (meta, content) = DocumentRag::parse_chunk_content(stored);
    assert!(meta.is_empty());
    assert_eq!(content, stored);
}

#[test]
fn parse_chunk_content_keeps_only_string_members() {
    let stored = "{\"document_id\":\"d\",\"chunk_index\":4,\"heading\":null}\n\n---\n\nbody\n\n---\n\nmore";
    let (meta, content) = DocumentRag::parse_chunk_content(stored);
    assert_eq!(meta.get("document_id").unwrap(), "d");
    assert!(meta.get("chunk_index").is_none());
    assert!(meta.get("heading").is_none());
    assert_eq!(content, "body\n\n---\n\nmore");
}

#[test]
fn framed_chunk_reads_back() {
    let stored = frame_chunk("{\"document_id\":\"x\"}", "content with\n\n---\n\ninside");
    let (meta, content) = DocumentRag::parse_chunk_content(&stored);
    assert_eq!(meta.get("document_id").unwrap(), "x");
    assert_eq!(content, "content with\n\n---\n\ninside");
}

#[test]
fn prepare_ingest_records_read_back() {
    let req = request(Some("# Title\nbody"), None, Some("/tmp/guide.md"));
    let chunks = vec![
        ChunkData { index: 0, content: "first part".into(), heading: Some("Intro".into()) },
        ChunkData { index: 1, content: "second\npart".into(), heading: None },
    ];
    let plan = DocumentRag::prepare_ingest(&req, DocumentType::Markdown, chunks, "id-1".into(), "2024-01-01T00:00:00Z".into())
        .ok()
        .unwrap();
    assert_eq!(plan.document.id, "id-1");
    assert_eq!(plan.document.title, "Guide");
    assert_eq!(plan.document.source, "/tmp/guide.md");
    assert_eq!(plan.document.chunk_count, 2);
    assert_eq!(plan.document.created_at, "2024-01-01T00:00:00Z");
    assert_eq!(plan.records.len(), 2);
    assert_eq!(plan.records[0].key, "rag:id-1:0");
    assert_eq!(plan.records[1].key, "rag:id-1:1");
    let (meta, content) = DocumentRag::parse_chunk_content(&plan.records[0].stored);
    assert_eq!(meta.get("document_id").unwrap(), "id-1");
    assert_eq!(meta.get("document_title").unwrap(), "Guide");
    assert_eq!(meta.get("content_type").unwrap(), "markdown");
    assert_eq!(meta.get("source").unwrap(), "/tmp/guide.md");
    assert_eq!(meta.get("heading").unwrap(), "Intro");
    assert_eq!(content, "first part");
    let (meta, content) = DocumentRag::parse_chunk_content(&plan.records[1].stored);
    assert!(meta.get("heading").is_none());
    assert_eq!(content, "second\npart");
}

#[test]
fn prepare_ingest_without_chunks_is_refused() {
    let req = request(Some("x"), None, None);
    let r = DocumentRag::prepare_ingest(&req, DocumentType::Text, vec![], "id".into(), "now".into());
    match r {
        Err(e) => assert_eq!(e.message(), "Document produced no chunks after splitting"),
        Ok(_) => panic!("expected an error"),
    }
}

#[test]
fn stage_ingest_source_defaults() {
    let req = request(Some("x"), Some("http://example.test/a"), None);
    let plan = DocumentRag::stage_ingest(&req, DocumentType::Html, vec![ChunkData { index: 0, content: "x".into(), heading: None }])
        .ok()
        .unwrap();
    assert_eq!(plan.document.source, "http://example.test/a");
    assert_eq!(plan.document.id.len(), 36);
    let req = request(Some("x"), None, None);
    let plan = DocumentRag::stage_ingest(&req, DocumentType::Text, vec![ChunkData { index: 0, content: "x".into(), heading: None }])
        .ok()
        .unwrap();
    assert_eq!(plan.document.source, "inline");
    assert!(plan.records[0].key.starts_with(&format!("rag:{}:", plan.document.id)));
}

#[test]
fn select_chunks_filters_and_limits() {
    let req = request(Some("x"), None, None);
    let chunks = vec![
        ChunkData { index: 0, content: "alpha".into(), heading: None },
        ChunkData { index: 1, content: "beta".into(), heading: None },
    ];
    let plan = DocumentRag::prepare_ingest(&req, DocumentType::Markdown, chunks, "D".into(), "t".into()).ok().unwrap();
    let entries = vec![
        entry("rag:D:0", &plan.records[0].stored, "rag_document", Some(0.9)),
        entry("other", "plain", "notes", Some(0.99)),
        entry("rag:D:1", &plan.records[1].stored, "rag_document", Some(0.1)),
        entry("rag:D:1", &plan.records[1].stored, "rag_document", None),
        entry("core", "x", "", Some(1.0)),
        entry("rag:D:1", &plan.records[1].stored, "rag_document", Some(0.4)),
    ];
    let got = DocumentRag::select_chunks(&entries, 5, micros(0.3));
    assert_eq!(got.len(), 2);
    assert_eq!(got[0].document_id, "D");
    assert_eq!(got[0].document_title, "Guide");
    assert_eq!(got[0].content, "alpha");
    assert_eq!(got[0].chunk_index, 0);
    assert_eq!(got[0].score_micros, 900_000);
    assert_eq!(got[1].content, "beta");
    assert_eq!(got[1].chunk_index, 0);
    let got = DocumentRag::select_chunks(&entries, 1, micros(0.3));
    assert_eq!(got.len(), 1);
    let got = DocumentRag::select_chunks(&entries, 0, micros(0.3));
    assert_eq!(got.len(), 1);
    let got = DocumentRag::select_chunks(&entries, 5, 0);
    assert_eq!(got.len(), 4);
    assert_eq!(got[2].score_micros, 0);
}

#[test]
fn select_chunks_reads_string_chunk_index() {
    let entries = vec![
        entry("k", "{\"document_id\":\"a\",\"chunk_index\":\"7\"}\n\n---\n\nc", "rag_document", Some(1.0)),
        entry("k", "{\"chunk_index\":\"x7\"}\n\n---\n\nc", "rag_document", Some(1.0)),
        entry("k", "no metadata", "rag_document", Some(1.0)),
    ];
    let got = DocumentRag::select_chunks(&entries, 10, 0);
    assert_eq!(got.len(), 3);
    assert_eq!(got[0].chunk_index, 7);
    assert_eq!(got[0].document_id, "a");
    assert_eq!(got[1].chunk_index, 0);
    assert_eq!(got[2].document_id, "");
    assert_eq!(got[2].content, "no metadata");
}

#[test]
fn keys_to_forget_selects_marked_keys() {
    let entries = vec![
        entry("rag:abc:0", "", "rag_document", None),
        entry("rag:abcd:0", "", "rag_document", None),
        entry("x-rag:abc:9", "", "rag_document", None),
        entry("rag:ab", "", "rag_document", None),
        entry("rag:abc:12", "", "rag_document", None),
    ];
    let keys = DocumentRag::keys_to_forget(&entries, "abc");
    assert_eq!(keys, vec!["rag:abc:0".to_string(), "x-rag:abc:9".to_string(), "rag:abc:12".to_string()]);
    assert_eq!(DocumentRag::chunk_key("abc", 120), "rag:abc:120");
}

#[test]
fn document_registry_insert_remove_list() {
    let mut rag = DocumentRag::new(config());
    let doc = |id: &str, title: &str| Document {
        id: id.into(),
        title: title.into(),
        source: "inline".into(),
        content_type: DocumentType::Text,
        chunk_count: 1,
        created_at: "t".into(),
    };
    assert!(rag.list_documents().is_empty());
    rag.register_document(doc("a", "A"));
    rag.register_document(doc("b", "B"));
    rag.register_document(doc("a", "A2"));
    let list = rag.list_documents();
    assert_eq!(list.len(), 2);
    assert_eq!(rag.document("a").unwrap().title, "A2");
    assert!(rag.remove_document("a"));
    assert!(!rag.remove_document("a"));
    assert!(rag.document("a").is_none());
    assert_eq!(rag.list_documents().len(), 1);
    assert_eq!(rag.list_documents()[0].id, "b");
}

#[test]
fn resolve_content_prefers_inline_then_url_then_file() {
    match resolve_content(&request(Some("text"), Some("u"), Some("f"))) {
        Ok(ContentStep::Ready { content, content_type }) => {
            assert_eq!(content, "text");
            assert_eq!(content_type, DocumentType::Markdown);
        },
        _ => panic!("expected inline content"),
    }
    match resolve_content(&request(None, Some("u"), Some("f"))) {
        Ok(ContentStep::FetchUrl { url }) => assert_eq!(url, "u"),
        _ => panic!("expected a URL"),
    }
    match resolve_content(&request(None, None, Some("f"))) {
        Ok(ContentStep::ReadFile { path }) => assert_eq!(path, "f"),
        _ => panic!("expected a file"),
    }
    match resolve_content(&request(None, None, None)) {
        Err(e) => assert_eq!(e.message(), "IngestRequest must specify content, url, or file_path"),
        _ => panic!("expected an error"),
    }
}

#[test]
fn content_from_file_by_extension() {
    let (t, k) = content_from_file("notes/readme.MD", "# hi".into(), Some(DocumentType::Text)).ok().unwrap();
    assert_eq!((t.as_str(), k), ("# hi", DocumentType::Markdown));
    let (t, k) = content_from_file("page.htm", "<div>simple text</div>".into(), None).ok().unwrap();
    assert_eq!((t.as_str(), k), ("simple text\r\n\r\n", DocumentType::Html));
    let (_, k) = content_from_file("page.html", "x".into(), Some(DocumentType::Text)).ok().unwrap();
    assert_eq!(k, DocumentType::Text);
    match content_from_file("paper.pdf", "%PDF".into(), None) {
        Err(e) => assert_eq!(e.message(), "PDF support requires the `rag-pdf` feature flag"),
        Ok(_) => panic!("expected an error"),
    }
    let (t, k) = content_from_file("LICENSE", "MIT".into(), None).ok().unwrap();
    assert_eq!((t.as_str(), k), ("MIT", DocumentType::Text));
    let (_, k) = content_from_file(".bashrc", "x".into(), None).ok().unwrap();
    assert_eq!(k, DocumentType::Text);
}

#[test]
fn html_is_converted_to_text() {
    assert_eq!(content_from_html("click <a href=\"test\">here</a>", None).0, "click here (test)");
    let (t, k) = content_from_html("<div>simple text</div>", None);
    assert_eq!(t, "simple text\r\n\r\n");
    assert_eq!(k, DocumentType::Html);
}

#[test]
fn document_type_names() {
    assert_eq!(DocumentType::Markdown.to_string(), "markdown");
    assert_eq!(DocumentType::Text.to_string(), "text");
    assert_eq!(DocumentType::Html.as_str(), "html");
    assert_eq!(DocumentType::Pdf.as_str(), "pdf");
}

#[test]
fn error_messages() {
    assert_eq!(RagError::FetchUrl { url: "http://x".into() }.message(), "Failed to fetch URL: http://x");
    assert_eq!(RagError::ReadBody.message(), "Failed to read URL response body");
    assert_eq!(RagError::ReadFile { path: "/a".into() }.message(), "Failed to read file: /a");
    assert_eq!(RagError::StoreChunk { index: 3 }.message(), "Failed to store chunk 3");
    assert_eq!(RagError::QueryBackend.message(), "Failed to query memory backend");
    assert_eq!(RagError::Backend("boom".into()).message(), "boom");
    assert_eq!(RagError::Metadata("bad".into()).message(), "bad");
    assert_eq!(RagError::NoChunks.message(), "Document produced no chunks after splitting");
}

#[test]
fn stage_ingest_id_is_random_uuid_text() {
    let req = request(Some("x"), None, None);
    let plan = DocumentRag::stage_ingest(&req, DocumentType::Text, vec![ChunkData { index: 0, content: "x".into(), heading: None }])
        .ok()
        .unwrap();
    let id: Vec<char> = plan.document.id.chars().collect();
    assert_eq!(id.len(), 36);
    for (i, c) in id.iter().enumerate() {
        if [8, 13, 18, 23].contains(&i) {
            assert_eq!(*c, '-');
        } else {
            assert!(c.is_ascii_digit() || ('a'..='f').contains(c));
        }
    }
    assert_eq!(id[14], '4');
    assert!(['8', '9', 'a', 'b'].contains(&id[19]));
    assert_eq!(plan.document.title, "Guide");
    assert_eq!(plan.document.chunk_count, 1);
}

#[test]
fn prepare_ingest_succeeds_with_chunks() {
    let req = request(None, None, Some("notes/a.md"));
    let chunks = vec![
        ChunkData { index: 0, content: "one".into(), heading: Some("H \"quoted\"\n".into()) },
        ChunkData { index: 1, content: "two".into(), heading: None },
    ];
    let plan = DocumentRag::prepare_ingest(&req, DocumentType::Markdown, chunks, "id".into(), "now".into()).ok().unwrap();
    assert_eq!(plan.document.source, "notes/a.md");
    assert_eq!(plan.document.chunk_count, 2);
    let (meta, body) = DocumentRag::parse_chunk_content(&plan.records[0].stored);
    assert_eq!(body, "one");
    assert_eq!(meta.get("heading").unwrap(), "H \"quoted\"\n");
}

#[test]
fn listings_are_permutations_after_register_and_remove() {
    let mut rag = DocumentRag::new(config());
    let doc = |id: &str| Document {
        id: id.into(),
        title: id.into(),
        source: "inline".into(),
        content_type: DocumentType::Text,
        chunk_count: 1,
        created_at: "t".into(),
    };
    let ids = |rag: &DocumentRag| {
        let mut v: Vec<String> = rag.list_documents().into_iter().map(|d| d.id).collect();
        v.sort();
        v
    };
    rag.register_document(doc("b"));
    rag.register_document(doc("a"));
    let before = ids(&rag);
    assert_eq!(ids(&rag), before);
    rag.register_document(doc("c"));
    assert_eq!(ids(&rag), vec!["a", "b", "c"]);
    rag.remove_document("b");
    assert_eq!(ids(&rag), vec!["a", "c"]);
    rag.remove_document("zz");
    assert_eq!(ids(&rag), vec!["a", "c"]);
}

#[test]
fn file_without_extension_is_plain_text() {
    let (text, kind) = content_from_file("docs/README", "# raw".into(), Some(DocumentType::Html)).ok().unwrap();
    assert_eq!(text, "# raw");
    assert_eq!(kind, DocumentType::Text);
}

#[test]
fn stage_ingest_stamps_an_rfc3339_utc_time() {
    let req = request(Some("x"), None, None);
    let plan = DocumentRag::stage_ingest(&req, DocumentType::Text, vec![ChunkData { index: 0, content: "x".into(), heading: None }])
        .ok()
        .unwrap();
    let t: Vec<char> = plan.document.created_at.chars().collect();
    assert!([25, 29, 32, 35].contains(&t.len()));
    assert_eq!((t[4], t[7], t[10], t[13], t[16]), ('-', '-', 'T', ':', ':'));
    assert!(plan.document.created_at.ends_with("+00:00"));
    for i in [0, 1, 2, 3, 5, 6, 8, 9, 11, 12, 14, 15, 17, 18] {
        assert!(t[i].is_ascii_digit());
    }
}
