use std::sync::Arc;

use rag_gateway::document::{QueryRequest, RagError, RetrievedChunk};
use rag_gateway::gateway::{
    backend_failed, callback_key_for, events_plan, EventsPlan, callback_not_found, callback_store_failed, delete_answer, ingestion_failed,
    invalid_request, query_failed, query_limits, rag_disabled, recall_limit, work_not_found, callback_content,
    callback_data, CallbackData, CallbackRequest,
};
use rag_gateway::hook::DocumentRagHook;
use rag_gateway::rag::{DocumentRag, RagConfig};
use rag_gateway::send::{route_channel, send_outcome, ChannelKind, ConfiguredChannels, SendRequest};
use rag_gateway::text::parse_usize;
use rag_gateway::work::{WorkOutcome, WorkStatus, WorkStore, WorkerRequest};

fn all_channels(on: bool) -> ConfiguredChannels {
    ConfiguredChannels { whatsapp: on, linq: on, nextcloud_talk: on, wati: on }
}

fn config() -> RagConfig {
    RagConfig { enabled: true, chunk_max_tokens: 512, max_chunks: 5, min_relevance_micros: 300_000 }
}

#[test]
fn route_channel_by_lowercase_name() {
    let on = all_channels(true);
    assert!(matches!(route_channel("WhatsApp", &on), Ok(ChannelKind::WhatsApp)));
    assert!(matches!(route_channel("LINQ", &on), Ok(ChannelKind::Linq)));
    assert!(matches!(route_channel("nextcloud-talk", &on), Ok(ChannelKind::NextcloudTalk)));
    assert!(matches!(route_channel("Nextcloud_Talk", &on), Ok(ChannelKind::NextcloudTalk)));
    assert!(matches!(route_channel("wati", &on), Ok(ChannelKind::Wati)));
    match route_channel("Telegram", &on) {
        Err(e) => assert_eq!(e, "Unknown channel 'telegram'. Available: whatsapp, linq, nextcloud_talk, wati"),
        Ok(_) => panic!("expected an error"),
    }
}

#[test]
fn route_channel_not_configured() {
    let off = all_channels(false);
    assert_eq!(route_channel("whatsapp", &off).err().unwrap(), "WhatsApp channel not configured");
    assert_eq!(route_channel("linq", &off).err().unwrap(), "Linq channel not configured");
    assert_eq!(route_channel("nextcloud_talk", &off).err().unwrap(), "Nextcloud Talk channel not configured");
    assert_eq!(route_channel("wati", &off).err().unwrap(), "WATI channel not configured");
}

#[test]
fn send_outcome_labels() {
    assert_eq!(send_outcome(ChannelKind::NextcloudTalk, Ok(())).unwrap(), "nextcloud_talk");
    assert_eq!(send_outcome(ChannelKind::Wati, Err("down".into())).err().unwrap(), "down");
    let req = SendRequest { channel: "linq".into(), target: "+1".into(), message: "hi".into(), subject: None };
    assert_eq!(req.target, "+1");
}

#[test]
fn callback_answers() {
    let req = CallbackRequest { task_id: "t1".into(), status: "done".into(), result: None, metadata: None };
    assert_eq!(req.key(), "callback:t1");
    assert_eq!(callback_key_for("x"), "callback:x");
    let e = callback_store_failed("disk full");
    assert_eq!((e.status, e.message.as_str()), (500, "Failed to store callback: disk full"));
    let e = callback_not_found("t9");
    assert_eq!((e.status, e.message.as_str()), (404, "No callback found for task_id 't9'"));
    let e = backend_failed("oops");
    assert_eq!((e.status, e.message.as_str()), (500, "oops"));
}

#[test]
fn rag_api_answers() {
    let e = rag_disabled();
    assert_eq!((e.status, e.message.as_str()), (503, "RAG is not enabled. Set [rag] enabled = true in config."));
    let e = invalid_request("missing field `title`");
    assert_eq!((e.status, e.message.as_str()), (400, "Invalid request: missing field `title`"));
    let e = ingestion_failed(&RagError::StoreChunk { index: 2 });
    assert_eq!((e.status, e.message.as_str()), (500, "Ingestion failed: Failed to store chunk 2"));
    let e = query_failed(&RagError::QueryBackend);
    assert_eq!((e.status, e.message.as_str()), (500, "Query failed: Failed to query memory backend"));
    assert!(delete_answer("d1", &Ok(true)).is_ok());
    let e = delete_answer("d1", &Ok(false)).err().unwrap();
    assert_eq!((e.status, e.message.as_str()), (404, "Document d1 not found"));
    let e = delete_answer("d1", &Err(RagError::Backend("gone".into()))).err().unwrap();
    assert_eq!((e.status, e.message.as_str()), (500, "Delete failed: gone"));
    let e = work_not_found("w");
    assert_eq!((e.status, e.message.as_str()), (404, "Work 'w' not found"));
}

#[test]
fn query_limits_default_to_config() {
    let cfg = config();
    let req = QueryRequest { query: "q".into(), max_chunks: None, min_relevance_micros: None };
    assert_eq!(query_limits(&req, &cfg), (5, 300_000));
    let req = QueryRequest { query: "q".into(), max_chunks: Some(2), min_relevance_micros: Some(-1) };
    assert_eq!(query_limits(&req, &cfg), (2, -1));
    assert_eq!(recall_limit(7), 14);
}

#[test]
fn worker_timeout_default() {
    let req = WorkerRequest { task_id: None, prompt: "p".into(), session_id: None, timeout_secs: None };
    assert_eq!(req.timeout_or_default(), 600);
    let req = WorkerRequest { task_id: None, prompt: "p".into(), session_id: None, timeout_secs: Some(5) };
    assert_eq!(req.timeout_or_default(), 5);
}

#[test]
fn work_lifecycle() {
    let mut store = WorkStore::new();
    store.submit("w1".into(), Some("t1".into()));
    store.submit("w2".into(), None);
    let s = store.status("w1").unwrap();
    assert_eq!(s.status, "pending");
    assert_eq!(s.task_id.as_deref(), Some("t1"));
    assert!(s.started_at.is_none() && s.result.is_none() && s.error.is_none());
    assert!(store.start("w1", "t0".into()));
    assert_eq!(store.status("w1").unwrap().status, "running");
    assert!(store.finish("w1", WorkOutcome::Completed("answer".into()), "t1".into()));
    let s = store.status("w1").unwrap();
    assert_eq!(s.status, "completed");
    assert_eq!(s.result.as_deref(), Some("answer"));
    assert_eq!(s.started_at.as_deref(), Some("t0"));
    assert_eq!(s.completed_at.as_deref(), Some("t1"));
    assert!(s.error.is_none());
    assert!(store.finish("w2", WorkOutcome::TimedOut { after_secs: 600 }, "t2".into()));
    let s = store.status("w2").unwrap();
    assert_eq!(s.status, "timeout");
    assert_eq!(s.error.as_deref(), Some("Task timed out after 600s"));
    assert!(store.finish("w2", WorkOutcome::Failed("agent error".into()), "t3".into()));
    assert_eq!(store.status("w2").unwrap().status, "failed");
    assert!(!store.start("nope", "t".into()));
    assert!(store.status("nope").is_none());
    assert_eq!(store.list().len(), 2);
}

#[test]
fn work_status_steps() {
    let mut s = WorkStatus::pending("w".into(), None);
    s.mark_running("now".into());
    assert_eq!(s.status, "running");
    s.finish(WorkOutcome::Failed("bad".into()), "later".into());
    assert_eq!(s.status, "failed");
    assert_eq!(s.error.as_deref(), Some("bad"));
    assert!(s.result.is_none());
}

#[test]
fn hook_prompt_augmentation() {
    let hook = DocumentRagHook::new(Arc::new(DocumentRag::new(config())));
    assert_eq!(hook.name(), "document-rag-hook");
    assert_eq!(hook.priority(), 10);
    assert_eq!(hook.query_settings(), (5, 300_000));
    let chunk = RetrievedChunk {
        document_id: "d".into(),
        document_title: "T".into(),
        chunk_index: 1,
        content: "c".into(),
        score_micros: 1_000_000,
    };
    let out = DocumentRagHook::augment_prompt(Ok(vec![chunk]), "question".into());
    assert_eq!(out, "[RAG Context]\n--- Document: T (chunk 1, score: 1.00) ---\nc\n\n[/RAG Context]\n\n\nquestion");
    assert_eq!(DocumentRagHook::augment_prompt(Ok(vec![]), "question".into()), "question");
    assert_eq!(DocumentRagHook::augment_prompt(Err(RagError::QueryBackend), "question".into()), "question");
}

#[test]
fn usize_parsing() {
    assert_eq!(parse_usize("42"), Some(42));
    assert_eq!(parse_usize("+7"), Some(7));
    assert_eq!(parse_usize("007"), Some(7));
    assert_eq!(parse_usize(""), None);
    assert_eq!(parse_usize("+"), None);
    assert_eq!(parse_usize("-1"), None);
    assert_eq!(parse_usize(" 1"), None);
    assert_eq!(parse_usize("18446744073709551615"), Some(usize::MAX));
    assert_eq!(parse_usize("18446744073709551616"), None);
    assert_eq!(parse_usize("99999999999999999999x"), None);
}

#[test]
fn worker_events_plan() {
    match events_plan("w", None, true) {
        EventsPlan::NotFound(e) => assert_eq!((e.status, e.message.as_str()), (404, "Work 'w' not found")),
        _ => panic!("expected not found"),
    }
    assert!(matches!(events_plan("w", Some(WorkStatus::pending("w".into(), None)), true), EventsPlan::Stream));
    match events_plan("w", Some(WorkStatus::pending("w".into(), None)), false) {
        EventsPlan::FinalStatus(s) => assert_eq!(s.status, "pending"),
        _ => panic!("expected the final status"),
    }
}

#[test]
fn callback_record_is_pretty_json_of_the_request() {
    let req = CallbackRequest {
        task_id: "t1".into(),
        status: "done".into(),
        result: Some("{\"x\":1}".into()),
        metadata: None,
    };
    let text = callback_content(&req, "2024-01-01T00:00:00Z");
    assert_eq!(
        text,
        "{\n  \"metadata\": null,\n  \"received_at\": \"2024-01-01T00:00:00Z\",\n  \"result\": {\n    \"x\": 1\n  },\n  \"status\": \"done\",\n  \"task_id\": \"t1\"\n}"
    );
    let bad = CallbackRequest { task_id: "t".into(), status: "s".into(), result: None, metadata: Some("{oops".into()) };
    assert_eq!(callback_content(&bad, "now"), "");
}

#[test]
fn callback_data_parses_or_keeps_raw() {
    match callback_data("{ \"a\" : [1, 2] }") {
        CallbackData::Json(t) => assert_eq!(t, "{\"a\":[1,2]}"),
        CallbackData::Raw(_) => panic!("expected JSON"),
    }
    match callback_data("not json") {
        CallbackData::Raw(t) => assert_eq!(t, "not json"),
        CallbackData::Json(_) => panic!("expected raw text"),
    }
}

fn is_uuid_v4_text(id: &str) -> bool {
    let c: Vec<char> = id.chars().collect();
    c.len() == 36
        && c.iter().enumerate().all(|(i, ch)| {
            if [8, 13, 18, 23].contains(&i) { *ch == '-' } else { ch.is_ascii_digit() || ('a'..='f').contains(ch) }
        })
        && c[14] == '4'
        && ['8', '9', 'a', 'b'].contains(&c[19])
}

#[test]
fn submit_new_draws_a_random_uuid_id() {
    let mut store = WorkStore::new();
    let a = store.submit_new(Some("t1".into()));
    let b = store.submit_new(None);
    assert!(is_uuid_v4_text(&a) && is_uuid_v4_text(&b));
    assert_ne!(a, b);
    let s = store.status(&a).unwrap();
    assert_eq!(s.work_id, a);
    assert_eq!(s.status, "pending");
    assert_eq!(s.task_id.as_deref(), Some("t1"));
    assert_eq!(store.list().len(), 2);
}

#[test]
fn stored_callback_reads_back_as_written() {
    let req = CallbackRequest { task_id: "t1".into(), status: "done".into(), result: None, metadata: None };
    let stored = callback_content(&req, "2024-01-01T00:00:00+00:00");
    match callback_data(&stored) {
        CallbackData::Json(t) => assert_eq!(
            t,
            "{\"metadata\":null,\"received_at\":\"2024-01-01T00:00:00+00:00\",\"result\":null,\"status\":\"done\",\"task_id\":\"t1\"}"
        ),
        CallbackData::Raw(_) => panic!("expected JSON"),
    }
}
