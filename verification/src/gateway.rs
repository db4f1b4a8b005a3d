//! The answers of the gateway's HTTP endpoints where they are decided by
//! the library: the keys of stored callbacks, the limits of a query, and
//! the error status and text of each refusal or failure.
use vstd::prelude::*;
use crate::document::{error_message, QueryRequest, RagError};
use crate::json::{
    json_object_text_of, json_pretty_text_of, json_record_text, json_value_text, parse_json_value, scalar_members, JsonScalarModel,
    RecordValue, RecordValueModel,
};
use crate::rag::RagConfig;
use crate::text::{joined, owned};
use crate::work::{opt_text, WorkStatus};

verus! {

/// A request reporting the result of a task; `result` and `metadata` hold
/// JSON texts.
pub struct CallbackRequest {
    pub task_id: String,
    pub status: String,
    pub result: Option<String>,
    pub metadata: Option<String>,
}

/// An error answer: an HTTP status code and the text of its `error` member.
pub struct ApiError {
    pub status: u16,
    pub message: String,
}

/// The key under which the callback of a task is stored.
pub open spec fn callback_key(task_id: Seq<char>) -> Seq<char> {
    "callback:"@ + task_id
}

impl CallbackRequest {
    /// The key under which this callback is stored.
    pub fn key(&self) -> (r: String)
        ensures
            r@ == callback_key(self.task_id@),
    {
        callback_key_for(self.task_id.as_str())
    }
}

/// The key under which the callback of the task `task_id` is stored.
pub fn callback_key_for(task_id: &str) -> (r: String)
    ensures
        r@ == callback_key(task_id@),
{
    joined("callback:", task_id)
}

/// A member of a stored callback record that holds a JSON text, if any.
pub open spec fn json_member(t: Option<Seq<char>>) -> RecordValueModel {
    match t {
        Some(t) => RecordValueModel::Json(t),
        None => RecordValueModel::Null,
    }
}

/// The members of the record stored for a callback, in order.
pub open spec fn callback_members(
    task_id: Seq<char>,
    status: Seq<char>,
    result: Option<Seq<char>>,
    metadata: Option<Seq<char>>,
    received_at: Seq<char>,
) -> Seq<(Seq<char>, RecordValueModel)> {
    seq![
        ("task_id"@, RecordValueModel::Text(task_id)),
        ("status"@, RecordValueModel::Text(status)),
        ("result"@, json_member(result)),
        ("metadata"@, json_member(metadata)),
        ("received_at"@, RecordValueModel::Text(received_at)),
    ]
}

/// The JSON text, where there is one, is JSON.
pub open spec fn json_text_parses(t: Option<Seq<char>>) -> bool {
    match t {
        Some(t) => json_value_text(t) is Some,
        None => true,
    }
}

/// The text stored for a callback: the pretty JSON object of its task id,
/// status, result, metadata (`null` where absent) and time of receipt; the
/// empty text where the result or metadata is not JSON.
pub open spec fn callback_record_text(
    task_id: Seq<char>,
    status: Seq<char>,
    result: Option<Seq<char>>,
    metadata: Option<Seq<char>>,
    received_at: Seq<char>,
) -> Seq<char> {
    if json_text_parses(result) && json_text_parses(metadata) {
        json_pretty_text_of(callback_members(task_id, status, result, metadata, received_at))
    } else {
        Seq::empty()
    }
}

/// Where the request's result and metadata are JSON texts (or absent), the
/// record stored for it is the pretty JSON object whose `task_id` and
/// `status` are the request's, as strings, whose `result` and `metadata` are
/// the JSON values of the request's texts (`null` where absent), and whose
/// `received_at` is the time of receipt: nothing of the request is dropped
/// or replaced.
pub proof fn lemma_callback_record_holds_request(
    task_id: Seq<char>,
    status: Seq<char>,
    result: Option<Seq<char>>,
    metadata: Option<Seq<char>>,
    received_at: Seq<char>,
)
    requires
        json_text_parses(result),
        json_text_parses(metadata),
    ensures
        callback_record_text(task_id, status, result, metadata, received_at) == json_pretty_text_of(seq![
            ("task_id"@, RecordValueModel::Text(task_id)),
            ("status"@, RecordValueModel::Text(status)),
            ("result"@, match result {
                Some(t) => RecordValueModel::Json(t),
                None => RecordValueModel::Null,
            }),
            ("metadata"@, match metadata {
                Some(t) => RecordValueModel::Json(t),
                None => RecordValueModel::Null,
            }),
            ("received_at"@, RecordValueModel::Text(received_at)),
        ]),
{
    let explicit = seq![
        ("task_id"@, RecordValueModel::Text(task_id)),
        ("status"@, RecordValueModel::Text(status)),
        ("result"@, match result {
            Some(t) => RecordValueModel::Json(t),
            None => RecordValueModel::Null,
        }),
        ("metadata"@, match metadata {
            Some(t) => RecordValueModel::Json(t),
            None => RecordValueModel::Null,
        }),
        ("received_at"@, RecordValueModel::Text(received_at)),
    ];
    assert(callback_members(task_id, status, result, metadata, received_at) =~= explicit);
}

/// The object of a callback stored with no result and no metadata: its
/// task id, status, `null`, `null` and time of receipt.
pub open spec fn bare_callback_object(task_id: Seq<char>, status: Seq<char>, received_at: Seq<char>) -> Seq<(Seq<char>, JsonScalarModel)> {
    seq![
        ("task_id"@, JsonScalarModel::Text(task_id)),
        ("status"@, JsonScalarModel::Text(status)),
        ("result"@, JsonScalarModel::Null),
        ("metadata"@, JsonScalarModel::Null),
        ("received_at"@, JsonScalarModel::Text(received_at)),
    ]
}

/// The text stored for the callback `req`, received at `received_at`. Where
/// the callback has no result and no metadata, reading the stored text back
/// (as `callback_data` does) gives exactly the object written: its task id,
/// status, `null`, `null` and time of receipt.
pub fn callback_content(req: &CallbackRequest, received_at: &str) -> (r: String)
    ensures
        r@ == callback_record_text(req.task_id@, req.status@, opt_text(req.result), opt_text(req.metadata),
            received_at@),
        req.result is None && req.metadata is None ==> json_value_text(r@) == Some(
            json_object_text_of(bare_callback_object(req.task_id@, req.status@, received_at@)),
        ),
{
    let json_of = |t: &Option<String>| -> (v: RecordValue)
        ensures
            v.deep_view() == json_member(opt_text(*t)),
    {
        match t {
            Some(t) => RecordValue::Json(t.clone()),
            None => RecordValue::Null,
        }
    };
    let members: Vec<(String, RecordValue)> = vec![
        (owned("task_id"), RecordValue::Text(req.task_id.clone())),
        (owned("status"), RecordValue::Text(req.status.clone())),
        (owned("result"), json_of(&req.result)),
        (owned("metadata"), json_of(&req.metadata)),
        (owned("received_at"), RecordValue::Text(owned(received_at))),
    ];
    let ghost model = callback_members(req.task_id@, req.status@, opt_text(req.result), opt_text(req.metadata),
        received_at@);
    assert(members.deep_view() =~= model);
    assert(model[2] == ("result"@, json_member(opt_text(req.result))));
    assert(model[3] == ("metadata"@, json_member(opt_text(req.metadata))));
    proof {
        if req.result is None && req.metadata is None {
            assert(scalar_members(model) =~= bare_callback_object(req.task_id@, req.status@, received_at@));
            assert forall|i: int| 0 <= i < model.len() implies !((#[trigger] model[i]).1 is Json) by {
                assert(0 <= i < 5);
            }
        }
    }
    match json_record_text(&members) {
        Ok(t) => t,
        Err(_) => {
            assert(!(json_text_parses(opt_text(req.result)) && json_text_parses(opt_text(req.metadata)))) by {
                if json_text_parses(opt_text(req.result)) && json_text_parses(opt_text(req.metadata)) {
                    assert forall|i: int| 0 <= i < model.len() implies ((#[trigger] model[i]).1 matches RecordValueModel::Json(t)
                        ==> json_value_text(t) is Some) by {
                        assert(0 <= i < 5);
                    }
                }
            }
            String::new()
        },
    }
}

/// What a stored callback holds, as answered: the JSON value its text
/// holds, or the raw text where that is not JSON.
pub enum CallbackData {
    /// The compact text of the JSON value stored.
    Json(String),
    /// The stored text, which is not JSON.
    Raw(String),
}

/// What the stored callback text `content` holds: its JSON value where it
/// is JSON, else the raw text.
pub fn callback_data(content: &str) -> (r: CallbackData)
    ensures
        match json_value_text(content@) {
            Some(t) => r matches CallbackData::Json(j) && j@ == t,
            None => r matches CallbackData::Raw(c) && c@ == content@,
        },
{
    match parse_json_value(content) {
        Some(t) => CallbackData::Json(t),
        None => CallbackData::Raw(owned(content)),
    }
}

/// The answer where storing a callback failed with the backend error `e`.
pub fn callback_store_failed(e: &str) -> (r: ApiError)
    ensures
        r.status == 500,
        r.message@ == "Failed to store callback: "@ + e@,
{
    ApiError { status: 500, message: joined("Failed to store callback: ", e) }
}

/// The answer where no callback is stored for the task `task_id`.
pub fn callback_not_found(task_id: &str) -> (r: ApiError)
    ensures
        r.status == 404,
        r.message@ == "No callback found for task_id '"@ + task_id@ + "'"@,
{
    let mut m = joined("No callback found for task_id '", task_id);
    m.append("'");
    ApiError { status: 404, message: m }
}

/// The answer where the backend failed with the error `e`.
pub fn backend_failed(e: &str) -> (r: ApiError)
    ensures
        r.status == 500,
        r.message@ == e@,
{
    ApiError { status: 500, message: owned(e) }
}

/// The answer of every document endpoint while the index is off.
pub fn rag_disabled() -> (r: ApiError)
    ensures
        r.status == 503,
        r.message@ == "RAG is not enabled. Set [rag] enabled = true in config."@,
{
    ApiError { status: 503, message: owned("RAG is not enabled. Set [rag] enabled = true in config.") }
}

/// The answer where the request body could not be read, with the reader's
/// error text `e`.
pub fn invalid_request(e: &str) -> (r: ApiError)
    ensures
        r.status == 400,
        r.message@ == "Invalid request: "@ + e@,
{
    ApiError { status: 400, message: joined("Invalid request: ", e) }
}

/// The answer where ingesting failed with `e`.
pub fn ingestion_failed(e: &RagError) -> (r: ApiError)
    ensures
        r.status == 500,
        r.message@ == "Ingestion failed: "@ + error_message(*e),
{
    let m = e.message();
    ApiError { status: 500, message: joined("Ingestion failed: ", m.as_str()) }
}

/// The answer where querying failed with `e`.
pub fn query_failed(e: &RagError) -> (r: ApiError)
    ensures
        r.status == 500,
        r.message@ == "Query failed: "@ + error_message(*e),
{
    let m = e.message();
    ApiError { status: 500, message: joined("Query failed: ", m.as_str()) }
}

/// The answer to deleting the document `id`, given whether the index held
/// it or the error that stopped the deletion: nothing to report where it was
/// deleted, not found where it was not held.
pub fn delete_answer(id: &str, outcome: &Result<bool, RagError>) -> (r: Result<(), ApiError>)
    ensures
        match *outcome {
            Ok(true) => r is Ok,
            Ok(false) => r matches Err(a) && a.status == 404 && a.message@ == "Document "@ + id@ + " not found"@,
            Err(e) => r matches Err(a) && a.status == 500 && a.message@ == "Delete failed: "@ + error_message(e),
        },
{
    match outcome {
        Ok(true) => Ok(()),
        Ok(false) => {
            let mut m = joined("Document ", id);
            m.append(" not found");
            Err(ApiError { status: 404, message: m })
        },
        Err(e) => {
            let m = e.message();
            Err(ApiError { status: 500, message: joined("Delete failed: ", m.as_str()) })
        },
    }
}

/// The answer where no work item has the id `work_id`.
pub fn work_not_found(work_id: &str) -> (r: ApiError)
    ensures
        r.status == 404,
        r.message@ == "Work '"@ + work_id@ + "' not found"@,
{
    let mut m = joined("Work '", work_id);
    m.append("' not found");
    ApiError { status: 404, message: m }
}

/// How the event stream of a work item is answered.
pub enum EventsPlan {
    /// No such work item.
    NotFound(ApiError),
    /// The item's event channel is open: its events are streamed.
    Stream,
    /// The item has no open event channel (it may have finished already):
    /// one event with this final status is sent, and the stream ends.
    FinalStatus(WorkStatus),
}

/// How the event stream of the work item `work_id` is answered, given its
/// status (if it is held) and whether its event channel is open.
pub fn events_plan(work_id: &str, status: Option<WorkStatus>, channel_open: bool) -> (r: EventsPlan)
    ensures
        match status {
            None => r matches EventsPlan::NotFound(a) && a.status == 404
                && a.message@ == "Work '"@ + work_id@ + "' not found"@,
            Some(s) => if channel_open { r is Stream } else { r == EventsPlan::FinalStatus(s) },
        },
{
    match status {
        None => EventsPlan::NotFound(work_not_found(work_id)),
        Some(s) => if channel_open {
            EventsPlan::Stream
        } else {
            EventsPlan::FinalStatus(s)
        },
    }
}

/// The number of chunks and least relevance of a query: as requested, else
/// as configured.
pub fn query_limits(req: &QueryRequest, config: &RagConfig) -> (r: (usize, i64))
    ensures
        r.0 == match req.max_chunks {
            Some(n) => n,
            None => config.max_chunks,
        },
        r.1 == match req.min_relevance_micros {
            Some(m) => m,
            None => config.min_relevance_micros,
        },
{
    let n = match req.max_chunks {
        Some(n) => n,
        None => config.max_chunks,
    };
    let m = match req.min_relevance_micros {
        Some(m) => m,
        None => config.min_relevance_micros,
    };
    (n, m)
}

/// How many entries to recall from the memory backend for a query of
/// `max_chunks` chunks: twice as many.
pub fn recall_limit(max_chunks: usize) -> (r: usize)
    requires
        max_chunks <= usize::MAX / 2,
    ensures
        r == 2 * max_chunks,
{
    max_chunks * 2
}

} // verus!
