//! Work items run by the worker: their requests, their status through the
//! lifecycle pending, running, then completed, failed or timed out, and the
//! store that holds them.
use vstd::prelude::*;
use crate::clock::{is_uuid_v4_text, new_id};
use crate::index::{Keyed, Registry};
use crate::text::{decimal, owned, push_decimal};

verus! {

/// A request to run a prompt as a work item.
pub struct WorkerRequest {
    pub task_id: Option<String>,
    pub prompt: String,
    pub session_id: Option<String>,
    pub timeout_secs: Option<u64>,
}

impl WorkerRequest {
    /// The time the work may take, in seconds: as requested, else 600.
    pub fn timeout_or_default(&self) -> (r: u64)
        ensures
            r == match self.timeout_secs {
                Some(t) => t,
                None => 600,
            },
    {
        match self.timeout_secs {
            Some(t) => t,
            None => 600,
        }
    }
}

/// The status of a work item.
pub struct WorkStatus {
    pub work_id: String,
    pub task_id: Option<String>,
    /// One of `pending`, `running`, `completed`, `failed`, `timeout`.
    pub status: String,
    pub result: Option<String>,
    pub error: Option<String>,
    pub started_at: Option<String>,
    pub completed_at: Option<String>,
}

impl Clone for WorkStatus {
    fn clone(&self) -> (r: Self)
        ensures
            r == *self,
    {
        WorkStatus {
            work_id: self.work_id.clone(),
            task_id: self.task_id.clone(),
            status: self.status.clone(),
            result: self.result.clone(),
            error: self.error.clone(),
            started_at: self.started_at.clone(),
            completed_at: self.completed_at.clone(),
        }
    }
}

impl Keyed for WorkStatus {
    open spec fn key_of(&self) -> Seq<char> {
        self.work_id@
    }

    fn key(&self) -> (r: &str) {
        self.work_id.as_str()
    }

    fn duplicate(&self) -> (r: Self) {
        self.clone()
    }
}

/// The text an optional string holds.
pub open spec fn opt_text(o: Option<String>) -> Option<Seq<char>> {
    match o {
        Some(s) => Some(s@),
        None => None,
    }
}

/// How running a work item ended.
pub enum WorkOutcome {
    /// The agent answered with this response.
    Completed(String),
    /// The agent failed with this error text.
    Failed(String),
    /// The work took longer than this many seconds.
    TimedOut { after_secs: u64 },
}

/// The error text of a work item that timed out.
pub open spec fn timeout_message(secs: u64) -> Seq<char> {
    "Task timed out after "@ + decimal(secs as nat) + "s"@
}

/// The status text that an outcome leaves.
pub open spec fn outcome_status(o: WorkOutcome) -> Seq<char> {
    match o {
        WorkOutcome::Completed(_) => "completed"@,
        WorkOutcome::Failed(_) => "failed"@,
        WorkOutcome::TimedOut { .. } => "timeout"@,
    }
}

/// `s` is the status of a work item just submitted.
pub open spec fn is_pending(s: WorkStatus, work_id: Seq<char>, task_id: Option<Seq<char>>) -> bool {
    &&& s.work_id@ == work_id
    &&& opt_text(s.task_id) == task_id
    &&& s.status@ == "pending"@
    &&& s.result is None
    &&& s.error is None
    &&& s.started_at is None
    &&& s.completed_at is None
}

/// `after` is `before` marked running at the time `now`.
pub open spec fn started(before: WorkStatus, after: WorkStatus, now: Seq<char>) -> bool {
    &&& after.work_id == before.work_id
    &&& after.task_id == before.task_id
    &&& after.status@ == "running"@
    &&& after.result == before.result
    &&& after.error == before.error
    &&& opt_text(after.started_at) == Some(now)
    &&& after.completed_at == before.completed_at
}

/// `after` is `before` ended with `outcome` at the time `now`.
pub open spec fn finished(before: WorkStatus, after: WorkStatus, outcome: WorkOutcome, now: Seq<char>) -> bool {
    &&& after.work_id == before.work_id
    &&& after.task_id == before.task_id
    &&& after.status@ == outcome_status(outcome)
    &&& after.started_at == before.started_at
    &&& opt_text(after.completed_at) == Some(now)
    &&& match outcome {
        WorkOutcome::Completed(resp) => opt_text(after.result) == Some(resp@) && after.error == before.error,
        WorkOutcome::Failed(e) => opt_text(after.error) == Some(e@) && after.result == before.result,
        WorkOutcome::TimedOut { after_secs } => opt_text(after.error) == Some(timeout_message(after_secs))
            && after.result == before.result,
    }
}

impl WorkStatus {
    /// The status of a work item just submitted: pending, with nothing else set.
    pub fn pending(work_id: String, task_id: Option<String>) -> (r: WorkStatus)
        ensures
            is_pending(r, work_id@, opt_text(task_id)),
    {
        proof {
            reveal_strlit("pending");
        }
        WorkStatus {
            work_id,
            task_id,
            status: owned("pending"),
            result: None,
            error: None,
            started_at: None,
            completed_at: None,
        }
    }

    /// Marks the work item running since the time `now`.
    pub fn mark_running(&mut self, now: String)
        ensures
            started(*old(self), *final(self), now@),
    {
        self.status = owned("running");
        self.started_at = Some(now);
    }

    /// Ends the work item with `outcome` at the time `now`: completed with
    /// the response, failed with the error, or timed out with an error that
    /// says after how many seconds.
    pub fn finish(&mut self, outcome: WorkOutcome, now: String)
        ensures
            finished(*old(self), *final(self), outcome, now@),
    {
        match outcome {
            WorkOutcome::Completed(resp) => {
                self.status = owned("completed");
                self.result = Some(resp);
            },
            WorkOutcome::Failed(e) => {
                self.status = owned("failed");
                self.error = Some(e);
            },
            WorkOutcome::TimedOut { after_secs } => {
                self.status = owned("timeout");
                let mut msg = owned("Task timed out after ");
                push_decimal(&mut msg, after_secs);
                msg.append("s");
                self.error = Some(msg);
            },
        }
        self.completed_at = Some(now);
    }
}

/// A work item that was submitted, started and finished carries the status
/// of its outcome, the times it started and finished, a result only where it
/// completed, and an error only where it did not.
pub proof fn lemma_lifecycle(
    s0: WorkStatus,
    s1: WorkStatus,
    s2: WorkStatus,
    work_id: Seq<char>,
    task_id: Option<Seq<char>>,
    started_at: Seq<char>,
    outcome: WorkOutcome,
    completed_at: Seq<char>,
)
    requires
        is_pending(s0, work_id, task_id),
        started(s0, s1, started_at),
        finished(s1, s2, outcome, completed_at),
    ensures
        s2.work_id@ == work_id,
        opt_text(s2.task_id) == task_id,
        s2.status@ == outcome_status(outcome),
        opt_text(s2.started_at) == Some(started_at),
        opt_text(s2.completed_at) == Some(completed_at),
        s2.result is Some <==> outcome is Completed,
        s2.error is Some <==> !(outcome is Completed),
{
}

/// The status texts of an ended work item.
pub open spec fn is_ended_status(status: Seq<char>) -> bool {
    status == "completed"@ || status == "failed"@ || status == "timeout"@
}

/// `after` is the store `before` with the work item `work_id` of the task
/// `task_id` just submitted, pending; no other item changes.
pub open spec fn submitted_to(
    before: Map<Seq<char>, WorkStatus>,
    after: Map<Seq<char>, WorkStatus>,
    work_id: Seq<char>,
    task_id: Option<Seq<char>>,
) -> bool {
    &&& after.dom() == before.dom().insert(work_id)
    &&& is_pending(after[work_id], work_id, task_id)
    &&& forall|k: Seq<char>| k != work_id && before.contains_key(k) ==> #[trigger] after[k] == before[k]
}

/// `after` is the store `before` with its work item `work_id` marked running
/// since `now`; no other item changes.
pub open spec fn started_in(
    before: Map<Seq<char>, WorkStatus>,
    after: Map<Seq<char>, WorkStatus>,
    work_id: Seq<char>,
    now: Seq<char>,
) -> bool {
    &&& before.contains_key(work_id)
    &&& after == before.insert(work_id, after[work_id])
    &&& started(before[work_id], after[work_id], now)
}

/// `after` is the store `before` with its work item `work_id` ended with
/// `outcome` at `now`; no other item changes.
pub open spec fn finished_in(
    before: Map<Seq<char>, WorkStatus>,
    after: Map<Seq<char>, WorkStatus>,
    work_id: Seq<char>,
    outcome: WorkOutcome,
    now: Seq<char>,
) -> bool {
    &&& before.contains_key(work_id)
    &&& after == before.insert(work_id, after[work_id])
    &&& finished(before[work_id], after[work_id], outcome, now)
}

/// A work item submitted, then started, then finished moves from pending to
/// running to exactly one ended status, that of its outcome: it has a start
/// time from running on and an end time only once ended, a result only where
/// it completed and an error only where it did not; every other item is as
/// it was before the submission.
pub proof fn lemma_store_lifecycle(
    m0: Map<Seq<char>, WorkStatus>,
    m1: Map<Seq<char>, WorkStatus>,
    m2: Map<Seq<char>, WorkStatus>,
    m3: Map<Seq<char>, WorkStatus>,
    work_id: Seq<char>,
    task_id: Option<Seq<char>>,
    started_at: Seq<char>,
    outcome: WorkOutcome,
    completed_at: Seq<char>,
)
    requires
        submitted_to(m0, m1, work_id, task_id),
        started_in(m1, m2, work_id, started_at),
        finished_in(m2, m3, work_id, outcome, completed_at),
    ensures
        m1[work_id].status@ == "pending"@,
        m1[work_id].started_at is None && m1[work_id].completed_at is None,
        m2[work_id].status@ == "running"@,
        opt_text(m2[work_id].started_at) == Some(started_at) && m2[work_id].completed_at is None,
        is_ended_status(m3[work_id].status@),
        m3[work_id].status@ == outcome_status(outcome),
        opt_text(m3[work_id].started_at) == Some(started_at),
        opt_text(m3[work_id].completed_at) == Some(completed_at),
        m3[work_id].work_id@ == work_id && opt_text(m3[work_id].task_id) == task_id,
        m3[work_id].result is Some <==> outcome is Completed,
        m3[work_id].error is Some <==> !(outcome is Completed),
        m3.dom() == m0.dom().insert(work_id),
        forall|k: Seq<char>| k != work_id && m0.contains_key(k) ==> #[trigger] m3[k] == m0[k],
{
    lemma_lifecycle(m1[work_id], m2[work_id], m3[work_id], work_id, task_id, started_at, outcome, completed_at);
    assert forall|k: Seq<char>| k != work_id && m0.contains_key(k) implies #[trigger] m3[k] == m0[k] by {
        assert(m1[k] == m0[k]);
        assert(m2[k] == m1[k]);
    }
    assert(m3.dom() =~= m0.dom().insert(work_id));
}

/// The work items, each under its id.
pub struct WorkStore {
    pub items: Registry<WorkStatus>,
}

impl WorkStore {
    /// A store holding no work item.
    pub fn new() -> (r: WorkStore)
        ensures
            r.items@ == Map::<Seq<char>, WorkStatus>::empty(),
    {
        WorkStore { items: Registry::new() }
    }

    /// Records a work item just submitted, pending, in place of any held
    /// under its id.
    pub fn submit(&mut self, work_id: String, task_id: Option<String>)
        ensures
            submitted_to(old(self).items@, final(self).items@, work_id@, opt_text(task_id)),
    {
        let ghost id = work_id@;
        let s = WorkStatus::pending(work_id, task_id);
        self.items.insert(s);
        assert(final(self).items@.dom() =~= old(self).items@.dom().insert(id));
    }

    /// Records a new work item of the task `task_id`, pending, under a fresh
    /// random id, and gives that id: the hyphenated text of a random UUID.
    pub fn submit_new(&mut self, task_id: Option<String>) -> (r: String)
        ensures
            is_uuid_v4_text(r@),
            submitted_to(old(self).items@, final(self).items@, r@, opt_text(task_id)),
    {
        let work_id = new_id();
        self.submit(work_id.clone(), task_id);
        work_id
    }

    /// Marks the work item `work_id` running since `now`; whether it was held.
    /// Nothing changes where it was not.
    pub fn start(&mut self, work_id: &str, now: String) -> (r: bool)
        ensures
            r == old(self).items@.contains_key(work_id@),
            r ==> started_in(old(self).items@, final(self).items@, work_id@, now@),
            !r ==> final(self).items@ == old(self).items@,
    {
        match self.items.get(work_id) {
            Some(s) => {
                let mut t = s.clone();
                t.mark_running(now);
                self.items.insert(t);
                true
            },
            None => false,
        }
    }

    /// Ends the work item `work_id` with `outcome` at `now`; whether it was
    /// held. Nothing changes where it was not.
    pub fn finish(&mut self, work_id: &str, outcome: WorkOutcome, now: String) -> (r: bool)
        ensures
            r == old(self).items@.contains_key(work_id@),
            r ==> finished_in(old(self).items@, final(self).items@, work_id@, outcome, now@),
            !r ==> final(self).items@ == old(self).items@,
    {
        match self.items.get(work_id) {
            Some(s) => {
                let mut t = s.clone();
                t.finish(outcome, now);
                self.items.insert(t);
                true
            },
            None => false,
        }
    }

    /// The status of the work item `work_id`, if held.
    pub fn status(&self, work_id: &str) -> (r: Option<WorkStatus>)
        ensures
            match r {
                Some(s) => self.items@.contains_key(work_id@) && self.items@[work_id@] == s,
                None => !self.items@.contains_key(work_id@),
            },
    {
        match self.items.get(work_id) {
            Some(s) => Some(s.clone()),
            None => None,
        }
    }

    /// All work items, each once.
    pub fn list(&self) -> (r: Vec<WorkStatus>)
        ensures
            r@.len() == self.items@.len(),
            forall|i: int| 0 <= i < r@.len() ==> self.items@.contains_key(#[trigger] r@[i].work_id@)
                && self.items@[r@[i].work_id@] == r@[i],
            forall|i: int, j: int| 0 <= i < j < r@.len() ==> r@[i].work_id@ != r@[j].work_id@,
    {
        let r = self.items.list();
        assert forall|i: int| 0 <= i < r@.len() implies self.items@.contains_key(#[trigger] r@[i].work_id@)
            && self.items@[r@[i].work_id@] == r@[i] by {
            assert(r@[i].key_of() == r@[i].work_id@);
        }
        r
    }
}

} // verus!
