//! The job queue: deferred units of game-state work, each recorded under a
//! fresh identifier with a status that moves once from pending to terminal.
use vstd::prelude::*;
use crate::text::{decimal_spec, push_decimal};

verus! {

/// A unit of deferred game-state work, holding only its input.
pub enum Job {
    CreateGame { creator: String, lobby_id: String },
    CheckRoundFulfillment { round_id: String },
}

/// Where a recorded job stands. `Pending` is the only non-terminal state.
pub enum JobStatus {
    Pending,
    Completed { result: String },
    Failed,
}

/// A persisted job: its identifier, its input, its current status, when it
/// was enqueued and, once terminal, when it settled. Times are milliseconds
/// since the Unix epoch.
pub struct JobRecord {
    pub id: u64,
    pub job: Job,
    pub status: JobStatus,
    pub created: i64,
    pub settled: Option<i64>,
}

/// Why a job store operation was refused.
#[derive(PartialEq, Eq, Structural, Debug, Clone, Copy)]
pub enum JobError {
    /// No further record can be written: the identifier space is used up.
    Persistence,
    /// No job was recorded under the identifier.
    UnknownJob,
    /// The job has already reached a terminal status and cannot change.
    AlreadyTerminal,
}

/// The wire-facing view of a job: its identifier and, once it completed,
/// its result.
pub struct JobHandle {
    pub id: u64,
    pub result: Option<String>,
}

/// All recorded jobs. The record with identifier `i` is the `i`-th one
/// written, so identifiers are handed out in order and never reused.
pub struct JobStore {
    records: Vec<JobRecord>,
}

/// The identifier that the next enqueue hands out, if any is left.
pub open spec fn next_id(s: Seq<JobRecord>) -> int {
    s.len() as int
}

/// Record identifiers match their positions.
pub open spec fn well_numbered(s: Seq<JobRecord>) -> bool {
    forall|i: int| 0 <= i < s.len() ==> #[trigger] s[i].id == i
}

/// Whether some record of `s` carries identifier `id`.
pub open spec fn has_id(s: Seq<JobRecord>, id: u64) -> bool {
    exists|i: int| 0 <= i < s.len() && #[trigger] s[i].id == id
}

/// The record stored under `id`, if there is one.
pub open spec fn lookup(s: Seq<JobRecord>, id: u64) -> Option<JobRecord> {
    if (id as int) < s.len() {
        Some(s[id as int])
    } else {
        None
    }
}

/// The store after a successful enqueue of `job` at time `now`.
pub open spec fn enqueued(s: Seq<JobRecord>, job: Job, now: i64) -> Seq<JobRecord> {
    s.push(JobRecord { id: s.len() as u64, job, status: JobStatus::Pending, created: now, settled: None })
}

/// Whether an enqueue into `s` can still be recorded.
pub open spec fn can_enqueue(s: Seq<JobRecord>) -> bool {
    s.len() < u64::MAX
}

/// The store after the record `id` moved to `status` at time `now`, if that
/// move is allowed.
pub open spec fn settled(s: Seq<JobRecord>, id: u64, status: JobStatus, now: i64) -> Seq<JobRecord> {
    if (id as int) < s.len() && s[id as int].status is Pending {
        s.update(
            id as int,
            JobRecord { id, job: s[id as int].job, status, created: s[id as int].created, settled: Some(now) },
        )
    } else {
        s
    }
}

/// What a move of record `id` to a terminal status is refused with, if anything.
pub open spec fn settle_error(s: Seq<JobRecord>, id: u64) -> Option<JobError> {
    if (id as int) >= s.len() {
        Some(JobError::UnknownJob)
    } else if !(s[id as int].status is Pending) {
        Some(JobError::AlreadyTerminal)
    } else {
        None
    }
}

/// What an attempt to settle record `id` returns.
pub open spec fn settle_outcome(s: Seq<JobRecord>, id: u64) -> Result<(), JobError> {
    match settle_error(s, id) {
        Some(e) => Err(e),
        None => Ok(()),
    }
}

/// The result that a status carries: present exactly when it completed.
pub open spec fn status_result(st: JobStatus) -> Option<String> {
    match st {
        JobStatus::Completed { result } => Some(result),
        _ => None,
    }
}

/// The handle that a status read of `id` returns, if the job exists.
pub open spec fn handle_of(s: Seq<JobRecord>, id: u64) -> Option<JobHandle> {
    match lookup(s, id) {
        Some(rec) => Some(JobHandle { id, result: status_result(rec.status) }),
        None => None,
    }
}

/// An enqueue hands out an identifier that no earlier record carries, and a
/// status read right after it finds the job pending, with no result.
pub proof fn law_enqueue_fresh_pending(s: Seq<JobRecord>, job: Job, now: i64)
    requires
        well_numbered(s),
        can_enqueue(s),
    ensures
        !has_id(s, next_id(s) as u64),
        well_numbered(enqueued(s, job, now)),
        handle_of(enqueued(s, job, now), next_id(s) as u64) == Some(
            JobHandle { id: next_id(s) as u64, result: None },
        ),
{
}

/// Once a pending job is completed with a result, a status read returns
/// exactly that result; the record no longer changes, neither by a further
/// attempt to settle it nor by later enqueues, so every later read agrees.
pub proof fn law_completed_result_stable(
    s: Seq<JobRecord>,
    id: u64,
    result: String,
    now: i64,
    later: JobStatus,
    later_now: i64,
    next: Job,
)
    requires
        well_numbered(s),
        settle_error(s, id) is None,
        !(later is Pending),
    ensures
        ({
            let done = settled(s, id, JobStatus::Completed { result }, now);
            &&& handle_of(done, id) == Some(JobHandle { id, result: Some(result) })
            &&& settle_error(done, id) == Some(JobError::AlreadyTerminal)
            &&& settled(done, id, later, later_now) == done
            &&& handle_of(enqueued(done, next, later_now), id) == handle_of(done, id)
        }),
{
}

/// The JSON text of a handle: its identifier as a string, and its result,
/// already JSON text, or `null` while there is none.
pub open spec fn handle_json_spec(h: JobHandle) -> Seq<char> {
    "{\"id\":\""@ + decimal_spec(h.id as nat) + "\",\"result\":"@ + match h.result {
        Some(r) => r@,
        None => "null"@,
    } + "}"@
}

impl JobHandle {
    /// The handle as JSON text.
    pub fn to_json(&self) -> (r: String)
        ensures
            r@ == handle_json_spec(*self),
    {
        let mut out = "{\"id\":\"".to_owned();
        push_decimal(&mut out, self.id);
        out.append("\",\"result\":");
        match &self.result {
            Some(r) => out.append(r.as_str()),
            None => out.append("null"),
        }
        out.append("}");
        proof {
            assert(out@ =~= handle_json_spec(*self));
        }
        out
    }
}

impl View for JobStore {
    type V = Seq<JobRecord>;

    closed spec fn view(&self) -> Seq<JobRecord> {
        self.records@
    }
}

fn copy_string(s: &String) -> (r: String)
    ensures
        r == *s,
{
    s.clone()
}

impl Job {
    /// A field-by-field copy of the job.
    pub fn duplicate(&self) -> (r: Job)
        ensures
            r == *self,
    {
        match self {
            Job::CreateGame { creator, lobby_id } => Job::CreateGame {
                creator: copy_string(creator),
                lobby_id: copy_string(lobby_id),
            },
            Job::CheckRoundFulfillment { round_id } => Job::CheckRoundFulfillment {
                round_id: copy_string(round_id),
            },
        }
    }
}

impl JobStatus {
    /// A field-by-field copy of the status.
    pub fn duplicate(&self) -> (r: JobStatus)
        ensures
            r == *self,
    {
        match self {
            JobStatus::Pending => JobStatus::Pending,
            JobStatus::Completed { result } => JobStatus::Completed { result: copy_string(result) },
            JobStatus::Failed => JobStatus::Failed,
        }
    }

    /// Whether the status is terminal.
    pub fn is_terminal(&self) -> (r: bool)
        ensures
            r == !(*self is Pending),
    {
        !matches!(self, JobStatus::Pending)
    }
}

impl JobStore {
    /// The well-formedness of a store: identifiers match positions.
    pub open spec fn wf(&self) -> bool {
        well_numbered(self@)
    }

    /// An empty store.
    pub fn new() -> (r: JobStore)
        ensures
            r@ == Seq::<JobRecord>::empty(),
            r.wf(),
    {
        JobStore { records: Vec::new() }
    }

    /// The number of recorded jobs.
    pub fn len(&self) -> (r: usize)
        ensures
            r == self@.len(),
    {
        self.records.len()
    }

    /// Records `job` as pending under a fresh identifier, enqueued at `now`,
    /// and returns that identifier, without running the job.
    pub fn queue(&mut self, job: Job, now: i64) -> (r: Result<u64, JobError>)
        requires
            old(self).wf(),
        ensures
            final(self).wf(),
            r is Ok <==> can_enqueue(old(self)@),
            r matches Ok(id) ==> id == next_id(old(self)@) && final(self)@ == enqueued(old(self)@, job, now),
            r matches Err(e) ==> e == JobError::Persistence && final(self)@ == old(self)@,
    {
        let n = self.records.len();
        if n as u64 >= u64::MAX {
            return Err(JobError::Persistence);
        }
        let id = n as u64;
        self.records.push(JobRecord { id, job, status: JobStatus::Pending, created: now, settled: None });
        assert(self@ =~= enqueued(old(self)@, job, now));
        Ok(id)
    }

    /// The handle of job `id`: its identifier and, once completed, its result.
    /// `None` when no job was recorded under `id`.
    pub fn status(&self, id: u64) -> (r: Option<JobHandle>)
        requires
            self.wf(),
        ensures
            r == handle_of(self@, id),
    {
        if id as usize >= self.records.len() || id >= self.records.len() as u64 {
            return None;
        }
        let rec = &self.records[id as usize];
        let result = match &rec.status {
            JobStatus::Completed { result } => Some(copy_string(result)),
            _ => None,
        };
        Some(JobHandle { id, result })
    }

    /// The full record of job `id`, if one was written.
    pub fn record(&self, id: u64) -> (r: Option<JobRecord>)
        requires
            self.wf(),
        ensures
            r == lookup(self@, id),
    {
        if id >= self.records.len() as u64 {
            return None;
        }
        let rec = &self.records[id as usize];
        Some(
            JobRecord {
                id: rec.id,
                job: rec.job.duplicate(),
                status: rec.status.duplicate(),
                created: rec.created,
                settled: rec.settled,
            },
        )
    }

    fn settle(&mut self, id: u64, status: JobStatus, now: i64) -> (r: Result<(), JobError>)
        requires
            old(self).wf(),
            !(status is Pending),
        ensures
            final(self).wf(),
            final(self)@ == settled(old(self)@, id, status, now),
            r == settle_outcome(old(self)@, id),
    {
        if id >= self.records.len() as u64 {
            return Err(JobError::UnknownJob);
        }
        let idx = id as usize;
        if self.records[idx].status.is_terminal() {
            return Err(JobError::AlreadyTerminal);
        }
        let job = self.records[idx].job.duplicate();
        let created = self.records[idx].created;
        self.records.set(idx, JobRecord { id, job, status, created, settled: Some(now) });
        assert(self@ =~= settled(old(self)@, id, status, now));
        Ok(())
    }

    /// Marks pending job `id` completed with `result` at `now`. Refused, and
    /// the store left as it was, when the job is unknown or already terminal.
    pub fn complete(&mut self, id: u64, result: String, now: i64) -> (r: Result<(), JobError>)
        requires
            old(self).wf(),
        ensures
            final(self).wf(),
            final(self)@ == settled(old(self)@, id, JobStatus::Completed { result }, now),
            r == settle_outcome(old(self)@, id),
    {
        self.settle(id, JobStatus::Completed { result }, now)
    }

    /// Marks pending job `id` failed at `now`. Refused, and the store left as
    /// it was, when the job is unknown or already terminal.
    pub fn fail(&mut self, id: u64, now: i64) -> (r: Result<(), JobError>)
        requires
            old(self).wf(),
        ensures
            final(self).wf(),
            final(self)@ == settled(old(self)@, id, JobStatus::Failed, now),
            r == settle_outcome(old(self)@, id),
    {
        self.settle(id, JobStatus::Failed, now)
    }
}

} // verus!
