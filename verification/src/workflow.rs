//! The accumulated state of a tracked object: one record per workflow job,
//! kept in the order in which the jobs were first seen.

use vstd::prelude::*;

verus! {

/// The state a workflow job reports.
#[derive(Clone, Copy, Debug, PartialEq, Eq, Structural)]
pub enum JobStatus {
    Pending,
    Queued,
    InProgress,
    Completed,
    Failed,
}

/// What is kept of one workflow job: its name, its latest state and the time
/// at which it was first seen, in seconds since the Unix epoch.
#[derive(Debug)]
pub struct WorkflowStatus {
    pub name: String,
    pub status: JobStatus,
    pub started: i64,
}

/// One job of the accumulated state, as the contracts see it.
pub struct JobRecord {
    pub id: i64,
    pub name: Seq<char>,
    pub status: JobStatus,
    pub started: i64,
}

/// A job together with the id it is filed under.
#[derive(Debug)]
pub struct JobSlot {
    pub id: i64,
    pub job: WorkflowStatus,
}

impl JobSlot {
    pub open spec fn record(&self) -> JobRecord {
        JobRecord { id: self.id, name: self.job.name@, status: self.job.status, started: self.job.started }
    }
}

/// Whether a job with this id is on record.
pub open spec fn has_job(log: Seq<JobRecord>, id: i64) -> bool {
    exists|i: int| 0 <= i < log.len() && (#[trigger] log[i]).id == id
}

/// Whether no id is on record twice.
pub open spec fn distinct_ids(log: Seq<JobRecord>) -> bool {
    forall|i: int, j: int| 0 <= i < j < log.len() ==> (#[trigger] log[i]).id != (#[trigger] log[j]).id
}

/// The state after a job report. A job already on record keeps its place, its
/// name and its first-seen time and takes the reported state; a job seen for
/// the first time is put last, with the reported name and state and `now` as
/// its first-seen time.
pub open spec fn merged(log: Seq<JobRecord>, id: i64, name: Seq<char>, status: JobStatus, now: i64) -> Seq<
    JobRecord,
> {
    if has_job(log, id) {
        Seq::new(
            log.len(),
            |i: int|
                if log[i].id == id {
                    JobRecord { status: status, ..log[i] }
                } else {
                    log[i]
                },
        )
    } else {
        log.push(JobRecord { id: id, name: name, status: status, started: now })
    }
}

/// The accumulated state of a tracked object: job records in first-seen
/// order, no job id twice.
#[derive(Debug)]
pub struct WorkflowLog {
    slots: Vec<JobSlot>,
}

impl View for WorkflowLog {
    type V = Seq<JobRecord>;

    closed spec fn view(&self) -> Seq<JobRecord> {
        Seq::new(self.slots@.len(), |i: int| self.slots@[i].record())
    }
}

impl WorkflowLog {
    #[verifier::type_invariant]
    closed spec fn inv(&self) -> bool {
        distinct_ids(self@)
    }

    /// The empty state of a tracked object that has just been created.
    pub fn new() -> (log: Self)
        ensures
            log@ == Seq::<JobRecord>::empty(),
    {
        let log = WorkflowLog { slots: Vec::new() };
        assert(log@ =~= Seq::<JobRecord>::empty());
        log
    }

    /// The number of jobs on record. No job id is on record twice.
    pub fn len(&self) -> (n: usize)
        ensures
            n == self@.len(),
            distinct_ids(self@),
    {
        proof {
            use_type_invariant(self);
        }
        self.slots.len()
    }

    /// The id of the job at position `i`, in first-seen order.
    pub fn id_at(&self, i: usize) -> (id: i64)
        requires
            i < self@.len(),
        ensures
            id == self@[i as int].id,
    {
        self.slots[i].id
    }

    /// The job at position `i`, in first-seen order.
    pub fn job_at(&self, i: usize) -> (job: &WorkflowStatus)
        requires
            i < self@.len(),
        ensures
            job.name@ == self@[i as int].name,
            job.status == self@[i as int].status,
            job.started == self@[i as int].started,
    {
        &self.slots[i].job
    }

    /// The position of the job with this id, if it is on record.
    pub fn position(&self, id: i64) -> (at: Option<usize>)
        ensures
            match at {
                Some(i) => i < self@.len() && self@[i as int].id == id,
                None => !has_job(self@, id),
            },
    {
        let mut i: usize = 0;
        while i < self.slots.len()
            invariant
                i <= self.slots@.len(),
                forall|j: int| 0 <= j < i ==> (#[trigger] self@[j]).id != id,
            decreases self.slots@.len() - i,
        {
            if self.slots[i].id == id {
                return Some(i);
            }
            i += 1;
        }
        None
    }

    /// Files a job report: inserts the job when its id is new, overwrites the
    /// state of the job when it is on record. `now` is the time of the report
    /// in seconds since the Unix epoch; it is kept only for a new job.
    pub fn record(&mut self, id: i64, name: String, status: JobStatus, now: i64)
        ensures
            final(self)@ == merged(old(self)@, id, name@, status, now),
            distinct_ids(final(self)@),
    {
        proof {
            use_type_invariant(&*self);
        }
        let ghost before = self@;
        let at = self.position(id);
        let mut taken = WorkflowLog::new();
        core::mem::swap(self, &mut taken);
        let mut slots = taken.slots;
        match at {
            Some(i) => {
                let slot = slots.remove(i);
                let kept = JobSlot {
                    id: slot.id,
                    job: WorkflowStatus { name: slot.job.name, status: status, started: slot.job.started },
                };
                slots.insert(i, kept);
            },
            None => {
                slots.push(JobSlot { id: id, job: WorkflowStatus { name: name, status: status, started: now } });
            },
        }
        let ghost after = Seq::new(slots@.len(), |i: int| slots@[i].record());
        proof {
            let want = merged(before, id, name@, status, now);
            if let Some(i) = at {
                assert(before[i as int].id == id);
                assert(after.len() == want.len());
                assert forall|j: int| 0 <= j < after.len() implies after[j] == want[j] by {
                    if j != i {
                        assert(before[j].id != id);
                    }
                }
            }
            assert(after =~= want);
            lemma_merged_distinct(before, id, name@, status, now);
        }
        *self = WorkflowLog { slots };
    }
}

/// A job report keeps the job ids distinct.
pub proof fn lemma_merged_distinct(log: Seq<JobRecord>, id: i64, name: Seq<char>, status: JobStatus, now: i64)
    requires
        distinct_ids(log),
    ensures
        distinct_ids(merged(log, id, name, status, now)),
{
    let next = merged(log, id, name, status, now);
    if has_job(log, id) {
        assert forall|i: int, j: int| 0 <= i < j < next.len() implies (#[trigger] next[i]).id != (
        #[trigger] next[j]).id by {
            assert(next[i].id == log[i].id);
            assert(next[j].id == log[j].id);
        }
    } else {
        assert forall|i: int, j: int| 0 <= i < j < next.len() implies (#[trigger] next[i]).id != (
        #[trigger] next[j]).id by {
            if j == log.len() {
                assert(next[i] == log[i]);
            } else {
                assert(next[i] == log[i]);
                assert(next[j] == log[j]);
            }
        }
    }
}

/// After a report, the job is on record.
pub proof fn lemma_merged_has_job(log: Seq<JobRecord>, id: i64, name: Seq<char>, status: JobStatus, now: i64)
    ensures
        has_job(merged(log, id, name, status, now), id),
{
    let next = merged(log, id, name, status, now);
    if has_job(log, id) {
        let i = choose|i: int| 0 <= i < log.len() && (#[trigger] log[i]).id == id;
        assert(next[i].id == id);
    } else {
        assert(next[log.len() as int].id == id);
    }
}

/// Filing the same report twice is the same as filing it once, whatever the
/// times of the two reports.
pub proof fn lemma_merge_idempotent(
    log: Seq<JobRecord>,
    id: i64,
    name: Seq<char>,
    status: JobStatus,
    first: i64,
    second: i64,
)
    ensures
        merged(merged(log, id, name, status, first), id, name, status, second) == merged(
            log,
            id,
            name,
            status,
            first,
        ),
{
    let once = merged(log, id, name, status, first);
    let twice = merged(once, id, name, status, second);
    lemma_merged_has_job(log, id, name, status, first);
    assert(twice.len() == once.len());
    assert forall|i: int| 0 <= i < once.len() implies twice[i] == once[i] by {
        if has_job(log, id) {
        } else {
            if i < log.len() {
                assert(once[i] == log[i]);
            }
        }
    }
    assert(twice =~= once);
}

/// A second report for a job overwrites the first: the state holds the job
/// once, at the place it had after the first report, with the state of the
/// second report, and every other job is as it was.
pub proof fn lemma_merge_overwrites(
    log: Seq<JobRecord>,
    id: i64,
    name: Seq<char>,
    x: JobStatus,
    y: JobStatus,
    first: i64,
    second: i64,
)
    requires
        distinct_ids(log),
    ensures
        ({
            let once = merged(log, id, name, x, first);
            let twice = merged(once, id, name, y, second);
            &&& twice.len() == once.len()
            &&& exists|k: int|
                0 <= k < twice.len() && (#[trigger] twice[k]).id == id && twice[k].status == y && (forall|j: int|
                    0 <= j < twice.len() && j != k ==> (#[trigger] twice[j]).id != id && twice[j] == once[j])
        }),
{
    let once = merged(log, id, name, x, first);
    let twice = merged(once, id, name, y, second);
    lemma_merged_has_job(log, id, name, x, first);
    lemma_merged_distinct(log, id, name, x, first);
    let k = choose|k: int| 0 <= k < once.len() && (#[trigger] once[k]).id == id;
    assert(twice[k].id == id && twice[k].status == y);
    assert forall|j: int| 0 <= j < twice.len() && j != k implies (#[trigger] twice[j]).id != id && twice[j]
        == once[j] by {
        if j < k {
            assert(once[j].id != once[k].id);
        } else {
            assert(once[k].id != once[j].id);
        }
    }
}

/// Jobs keep the order in which they were first seen: a report never moves a
/// job that is on record, and a new job goes last.
pub proof fn lemma_merge_keeps_order(log: Seq<JobRecord>, id: i64, name: Seq<char>, status: JobStatus, now: i64)
    ensures
        ({
            let next = merged(log, id, name, status, now);
            &&& log.len() <= next.len() <= log.len() + 1
            &&& forall|i: int| 0 <= i < log.len() ==> (#[trigger] next[i]).id == log[i].id
            &&& next.len() == log.len() <==> has_job(log, id)
        }),
{
}

} // verus!
