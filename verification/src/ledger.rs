//! The asynchronous job ledger.
//!
//! A network-facing caller submits a conversion and polls its status while a
//! single background worker runs conversions strictly sequentially. The
//! ledger owns the job-state map and the bounded work queue: submission
//! records a fresh job as `Accepted` and enqueues it, failing fast with
//! `QueueFullError` when the queue is at capacity; the worker dequeues a job
//! (marking it `Started`), runs the conversion, and settles it as `Created`
//! or `Failed`. Status queries answer `NotExists` for ids the ledger does
//! not hold - `NotExists` is a query-time answer, never a stored state.
//!
//! Job states move one way only: `Accepted` to `Started` to one of the
//! terminal states `Created`/`Failed`; no operation ever moves a job back,
//! and a terminal state never changes again. Job ids are globally unique
//! for the process lifetime; the host program draws them from
//! [`fresh_job_id`] and never submits an id the ledger already holds.

use vstd::prelude::*;

use crate::error::ConversionError;

verus! {

/// A job identifier, unique for the process lifetime.
#[derive(Clone, Debug, Eq, Hash)]
pub struct JobID(pub String);

impl PartialEq for JobID {
    fn eq(&self, o: &JobID) -> (r: bool) {
        self.0 == o.0
    }
}

impl vstd::std_specs::cmp::PartialEqSpecImpl for JobID {
    open spec fn obeys_eq_spec() -> bool {
        true
    }

    open spec fn eq_spec(&self, o: &JobID) -> bool {
        self.0@ == o.0@
    }
}

impl Default for JobID {
    fn default() -> (id: JobID)
        ensures
            id.0@ == Seq::<char>::empty(),
    {
        JobID(String::new())
    }
}

impl JobID {
    /// A copy of this identifier, equal character for character.
    pub fn duplicate(&self) -> (id: JobID)
        ensures
            id.0@ == self.0@,
    {
        JobID(self.0.clone())
    }
}

/// The status of a conversion job, as a query reports it.
#[derive(Clone, Copy, Debug, PartialEq, Eq, Structural)]
pub enum FlistState {
    /// Submitted and queued; the worker has not picked it up yet.
    Accepted,
    /// The worker is converting it.
    Started,
    /// The conversion finished and the archive exists.
    Created,
    /// The conversion failed; any partial archive has been deleted.
    Failed,
    /// The ledger holds no job under the queried id (query-time answer,
    /// never stored).
    NotExists,
}

/// Position of a state along the one-way lifecycle; the two terminal states
/// rank equally and above everything else.
pub open spec fn state_rank(s: FlistState) -> int {
    match s {
        FlistState::NotExists => 0,
        FlistState::Accepted => 1,
        FlistState::Started => 2,
        FlistState::Created => 3,
        FlistState::Failed => 3,
    }
}

/// A state no job ever leaves.
pub open spec fn is_terminal(s: FlistState) -> bool {
    s == FlistState::Created || s == FlistState::Failed
}

/// Record `i` of the job map holds the job with this id.
pub open spec fn id_at(jobs: Seq<(JobID, FlistState)>, id: Seq<char>, i: int) -> bool {
    0 <= i < jobs.len() && jobs[i].0.0@ == id
}

/// No two records of the job map share an id.
pub open spec fn jobs_unique(jobs: Seq<(JobID, FlistState)>) -> bool {
    forall|i: int, j: int|
        0 <= i < j < jobs.len() ==> (#[trigger] jobs[i]).0.0@ != (#[trigger] jobs[j]).0.0@
}

/// The state the job map holds for an id, `NotExists` when it holds none.
pub open spec fn state_in(jobs: Seq<(JobID, FlistState)>, id: Seq<char>) -> FlistState {
    if exists|i: int| id_at(jobs, id, i) {
        jobs[choose|i: int| id_at(jobs, id, i)].1
    } else {
        FlistState::NotExists
    }
}

proof fn lemma_state_at(jobs: Seq<(JobID, FlistState)>, id: Seq<char>, i: int)
    requires
        jobs_unique(jobs),
        id_at(jobs, id, i),
    ensures
        state_in(jobs, id) == jobs[i].1,
{
    let i0 = choose|i: int| id_at(jobs, id, i);
    if i0 < i {
        assert(jobs[i0].0.0@ != jobs[i].0.0@);
    } else if i < i0 {
        assert(jobs[i].0.0@ != jobs[i0].0.0@);
    }
}

/// The job ledger: the shared job-state map and the bounded work queue,
/// owned by one actor so that readers always observe the latest committed
/// state.
pub struct JobLedger {
    jobs: Vec<(JobID, FlistState)>,
    queue: Vec<JobID>,
    capacity: usize,
}

impl JobLedger {
    /// The job map's records.
    pub closed spec fn jobs_seq(self) -> Seq<(JobID, FlistState)> {
        self.jobs@
    }

    /// The ids waiting in the work queue, submission order preserved.
    pub closed spec fn queue_ids(self) -> Seq<Seq<char>> {
        Seq::new(self.queue@.len(), |i: int| self.queue@[i].0@)
    }

    /// The fixed capacity of the work queue.
    pub closed spec fn cap(self) -> int {
        self.capacity as int
    }

    /// The state a status query reports for an id.
    pub open spec fn spec_state_of(self, id: Seq<char>) -> FlistState {
        state_in(self.jobs_seq(), id)
    }

    /// The ledger's invariant: ids are unique, `NotExists` is never stored,
    /// and the queue holds pairwise-distinct ids of `Accepted` jobs, never
    /// more than its capacity.
    pub open spec fn wf(self) -> bool {
        &&& jobs_unique(self.jobs_seq())
        &&& forall|i: int|
            0 <= i < self.jobs_seq().len() ==> (#[trigger] self.jobs_seq()[i]).1
                != FlistState::NotExists
        &&& forall|q: int|
            0 <= q < self.queue_ids().len() ==> state_in(
                self.jobs_seq(),
                #[trigger] self.queue_ids()[q],
            ) == FlistState::Accepted
        &&& forall|p: int, q: int|
            0 <= p < q < self.queue_ids().len() ==> self.queue_ids()[p] != self.queue_ids()[q]
        &&& self.queue_ids().len() <= self.cap()
    }

    /// An empty ledger whose work queue holds at most `capacity` pending
    /// jobs.
    pub fn new(capacity: usize) -> (l: JobLedger)
        ensures
            l.wf(),
            l.cap() == capacity,
            l.queue_ids() == Seq::<Seq<char>>::empty(),
            forall|id: Seq<char>| l.spec_state_of(id) == FlistState::NotExists,
    {
        let l = JobLedger { jobs: Vec::new(), queue: Vec::new(), capacity };
        proof {
            assert(l.queue_ids() =~= Seq::<Seq<char>>::empty());
        }
        l
    }

    /// The state of the job submitted under `id`: its current state, or
    /// `NotExists` when the ledger holds no such job. A query changes
    /// nothing, so repeated queries with no intervening operation return
    /// the same answer.
    pub fn get_state(&self, id: &JobID) -> (s: FlistState)
        requires
            self.wf(),
        ensures
            s == self.spec_state_of(id.0@),
    {
        let mut j: usize = 0;
        while j < self.jobs.len()
            invariant
                self.wf(),
                j <= self.jobs_seq().len(),
                forall|l: int| 0 <= l < j ==> (#[trigger] self.jobs_seq()[l]).0.0@ != id.0@,
            decreases self.jobs_seq().len() - j,
        {
            if self.jobs[j].0 == *id {
                proof {
                    lemma_state_at(self.jobs_seq(), id.0@, j as int);
                }
                return self.jobs[j].1;
            }
            j = j + 1;
        }
        FlistState::NotExists
    }

    /// Submit the job `id`: record it `Accepted` and enqueue it, or fail
    /// fast with `QueueFullError` - leaving the ledger unchanged - when the
    /// queue is at capacity. The id must be fresh: job ids are globally
    /// unique for the process lifetime.
    ///
    /// After a successful submission the job's state is `Accepted` - a
    /// query can never again answer `NotExists` for it - and no other
    /// job's state moves.
    pub fn submit(&mut self, id: JobID) -> (r: Result<(), ConversionError>)
        requires
            old(self).wf(),
            old(self).spec_state_of(id.0@) == FlistState::NotExists,
        ensures
            final(self).wf(),
            r is Ok <==> old(self).queue_ids().len() < old(self).cap(),
            match r {
                Ok(()) => {
                    &&& final(self).spec_state_of(id.0@) == FlistState::Accepted
                    &&& forall|x: Seq<char>|
                        x != id.0@ ==> #[trigger] final(self).spec_state_of(x) == old(
                            self,
                        ).spec_state_of(x)
                    &&& final(self).queue_ids() == old(self).queue_ids().push(id.0@)
                },
                Err(e) => e == ConversionError::QueueFullError && *final(self) == *old(self),
            },
            final(self).cap() == old(self).cap(),
            forall|x: Seq<char>|
                state_rank(old(self).spec_state_of(x)) <= state_rank(
                    #[trigger] final(self).spec_state_of(x),
                ),
            forall|x: Seq<char>|
                is_terminal(old(self).spec_state_of(x)) ==> #[trigger] final(self).spec_state_of(x)
                    == old(self).spec_state_of(x),
    {
        if self.queue.len() >= self.capacity {
            return Err(ConversionError::QueueFullError);
        }
        let ghost pre = *self;
        proof {
            assert forall|i: int| 0 <= i < pre.jobs_seq().len() implies (#[trigger] pre.jobs_seq()[i]).0.0@
                != id.0@ by {
            if pre.jobs_seq()[i].0.0@ == id.0@ {
                lemma_state_at(pre.jobs_seq(), id.0@, i);
            }
        }
        }
        let qid = id.duplicate();
        self.jobs.push((id, FlistState::Accepted));
        self.queue.push(qid);
        proof {
            let post = *self;
            let n = pre.jobs_seq().len() as int;
            assert(post.jobs_seq() =~= pre.jobs_seq().push((id, FlistState::Accepted)));
            assert(post.queue_ids() =~= pre.queue_ids().push(id.0@));
            assert(id_at(post.jobs_seq(), id.0@, n));
            lemma_state_at(post.jobs_seq(), id.0@, n);
            assert forall|x: Seq<char>| x != id.0@ implies #[trigger] post.spec_state_of(x) == pre.spec_state_of(
                x,
            ) by {
                Self::lemma_frame_after_push(pre.jobs_seq(), (id, FlistState::Accepted), x);
            }
            assert forall|q: int| 0 <= q < post.queue_ids().len() implies state_in(
                post.jobs_seq(),
                #[trigger] post.queue_ids()[q],
            ) == FlistState::Accepted by {
                if q < pre.queue_ids().len() {
                    assert(pre.spec_state_of(pre.queue_ids()[q]) == FlistState::Accepted);
                    assert(pre.queue_ids()[q] != id.0@);
                    Self::lemma_frame_after_push(
                        pre.jobs_seq(),
                        (id, FlistState::Accepted),
                        pre.queue_ids()[q],
                    );
                } else {
                    assert(post.queue_ids()[q] == id.0@);
                }
            }
            assert forall|x: Seq<char>|
                state_rank(pre.spec_state_of(x)) <= state_rank(
                    #[trigger] post.spec_state_of(x),
                ) by {
                if x != id.0@ {
                    Self::lemma_frame_after_push(pre.jobs_seq(), (id, FlistState::Accepted), x);
                }
            }
        }
        Ok(())
    }

    /// How many submissions wait in the work queue.
    pub fn queue_len(&self) -> (n: usize)
        ensures
            n as int == self.queue_ids().len(),
    {
        self.queue.len()
    }

    /// The fixed capacity of the work queue.
    pub fn capacity(&self) -> (n: usize)
        ensures
            n as int == self.cap(),
    {
        self.capacity
    }

    /// Dequeue the oldest pending job for the worker, marking it `Started`.
    /// Returns `None` - and changes nothing - when no job is pending.
    ///
    /// Dequeuing moves only the dequeued job's state, and only forward:
    /// from `Accepted` to `Started`.
    pub fn dequeue(&mut self) -> (r: Option<JobID>)
        requires
            old(self).wf(),
        ensures
            final(self).wf(),
            final(self).cap() == old(self).cap(),
            match r {
                None => old(self).queue_ids().len() == 0 && *final(self) == *old(self),
                Some(id) => {
                    &&& old(self).queue_ids().len() > 0
                    &&& id.0@ == old(self).queue_ids()[0]
                    &&& final(self).queue_ids() == old(self).queue_ids().drop_first()
                    &&& old(self).spec_state_of(id.0@) == FlistState::Accepted
                    &&& final(self).spec_state_of(id.0@) == FlistState::Started
                    &&& forall|x: Seq<char>|
                        x != id.0@ ==> #[trigger] final(self).spec_state_of(x) == old(
                            self,
                        ).spec_state_of(x)
                },
            },
            forall|x: Seq<char>|
                state_rank(old(self).spec_state_of(x)) <= state_rank(
                    #[trigger] final(self).spec_state_of(x),
                ),
            forall|x: Seq<char>|
                is_terminal(old(self).spec_state_of(x)) ==> #[trigger] final(self).spec_state_of(x)
                    == old(self).spec_state_of(x),
    {
        if self.queue.len() == 0 {
            return None;
        }
        let ghost pre = *self;
        let id = self.queue.remove(0);
        proof {
            assert(id.0@ == pre.queue_ids()[0]);
            assert(self.queue_ids() =~= pre.queue_ids().drop_first());
            assert(state_in(pre.jobs_seq(), pre.queue_ids()[0]) == FlistState::Accepted);
        }
        match Self::find_job(&self.jobs, &id) {
            Some(j) => {
                proof {
                    lemma_state_at(pre.jobs_seq(), id.0@, j as int);
                }
                let (jid, _) = self.jobs.remove(j);
                self.jobs.insert(j, (jid, FlistState::Started));
                proof {
                    let post = *self;
                    let rec = (jid, FlistState::Started);
                    assert(post.jobs_seq() =~= pre.jobs_seq().update(j as int, rec));
                    Self::lemma_update_state(pre.jobs_seq(), j as int, rec);
                    assert forall|x: Seq<char>| x != id.0@ implies #[trigger] post.spec_state_of(x)
                        == pre.spec_state_of(x) by {
                        Self::lemma_frame_after_update(pre.jobs_seq(), j as int, rec, x);
                    }
                    assert forall|q: int| 0 <= q < post.queue_ids().len() implies state_in(
                        post.jobs_seq(),
                        #[trigger] post.queue_ids()[q],
                    ) == FlistState::Accepted by {
                        assert(post.queue_ids()[q] == pre.queue_ids()[q + 1]);
                        assert(pre.queue_ids()[q + 1] != pre.queue_ids()[0]);
                        Self::lemma_frame_after_update(
                            pre.jobs_seq(),
                            j as int,
                            rec,
                            pre.queue_ids()[q + 1],
                        );
                    }
                }
                Some(id)
            },
            None => {
                proof {
                    assert(state_in(pre.jobs_seq(), id.0@) == FlistState::NotExists);
                    assert(false);
                }
                None
            },
        }
    }

    /// Settle the job the worker just ran: `Created` on success, `Failed`
    /// on failure (the worker deletes any partial archive before calling
    /// this). Only this job's state moves, and only forward into its
    /// terminal state.
    pub fn finish(&mut self, id: &JobID, success: bool)
        requires
            old(self).wf(),
            old(self).spec_state_of(id.0@) == FlistState::Started,
        ensures
            final(self).wf(),
            final(self).cap() == old(self).cap(),
            final(self).queue_ids() == old(self).queue_ids(),
            final(self).spec_state_of(id.0@) == (if success {
                FlistState::Created
            } else {
                FlistState::Failed
            }),
            forall|x: Seq<char>|
                x != id.0@ ==> #[trigger] final(self).spec_state_of(x) == old(self).spec_state_of(
                    x,
                ),
            forall|x: Seq<char>|
                state_rank(old(self).spec_state_of(x)) <= state_rank(
                    #[trigger] final(self).spec_state_of(x),
                ),
            forall|x: Seq<char>|
                is_terminal(old(self).spec_state_of(x)) ==> #[trigger] final(self).spec_state_of(x)
                    == old(self).spec_state_of(x),
    {
        let ghost pre = *self;
        let st = if success {
            FlistState::Created
        } else {
            FlistState::Failed
        };
        match Self::find_job(&self.jobs, id) {
            Some(j) => {
                proof {
                    lemma_state_at(pre.jobs_seq(), id.0@, j as int);
                }
                let (jid, _) = self.jobs.remove(j);
                self.jobs.insert(j, (jid, st));
                proof {
                    let post = *self;
                    let rec = (jid, st);
                    assert(post.jobs_seq() =~= pre.jobs_seq().update(j as int, rec));
                    assert(post.queue_ids() =~= pre.queue_ids());
                    Self::lemma_update_state(pre.jobs_seq(), j as int, rec);
                    assert forall|x: Seq<char>| x != id.0@ implies #[trigger] post.spec_state_of(x)
                        == pre.spec_state_of(x) by {
                        Self::lemma_frame_after_update(pre.jobs_seq(), j as int, rec, x);
                    }
                    assert forall|q: int| 0 <= q < post.queue_ids().len() implies state_in(
                        post.jobs_seq(),
                        #[trigger] post.queue_ids()[q],
                    ) == FlistState::Accepted by {
                        assert(state_in(pre.jobs_seq(), pre.queue_ids()[q]) == FlistState::Accepted);
                        assert(pre.queue_ids()[q] != id.0@);
                        Self::lemma_frame_after_update(
                            pre.jobs_seq(),
                            j as int,
                            rec,
                            pre.queue_ids()[q],
                        );
                    }
                }
            },
            None => {
                proof {
                    assert(state_in(pre.jobs_seq(), id.0@) == FlistState::NotExists);
                    assert(false);
                }
            },
        }
    }

    fn find_job(jobs: &Vec<(JobID, FlistState)>, id: &JobID) -> (r: Option<usize>)
        ensures
            match r {
                Some(j) => id_at(jobs@, id.0@, j as int),
                None => !(exists|i: int| id_at(jobs@, id.0@, i)),
            },
    {
        let mut j: usize = 0;
        while j < jobs.len()
            invariant
                j <= jobs@.len(),
                forall|l: int| 0 <= l < j ==> (#[trigger] jobs@[l]).0.0@ != id.0@,
            decreases jobs@.len() - j,
        {
            if jobs[j].0 == *id {
                return Some(j);
            }
            j = j + 1;
        }
        proof {
            if exists|i: int| id_at(jobs@, id.0@, i) {
                let i = choose|i: int| id_at(jobs@, id.0@, i);
                assert(jobs@[i].0.0@ != id.0@);
            }
        }
        None
    }

    /// The updated record decides the updated id's state.
    proof fn lemma_update_state(
        jobs: Seq<(JobID, FlistState)>,
        j: int,
        rec: (JobID, FlistState),
    )
        requires
            jobs_unique(jobs),
            0 <= j < jobs.len(),
            rec.0.0@ == jobs[j].0.0@,
        ensures
            jobs_unique(jobs.update(j, rec)),
            state_in(jobs.update(j, rec), rec.0.0@) == rec.1,
    {
        let post = jobs.update(j, rec);
        assert forall|p: int, q: int| 0 <= p < q < post.len() implies (#[trigger] post[p]).0.0@
            != (#[trigger] post[q]).0.0@ by {
            assert(jobs[p].0.0@ != jobs[q].0.0@);
        }
        assert(id_at(post, rec.0.0@, j));
        let i0 = choose|i: int| id_at(post, rec.0.0@, i);
        if i0 < j {
            assert(post[i0] == jobs[i0]);
            assert(jobs[i0].0.0@ != jobs[j].0.0@);
        } else if j < i0 {
            assert(post[i0] == jobs[i0]);
            assert(jobs[j].0.0@ != jobs[i0].0.0@);
        }
        assert(state_in(post, rec.0.0@) == post[i0].1);
    }

    /// Updating one record leaves every other id's state alone.
    proof fn lemma_frame_after_update(
        jobs: Seq<(JobID, FlistState)>,
        j: int,
        rec: (JobID, FlistState),
        x: Seq<char>,
    )
        requires
            jobs_unique(jobs),
            0 <= j < jobs.len(),
            rec.0.0@ == jobs[j].0.0@,
            x != rec.0.0@,
        ensures
            state_in(jobs.update(j, rec), x) == state_in(jobs, x),
    {
        let post = jobs.update(j, rec);
        if exists|i: int| id_at(jobs, x, i) {
            let i = choose|i: int| id_at(jobs, x, i);
            assert(i != j);
            assert(post[i] == jobs[i]);
            assert(id_at(post, x, i));
            let i0 = choose|i: int| id_at(post, x, i);
            assert(i0 != j);
            assert(post[i0] == jobs[i0]);
            assert(id_at(jobs, x, i0));
            if i0 < i {
                assert(jobs[i0].0.0@ != jobs[i].0.0@);
            } else if i < i0 {
                assert(jobs[i].0.0@ != jobs[i0].0.0@);
            }
            assert(state_in(post, x) == post[i0].1);
            lemma_state_at(jobs, x, i);
        } else {
            if exists|i: int| id_at(post, x, i) {
                let i = choose|i: int| id_at(post, x, i);
                assert(i != j);
                assert(post[i] == jobs[i]);
                assert(id_at(jobs, x, i));
                assert(false);
            }
        }
    }

    proof fn lemma_frame_after_push(
        jobs: Seq<(JobID, FlistState)>,
        rec: (JobID, FlistState),
        x: Seq<char>,
    )
        requires
            x != rec.0.0@,
            jobs_unique(jobs),
        ensures
            state_in(jobs.push(rec), x) == state_in(jobs, x),
    {
        let post = jobs.push(rec);
        if exists|i: int| id_at(jobs, x, i) {
            let i = choose|i: int| id_at(jobs, x, i);
            assert(post[i] == jobs[i]);
            assert(id_at(post, x, i));
            let i0 = choose|i: int| id_at(post, x, i);
            assert(post[i0].0.0@ == x);
            assert(i0 < jobs.len());
            assert(id_at(jobs, x, i0));
            if i0 < i {
                assert(jobs[i0].0.0@ != jobs[i].0.0@);
            } else if i < i0 {
                assert(jobs[i].0.0@ != jobs[i0].0.0@);
            }
            assert(state_in(post, x) == post[i0].1);
            lemma_state_at(jobs, x, i);
        } else {
            if exists|i: int| id_at(post, x, i) {
                let i = choose|i: int| id_at(post, x, i);
                if i < jobs.len() {
                    assert(id_at(jobs, x, i));
                } else {
                    assert(post[i] == rec);
                }
                assert(false);
            }
        }
    }
}

// ---------------------------------------------------------------------------
// Fresh identifiers
// ---------------------------------------------------------------------------

/// Relies on `uuid::Uuid::new_v4` and its `Display` implementation: a
/// version-4 UUID formats as the hyphenated form, 36 characters.
#[verifier::external_body]
fn random_uuid_string() -> (r: String)
    ensures
        r@.len() == 36,
{
    uuid::Uuid::new_v4().to_string()
}

/// Draw a fresh random job identifier (a hyphenated version-4 UUID).
pub fn fresh_job_id() -> (id: JobID)
    ensures
        id.0@.len() == 36,
{
    JobID(random_uuid_string())
}

} // verus!
