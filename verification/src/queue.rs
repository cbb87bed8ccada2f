//! The worker pool: which jobs wait, which one is begun next, and what a submitter is
//! answered.
//!
//! Jobs are known by number here. Whoever drives the controller keeps the jobs themselves,
//! and lets each of its workers ask for one when it is free.

use vstd::prelude::*;

use crate::channel::JobQueue;
use crate::models;
use crate::models::ApiResponse;

verus! {

pub struct QueueStats {
    /// Jobs that were submitted and that no worker has taken yet.
    pub queue_depth: usize,
    pub workers: usize,
}

pub struct QueueController {
    pub stats: QueueStats,
    /// The jobs that wait.
    pub jobs: JobQueue,
    /// The workers that are still there.
    pub live: usize,
    /// Those that execute a job.
    pub running: usize,
}

/// The state of the pool.
#[verifier::ext_equal]
pub ghost struct QueueModel {
    /// The workers that it was started with.
    pub workers: nat,
    /// Those that are still there.
    pub live: nat,
    /// Those that execute a job.
    pub running: nat,
    /// The jobs that wait, in the order in which they were submitted.
    pub waiting: Seq<u64>,
}

impl View for QueueController {
    type V = QueueModel;

    open spec fn view(&self) -> QueueModel {
        QueueModel {
            workers: self.stats.workers as nat,
            live: self.live as nat,
            running: self.running as nat,
            waiting: self.jobs@.waiting,
        }
    }
}

/// What holds of the state of every pool: no more jobs run than there are workers.
pub open spec fn bounded(m: QueueModel) -> bool {
    m.running <= m.live <= m.workers
}

/// The counter for a number of waiting jobs. It wraps, as an atomic counter does.
pub open spec fn depth_of(waiting: nat) -> int {
    waiting as int % (usize::MAX + 1)
}

/// What happens to a pool.
pub ghost enum QueueEvent {
    /// A job is submitted.
    Submitted(u64),
    /// A worker asks for a job.
    Taken,
    /// A worker is done with its job.
    Finished,
    /// A worker goes away in the middle of its job.
    Lost,
}

/// The state after an event. A pool without workers takes no jobs; a worker that is free
/// gets the job that has waited longest.
pub open spec fn after(m: QueueModel, event: QueueEvent) -> QueueModel {
    match event {
        QueueEvent::Submitted(job) => if m.live > 0 {
            QueueModel { waiting: m.waiting.push(job), ..m }
        } else {
            m
        },
        QueueEvent::Taken => if begins(m) {
            QueueModel { running: m.running + 1, waiting: m.waiting.skip(1), ..m }
        } else {
            m
        },
        QueueEvent::Finished => if m.running > 0 {
            QueueModel { running: (m.running - 1) as nat, ..m }
        } else {
            m
        },
        QueueEvent::Lost => if m.running > 0 && m.live > 0 {
            QueueModel { running: (m.running - 1) as nat, live: (m.live - 1) as nat, ..m }
        } else {
            m
        },
    }
}

/// Whether a worker that asks for a job gets one: one is free, and one waits.
pub open spec fn begins(m: QueueModel) -> bool {
    m.running < m.live && m.waiting.len() > 0
}

/// The state after a history.
pub open spec fn after_all(m: QueueModel, events: Seq<QueueEvent>) -> QueueModel
    decreases events.len(),
{
    if events.len() == 0 {
        m
    } else {
        after(after_all(m, events.drop_last()), events.last())
    }
}

/// The jobs that a history lets into the queue, in order.
pub open spec fn accepted(m: QueueModel, events: Seq<QueueEvent>) -> Seq<u64>
    decreases events.len(),
{
    if events.len() == 0 {
        Seq::empty()
    } else {
        let front = accepted(m, events.drop_last());
        match events.last() {
            QueueEvent::Submitted(job) => if after_all(m, events.drop_last()).live > 0 {
                front.push(job)
            } else {
                front
            },
            _ => front,
        }
    }
}

/// The jobs that a history has workers begin, in order.
pub open spec fn begun(m: QueueModel, events: Seq<QueueEvent>) -> Seq<u64>
    decreases events.len(),
{
    if events.len() == 0 {
        Seq::empty()
    } else {
        let front = begun(m, events.drop_last());
        let before = after_all(m, events.drop_last());
        if events.last() is Taken && begins(before) {
            front.push(before.waiting[0])
        } else {
            front
        }
    }
}

/// The state of a pool that was just started.
pub open spec fn started(workers: nat) -> QueueModel {
    QueueModel { workers, live: workers, running: 0, waiting: Seq::empty() }
}

impl QueueController {
    /// What holds of every controller: the books are right, and jobs are taken in as long
    /// as there are workers.
    pub open spec fn well_formed(&self) -> bool {
        &&& self.jobs.connected()
        &&& self.jobs@.closed == (self.live == 0)
        &&& bounded(self@)
        &&& self.stats.queue_depth == depth_of(self@.waiting.len())
    }

    /// A pool of `max_workers` workers without jobs.
    pub fn start(max_workers: usize) -> (res: Self)
        ensures
            res.well_formed(),
            res@ == started(max_workers as nat),
            res.stats.queue_depth == 0,
            res.stats.workers == max_workers,
    {
        let mut jobs = JobQueue::new();
        if max_workers == 0 {
            jobs.close();
        }
        proof {
            vstd::arithmetic::div_mod::lemma_small_mod(0, (usize::MAX + 1) as nat);
        }
        QueueController {
            stats: QueueStats { queue_depth: 0, workers: max_workers },
            jobs,
            live: max_workers,
            running: 0,
        }
    }

    /// Takes in a job. It is refused, and its submitter answered, only when no worker is
    /// left.
    pub fn submit(&mut self, job: u64) -> (res: Result<(), ApiResponse>)
        requires
            old(self).well_formed(),
        ensures
            final(self).well_formed(),
            final(self)@ == after(old(self)@, QueueEvent::Submitted(job)),
            match res {
                Ok(_) => old(self)@.live > 0,
                Err(response) => old(self)@.live == 0 && response@ == models::error_response(
                    500,
                    "worker pool unavailable"@,
                ),
            },
    {
        proof {
            lemma_counter_steps(self@.waiting.len() as int, usize::MAX + 1);
        }
        self.stats.queue_depth = self.stats.queue_depth.wrapping_add(1);
        if !self.jobs.send(job) {
            self.stats.queue_depth = self.stats.queue_depth.wrapping_sub(1);
            return Err(ApiResponse::error(500, "worker pool unavailable".to_owned()));
        }
        Ok(())
    }

    /// A free worker asks for a job: it gets the one that has waited longest, and the depth
    /// before that.
    pub fn taken(&mut self) -> (res: Option<(u64, usize)>)
        requires
            old(self).well_formed(),
        ensures
            final(self).well_formed(),
            final(self)@ == after(old(self)@, QueueEvent::Taken),
            match res {
                Some((job, depth)) => begins(old(self)@) && job == old(self)@.waiting[0] && depth
                    == old(self).stats.queue_depth,
                None => !begins(old(self)@),
            },
    {
        if self.running == self.live {
            return None;
        }
        proof {
            lemma_counter_steps(self@.waiting.len() as int, usize::MAX + 1);
        }
        match self.jobs.receive() {
            Some(job) => {
                let depth = self.stats.queue_depth;
                self.stats.queue_depth = self.stats.queue_depth.wrapping_sub(1);
                self.running = self.running + 1;
                Some((job, depth))
            },
            None => None,
        }
    }

    /// A worker is done with its job.
    pub fn finished(&mut self)
        requires
            old(self).well_formed(),
            old(self)@.running > 0,
        ensures
            final(self).well_formed(),
            final(self)@ == after(old(self)@, QueueEvent::Finished),
    {
        self.running = self.running - 1;
    }

    /// A worker goes away in the middle of its job. After the last one, no job is taken in
    /// any more.
    pub fn lost(&mut self)
        requires
            old(self).well_formed(),
            old(self)@.running > 0,
        ensures
            final(self).well_formed(),
            final(self)@ == after(old(self)@, QueueEvent::Lost),
    {
        self.running = self.running - 1;
        self.live = self.live - 1;
        if self.live == 0 {
            self.jobs.close();
        }
    }
}

/// What a submitter is answered: the job's response, or an error if the worker went away
/// without one.
pub fn reply(response: Option<ApiResponse>) -> (res: ApiResponse)
    ensures
        res@ == (match response {
            Some(r) => r@,
            None => models::error_response(500, "worker shut down"@),
        }),
{
    match response {
        Some(r) => r,
        None => ApiResponse::error(500, "worker shut down".to_owned()),
    }
}

/// At every moment no more jobs run than the pool has workers, whatever happens to it.
pub proof fn at_most_workers_run(workers: nat, events: Seq<QueueEvent>)
    ensures
        bounded(after_all(started(workers), events)),
        after_all(started(workers), events).workers == workers,
    decreases events.len(),
{
    if events.len() > 0 {
        at_most_workers_run(workers, events.drop_last());
    }
}

/// Jobs are begun in the order in which they were submitted: those that were begun, and
/// then those that still wait, are those that were accepted.
pub proof fn jobs_begin_in_order(workers: nat, events: Seq<QueueEvent>)
    ensures
        accepted(started(workers), events) == begun(started(workers), events) + after_all(
            started(workers),
            events,
        ).waiting,
    decreases events.len(),
{
    let m = started(workers);
    if events.len() > 0 {
        let front = events.drop_last();
        jobs_begin_in_order(workers, front);
        let before = after_all(m, front);
        let done = begun(m, front);
        if let QueueEvent::Submitted(job) = events.last() {
            assert((done + before.waiting).push(job) =~= done + before.waiting.push(job));
        }
        if before.waiting.len() > 0 {
            assert(done + before.waiting =~= done.push(before.waiting[0])
                + before.waiting.skip(1));
        }
    } else {
        assert(Seq::<u64>::empty() + m.waiting =~= Seq::<u64>::empty());
    }
}

/// The depth is the number of jobs that were accepted and not begun yet, up to the
/// counter's range.
pub proof fn depth_is_balance(workers: nat, events: Seq<QueueEvent>)
    ensures
        depth_of(after_all(started(workers), events).waiting.len()) == (accepted(
            started(workers),
            events,
        ).len() - begun(started(workers), events).len()) % (usize::MAX + 1),
{
    jobs_begin_in_order(workers, events);
}

/// Once every accepted job was begun, the depth is zero again.
pub proof fn depth_returns_to_zero(workers: nat, events: Seq<QueueEvent>)
    requires
        begun(started(workers), events).len() == accepted(started(workers), events).len(),
    ensures
        depth_of(after_all(started(workers), events).waiting.len()) == 0,
{
    depth_is_balance(workers, events);
    vstd::arithmetic::div_mod::lemma_small_mod(0, (usize::MAX + 1) as nat);
}

/// Counting up and down in a counter of `m` values.
proof fn lemma_counter_steps(b: int, m: int)
    requires
        m > 0,
    ensures
        (b + 1) % m == (if b % m == m - 1 {
            0
        } else {
            b % m + 1
        }),
        (b - 1) % m == (if b % m == 0 {
            m - 1
        } else {
            b % m - 1
        }),
{
    let q = b / m;
    let r = b % m;
    vstd::arithmetic::div_mod::lemma_fundamental_div_mod(b, m);
    assert(m * q == q * m) by (nonlinear_arith);
    assert((q + 1) * m == q * m + m && (q - 1) * m == q * m - m) by (nonlinear_arith);
    if r == m - 1 {
        vstd::arithmetic::div_mod::lemma_fundamental_div_mod_converse(b + 1, m, q + 1, 0);
    } else {
        vstd::arithmetic::div_mod::lemma_fundamental_div_mod_converse(b + 1, m, q, r + 1);
    }
    if r == 0 {
        vstd::arithmetic::div_mod::lemma_fundamental_div_mod_converse(b - 1, m, q - 1, m - 1);
    } else {
        vstd::arithmetic::div_mod::lemma_fundamental_div_mod_converse(b - 1, m, q, r - 1);
    }
}

/// A job that is submitted while there are workers waits behind all others, however many
/// there are; without workers it is not taken in. Nothing else changes.
pub proof fn submitted_jobs_wait(m: QueueModel, job: u64)
    ensures
        ({
            let n = after(m, QueueEvent::Submitted(job));
            &&& m.live > 0 ==> n.waiting == m.waiting + seq![job]
            &&& m.live == 0 ==> n.waiting == m.waiting
            &&& n.workers == m.workers && n.live == m.live && n.running == m.running
        }),
{
    assert(m.waiting.push(job) =~= m.waiting + seq![job]);
}

/// A free worker is given work whenever there is any: the job that has waited longest, and
/// no other leaves the queue. Nothing changes where there is none, or no free worker.
pub proof fn free_workers_get_work(m: QueueModel)
    ensures
        ({
            let n = after(m, QueueEvent::Taken);
            &&& m.running < m.live && m.waiting.len() > 0 ==> {
                &&& begins(m)
                &&& m.waiting == seq![m.waiting[0]] + n.waiting
                &&& n.running == m.running + 1
            }
            &&& m.running >= m.live || m.waiting.len() == 0 ==> !begins(m) && n == m
            &&& n.workers == m.workers && n.live == m.live
        }),
{
    if m.waiting.len() > 0 {
        assert(m.waiting =~= seq![m.waiting[0]] + m.waiting.skip(1));
    }
}

/// A worker that is done is free again; one that is lost is gone for good. The queue stays.
pub proof fn workers_come_free_or_go(m: QueueModel)
    requires
        m.running > 0,
        m.live > 0,
    ensures
        ({
            let done = after(m, QueueEvent::Finished);
            let lost = after(m, QueueEvent::Lost);
            &&& done.running + 1 == m.running && done.live == m.live
            &&& lost.running + 1 == m.running && lost.live + 1 == m.live
            &&& done.waiting == m.waiting && lost.waiting == m.waiting
            &&& done.workers == m.workers && lost.workers == m.workers
        }),
{
}

/// A new pool has all its workers free and no jobs.
pub proof fn pools_start_idle(max_workers: usize, res: QueueController)
    requires
        call_ensures(QueueController::start, (max_workers,), res),
    ensures
        res.stats.workers == max_workers,
        res.stats.queue_depth == 0,
        res.live == max_workers,
        res.running == 0,
        res@.waiting.len() == 0,
{
}

/// A submitter is answered what the job answered, and told so if the worker went away.
pub proof fn submitters_are_answered(response: Option<ApiResponse>, res: ApiResponse)
    requires
        call_ensures(reply, (response,), res),
    ensures
        response matches Some(r) ==> res@ == r@ && res.code == r.code && res.message@
            == r.message@,
        response is None ==> res.code == 500 && res.message@ == "worker shut down"@
            && res.data is None,
{
}

/// The depth is the number of waiting jobs, as long as it fits the counter.
pub proof fn the_depth_counts_waiting_jobs(waiting: nat)
    requires
        waiting <= usize::MAX,
    ensures
        depth_of(waiting) == waiting,
{
    vstd::arithmetic::div_mod::lemma_small_mod(waiting, (usize::MAX + 1) as nat);
}

/// A job is taken in if and only if there are workers, behind all others; if it is not, the
/// submitter is told that there are none.
pub proof fn jobs_are_taken_in(
    pool: &mut QueueController,
    job: u64,
    res: Result<(), ApiResponse>,
)
    requires
        old(pool).well_formed(),
        call_ensures(QueueController::submit, (pool, job), res),
    ensures
        res is Ok <==> old(pool).live > 0,
        res is Ok ==> final(pool)@.waiting == old(pool)@.waiting + seq![job],
        res matches Err(response) ==> response.code == 500 && response.message@
            == "worker pool unavailable"@ && response.data is None && final(pool)@.waiting
            == old(pool)@.waiting,
        final(pool).running == old(pool).running,
        final(pool).live == old(pool).live,
        final(pool).stats.workers == old(pool).stats.workers,
{
    submitted_jobs_wait(old(pool)@, job);
}

/// A worker that asks gets the job that has waited longest, with the depth before that, if
/// and only if a worker is free and a job waits.
pub proof fn jobs_are_given_out(pool: &mut QueueController, res: Option<(u64, usize)>)
    requires
        old(pool).well_formed(),
        call_ensures(QueueController::taken, (pool,), res),
    ensures
        res is Some <==> old(pool).running < old(pool).live && old(pool)@.waiting.len() > 0,
        res matches Some((job, depth)) ==> {
            &&& old(pool)@.waiting == seq![job] + final(pool)@.waiting
            &&& depth == old(pool).stats.queue_depth
            &&& final(pool).running == old(pool).running + 1
        },
        res is None ==> final(pool)@ == old(pool)@,
        final(pool).live == old(pool).live,
        final(pool).stats.workers == old(pool).stats.workers,
{
    free_workers_get_work(old(pool)@);
}

/// A worker that is done with its job is free for another.
pub proof fn done_workers_are_free(pool: &mut QueueController)
    requires
        old(pool).running > 0,
        call_ensures(QueueController::finished, (pool,), ()),
    ensures
        final(pool).running + 1 == old(pool).running,
        final(pool).live == old(pool).live,
        final(pool)@.waiting == old(pool)@.waiting,
{
}

/// A worker that is lost in its job is neither free nor there any more.
pub proof fn lost_workers_are_gone(pool: &mut QueueController)
    requires
        old(pool).running > 0,
        old(pool).live > 0,
        call_ensures(QueueController::lost, (pool,), ()),
    ensures
        final(pool).running + 1 == old(pool).running,
        final(pool).live + 1 == old(pool).live,
        final(pool)@.waiting == old(pool)@.waiting,
{
}

} // verus!
