//! Scheduling state of a fixed-size worker pool.
//!
//! A [`Dispatcher`] holds the shared FIFO queue of [`Message`]s and the state
//! of each worker slot. Workers take messages one at a time; a job moves its
//! worker from `Running` to `Executing`, a terminate message moves it to
//! `Stopped`. Teardown enqueues one terminate message per worker slot and then
//! accepts the joins of stopped workers in slot order.
use std::collections::VecDeque;
use vstd::prelude::*;

verus! {

/// What travels on the queue from submitters to workers.
pub enum Message<J> {
    NewJob(J),
    Terminate,
}

/// The state of one worker slot.
#[derive(Clone, Copy, PartialEq, Eq, Debug, Structural)]
pub enum WorkerState {
    /// Waiting for, or about to take, the next message.
    Running,
    /// Running a job that it took from the queue.
    Executing,
    /// Took a terminate message; its thread has left its loop.
    Stopped,
}

/// Why the pool refused a request.
#[derive(Clone, Copy, PartialEq, Eq, Debug, Structural)]
pub enum PoolError {
    /// A pool needs at least one worker.
    ZeroSize,
    /// Teardown has begun: no more jobs are accepted.
    Closed,
}

pub open spec fn is_terminate<J>(m: Message<J>) -> bool {
    m is Terminate
}

/// The jobs carried by a sequence of messages, in order.
pub open spec fn jobs_of<J>(q: Seq<Message<J>>) -> Seq<J>
    decreases q.len(),
{
    if q.len() == 0 {
        Seq::empty()
    } else {
        let rest = jobs_of(q.drop_last());
        match q.last() {
            Message::NewJob(j) => rest.push(j),
            Message::Terminate => rest,
        }
    }
}

/// How many terminate messages a sequence holds.
pub open spec fn terminates_in<J>(q: Seq<Message<J>>) -> nat
    decreases q.len(),
{
    if q.len() == 0 {
        0
    } else {
        terminates_in(q.drop_last()) + if is_terminate(q.last()) {
            1nat
        } else {
            0nat
        }
    }
}

/// How many workers are in state `s`.
pub open spec fn count_in(ws: Seq<WorkerState>, s: WorkerState) -> nat
    decreases ws.len(),
{
    if ws.len() == 0 {
        0
    } else {
        count_in(ws.drop_last(), s) + if ws.last() == s {
            1nat
        } else {
            0nat
        }
    }
}

proof fn lemma_count_update(ws: Seq<WorkerState>, i: int, x: WorkerState, s: WorkerState)
    requires
        0 <= i < ws.len(),
    ensures
        count_in(ws.update(i, x), s) + (if ws[i] == s { 1int } else { 0int }) == count_in(ws, s)
            + (if x == s { 1int } else { 0int }),
    decreases ws.len(),
{
    let u = ws.update(i, x);
    if i == ws.len() - 1 {
        assert(u.drop_last() =~= ws.drop_last());
    } else {
        assert(u.drop_last() =~= ws.drop_last().update(i, x));
        lemma_count_update(ws.drop_last(), i, x, s);
    }
}

proof fn lemma_count_all(ws: Seq<WorkerState>, s: WorkerState)
    ensures
        count_in(ws, s) <= ws.len(),
        count_in(ws, s) == ws.len() <==> forall|i: int| 0 <= i < ws.len() ==> ws[i] == s,
        count_in(ws, s) == 0 <==> forall|i: int| 0 <= i < ws.len() ==> ws[i] != s,
    decreases ws.len(),
{
    if ws.len() > 0 {
        let p = ws.drop_last();
        lemma_count_all(p, s);
        assert forall|i: int| 0 <= i < p.len() implies p[i] == ws[i] by {}
    }
}

proof fn lemma_queue_push<J>(q: Seq<Message<J>>, m: Message<J>)
    ensures
        q.push(m).drop_last() == q,
        jobs_of(q.push(m)) == match m {
            Message::NewJob(j) => jobs_of(q).push(j),
            Message::Terminate => jobs_of(q),
        },
        terminates_in(q.push(m)) == terminates_in(q) + if is_terminate(m) { 1nat } else { 0nat },
{
    assert(q.push(m).drop_last() =~= q);
}

proof fn lemma_queue_pop<J>(q: Seq<Message<J>>)
    requires
        q.len() > 0,
    ensures
        jobs_of(q) == match q[0] {
            Message::NewJob(j) => seq![j] + jobs_of(q.drop_first()),
            Message::Terminate => jobs_of(q.drop_first()),
        },
        terminates_in(q) == terminates_in(q.drop_first()) + if is_terminate(q[0]) {
            1nat
        } else {
            0nat
        },
    decreases q.len(),
{
    if q.len() > 1 {
        let p = q.drop_last();
        lemma_queue_pop(p);
        assert(p.drop_first() =~= q.drop_first().drop_last());
        assert(q.drop_first().last() == q.last());
        match q[0] {
            Message::NewJob(j) => {
                match q.last() {
                    Message::NewJob(k) => {
                        assert(seq![j] + jobs_of(p.drop_first()).push(k) =~= (seq![j] + jobs_of(
                            p.drop_first(),
                        )).push(k));
                    },
                    Message::Terminate => {},
                }
            },
            Message::Terminate => {},
        }
    } else {
        assert(q.drop_first() =~= Seq::<Message<J>>::empty());
        assert(q.drop_last() =~= Seq::<Message<J>>::empty());
        match q[0] {
            Message::NewJob(j) => {
                assert(seq![j] + Seq::<J>::empty() =~= Seq::<J>::empty().push(j));
            },
            Message::Terminate => {},
        }
    }
}

proof fn lemma_terminates_bounds<J>(q: Seq<Message<J>>)
    ensures
        terminates_in(q) <= q.len(),
        terminates_in(q) == 0 ==> forall|i: int| 0 <= i < q.len() ==> !is_terminate(q[i]),
        (forall|i: int| 0 <= i < q.len() ==> is_terminate(q[i])) ==> terminates_in(q) == q.len(),
    decreases q.len(),
{
    if q.len() > 0 {
        let p = q.drop_last();
        lemma_terminates_bounds(p);
        assert forall|i: int| 0 <= i < p.len() implies p[i] == q[i] by {}
    }
}

/// The queue and the worker slots of a pool.
pub struct Dispatcher<J> {
    queue: VecDeque<Message<J>>,
    workers: Vec<WorkerState>,
    closed: bool,
    joined: usize,
    submitted: Ghost<Seq<J>>,
    delivered: Ghost<Seq<J>>,
}

impl<J> Dispatcher<J> {
    /// The messages waiting on the queue, oldest first.
    pub closed spec fn queue(&self) -> Seq<Message<J>> {
        self.queue@
    }

    /// The state of each worker slot.
    pub closed spec fn workers(&self) -> Seq<WorkerState> {
        self.workers@
    }

    /// Whether teardown has begun.
    pub closed spec fn is_closed(&self) -> bool {
        self.closed
    }

    /// How many worker slots have been joined, counting from slot 0.
    pub closed spec fn joined_count(&self) -> nat {
        self.joined as nat
    }

    /// Every job accepted so far, in order of submission.
    pub closed spec fn submitted(&self) -> Seq<J> {
        self.submitted@
    }

    /// Every job handed to a worker so far, in order of delivery.
    pub closed spec fn delivered(&self) -> Seq<J> {
        self.delivered@
    }

    pub open spec fn slot_count(&self) -> nat {
        self.workers().len()
    }

    pub open spec fn all_stopped(&self) -> bool {
        forall|i: int| 0 <= i < self.slot_count() ==> self.workers()[i] == WorkerState::Stopped
    }

    /// The invariant that every operation keeps. `new` establishes it and
    /// every method that changes a dispatcher preserves it; as the fields are
    /// private, every dispatcher a caller can hold satisfies it.
    pub closed spec fn wf(&self) -> bool {
        let q = self.queue@;
        let ws = self.workers@;
        &&& ws.len() >= 1
        &&& self.joined <= ws.len()
        &&& forall|i: int| 0 <= i < self.joined ==> ws[i] == WorkerState::Stopped
        &&& self.submitted@ == self.delivered@ + jobs_of(q)
        &&& !self.closed ==> terminates_in(q) == 0 && count_in(ws, WorkerState::Stopped) == 0
        &&& self.closed ==> terminates_in(q) + count_in(ws, WorkerState::Stopped) == ws.len()
        &&& forall|i: int, j: int|
            0 <= i <= j < q.len() && #[trigger] is_terminate(q[i]) ==> #[trigger] is_terminate(
                q[j],
            )
        &&& count_in(ws, WorkerState::Stopped) > 0 ==> forall|i: int|
            0 <= i < q.len() ==> #[trigger] is_terminate(q[i])
    }
}

impl<J> Dispatcher<J> {
    /// A pool plan with `size` worker slots, all running, and an empty queue.
    /// A size of zero is refused.
    pub fn new(size: usize) -> (r: Result<Dispatcher<J>, PoolError>)
        ensures
            match r {
                Ok(d) => {
                    &&& size > 0
                    &&& d.wf()
                    &&& d.slot_count() == size
                    &&& forall|i: int| 0 <= i < size ==> d.workers()[i] == WorkerState::Running
                    &&& d.queue().len() == 0
                    &&& !d.is_closed()
                    &&& d.joined_count() == 0
                    &&& d.submitted().len() == 0
                    &&& d.delivered().len() == 0
                },
                Err(e) => size == 0 && e == PoolError::ZeroSize,
            },
    {
        if size == 0 {
            return Err(PoolError::ZeroSize);
        }
        let mut workers: Vec<WorkerState> = Vec::new();
        let mut i: usize = 0;
        while i < size
            invariant
                i <= size,
                workers@.len() == i,
                forall|k: int| 0 <= k < i ==> workers@[k] == WorkerState::Running,
            decreases size - i,
        {
            workers.push(WorkerState::Running);
            i = i + 1;
        }
        proof {
            lemma_count_all(workers@, WorkerState::Stopped);
        }
        Ok(Dispatcher {
            queue: VecDeque::new(),
            workers,
            closed: false,
            joined: 0,
            submitted: Ghost(Seq::empty()),
            delivered: Ghost(Seq::empty()),
        })
    }

    /// The number of worker slots.
    pub fn size(&self) -> (r: usize)
        ensures
            r == self.slot_count(),
    {
        self.workers.len()
    }

    /// The number of messages waiting on the queue.
    pub fn pending(&self) -> (r: usize)
        ensures
            r == self.queue().len(),
    {
        self.queue.len()
    }

    /// Whether teardown has begun.
    pub fn closed(&self) -> (r: bool)
        ensures
            r == self.is_closed(),
    {
        self.closed
    }

    /// The state of slot `id`, if there is such a slot.
    pub fn state_of(&self, id: usize) -> (r: Option<WorkerState>)
        ensures
            id < self.slot_count() ==> r == Some(self.workers()[id as int]),
            id >= self.slot_count() ==> r is None,
    {
        if id < self.workers.len() {
            Some(self.workers[id])
        } else {
            None
        }
    }

    /// Enqueues `job` at the back of the queue, unless teardown has begun.
    pub fn submit(&mut self, job: J) -> (r: Result<(), PoolError>)
        requires
            old(self).wf(),
        ensures
            final(self).wf(),
            final(self).workers() == old(self).workers(),
            final(self).is_closed() == old(self).is_closed(),
            final(self).joined_count() == old(self).joined_count(),
            final(self).delivered() == old(self).delivered(),
            old(self).is_closed() ==> {
                &&& r == Err::<(), PoolError>(PoolError::Closed)
                &&& final(self).queue() == old(self).queue()
                &&& final(self).submitted() == old(self).submitted()
            },
            !old(self).is_closed() ==> {
                &&& r is Ok
                &&& final(self).queue() == old(self).queue().push(Message::NewJob(job))
                &&& final(self).submitted() == old(self).submitted().push(job)
            },
    {
        if self.closed {
            return Err(PoolError::Closed);
        }
        let ghost q0 = self.queue@;
        proof {
            lemma_queue_push(q0, Message::NewJob(job));
        }
        self.submitted = Ghost(self.submitted@.push(job));
        self.queue.push_back(Message::NewJob(job));
        proof {
            assert(self.submitted@ =~= self.delivered@ + jobs_of(self.queue@));
        }
        Ok(())
    }

    /// Worker `id` takes the message at the front of the queue.
    ///
    /// Only a running worker takes a message, and only when one is waiting;
    /// otherwise nothing changes and `None` comes back. A job makes the worker
    /// executing, a terminate message makes it stopped.
    pub fn take(&mut self, id: usize) -> (r: Option<Message<J>>)
        requires
            old(self).wf(),
        ensures
            final(self).wf(),
            final(self).is_closed() == old(self).is_closed(),
            final(self).joined_count() == old(self).joined_count(),
            final(self).submitted() == old(self).submitted(),
            (id < old(self).slot_count() && old(self).workers()[id as int] == WorkerState::Running
                && old(self).queue().len() > 0) ==> {
                &&& r == Some(old(self).queue()[0])
                &&& final(self).queue() == old(self).queue().drop_first()
                &&& match old(self).queue()[0] {
                    Message::NewJob(j) => {
                        &&& final(self).workers() == old(self).workers().update(
                            id as int,
                            WorkerState::Executing,
                        )
                        &&& final(self).delivered() == old(self).delivered().push(j)
                    },
                    Message::Terminate => {
                        &&& final(self).workers() == old(self).workers().update(
                            id as int,
                            WorkerState::Stopped,
                        )
                        &&& final(self).delivered() == old(self).delivered()
                    },
                }
            },
            !(id < old(self).slot_count() && old(self).workers()[id as int] == WorkerState::Running
                && old(self).queue().len() > 0) ==> {
                &&& r is None
                &&& final(self).queue() == old(self).queue()
                &&& final(self).workers() == old(self).workers()
                &&& final(self).delivered() == old(self).delivered()
            },
    {
        if id >= self.workers.len() {
            return None;
        }
        if self.workers[id] != WorkerState::Running {
            return None;
        }
        let ghost q0 = self.queue@;
        let ghost ws0 = self.workers@;
        match self.queue.pop_front() {
            None => None,
            Some(msg) => {
                proof {
                    lemma_queue_pop(q0);
                    assert(self.queue@ =~= q0.drop_first());
                }
                match msg {
                    Message::NewJob(job) => {
                        self.workers.set(id, WorkerState::Executing);
                        self.delivered = Ghost(self.delivered@.push(job));
                        proof {
                            lemma_count_update(ws0, id as int, WorkerState::Executing, WorkerState::Stopped);
                            assert(self.submitted@ =~= self.delivered@ + jobs_of(self.queue@));
                            assert forall|i: int, j: int|
                                0 <= i <= j < self.queue@.len() && #[trigger] is_terminate(self.queue@[i])
                                implies #[trigger] is_terminate(self.queue@[j]) by {
                                assert(is_terminate(q0[i + 1]));
                            }
                        }
                        Some(Message::NewJob(job))
                    },
                    Message::Terminate => {
                        self.workers.set(id, WorkerState::Stopped);
                        proof {
                            lemma_count_update(ws0, id as int, WorkerState::Stopped, WorkerState::Stopped);
                            assert(is_terminate(q0[0]));
                            assert forall|i: int| 0 <= i < self.queue@.len()
                                implies #[trigger] is_terminate(self.queue@[i]) by {
                                assert(is_terminate(q0[i + 1]));
                            }
                        }
                        Some(Message::Terminate)
                    },
                }
            },
        }
    }

    /// Worker `id` reports that its job has returned: it is running again.
    /// Returns false, changing nothing, if the worker was not executing.
    pub fn finish(&mut self, id: usize) -> (r: bool)
        requires
            old(self).wf(),
        ensures
            final(self).wf(),
            final(self).queue() == old(self).queue(),
            final(self).is_closed() == old(self).is_closed(),
            final(self).joined_count() == old(self).joined_count(),
            final(self).submitted() == old(self).submitted(),
            final(self).delivered() == old(self).delivered(),
            r == (id < old(self).slot_count() && old(self).workers()[id as int]
                == WorkerState::Executing),
            r ==> final(self).workers() == old(self).workers().update(
                id as int,
                WorkerState::Running,
            ),
            !r ==> final(self).workers() == old(self).workers(),
    {
        if id >= self.workers.len() {
            return false;
        }
        if self.workers[id] != WorkerState::Executing {
            return false;
        }
        let ghost ws0 = self.workers@;
        self.workers.set(id, WorkerState::Running);
        proof {
            lemma_count_update(ws0, id as int, WorkerState::Running, WorkerState::Stopped);
        }
        true
    }
}

impl<J> Dispatcher<J> {
    /// Begins teardown: enqueues one terminate message per worker slot, so
    /// that every worker meets one whichever of them takes which message.
    /// A second call changes nothing. Returns how many messages were sent.
    pub fn close(&mut self) -> (r: usize)
        requires
            old(self).wf(),
        ensures
            final(self).wf(),
            final(self).is_closed(),
            final(self).workers() == old(self).workers(),
            final(self).joined_count() == old(self).joined_count(),
            final(self).submitted() == old(self).submitted(),
            final(self).delivered() == old(self).delivered(),
            old(self).is_closed() ==> r == 0 && final(self).queue() == old(self).queue(),
            !old(self).is_closed() ==> {
                &&& r == old(self).slot_count()
                &&& final(self).queue() == old(self).queue() + Seq::new(
                    r as nat,
                    |i: int| Message::<J>::Terminate,
                )
            },
    {
        if self.closed {
            return 0;
        }
        let n = self.workers.len();
        let ghost q0 = self.queue@;
        proof {
            lemma_terminates_bounds(q0);
        }
        let mut k: usize = 0;
        while k < n
            invariant
                k <= n,
                n == self.workers@.len(),
                !self.closed,
                self.workers@ == old(self).workers@,
                self.joined == old(self).joined,
                self.submitted@ == old(self).submitted@,
                self.delivered@ == old(self).delivered@,
                q0 == old(self).queue@,
                terminates_in(q0) == 0,
                self.queue@ == q0 + Seq::new(k as nat, |i: int| Message::<J>::Terminate),
                jobs_of(self.queue@) == jobs_of(q0),
                terminates_in(self.queue@) == k,
            decreases n - k,
        {
            let ghost q1 = self.queue@;
            proof {
                lemma_queue_push(q1, Message::Terminate);
            }
            self.queue.push_back(Message::Terminate);
            k = k + 1;
            proof {
                assert(self.queue@ =~= q0 + Seq::new(k as nat, |i: int| Message::<J>::Terminate));
            }
        }
        self.closed = true;
        proof {
            lemma_terminates_bounds(q0);
            let q = self.queue@;
            assert forall|i: int, j: int|
                0 <= i <= j < q.len() && #[trigger] is_terminate(q[i]) implies #[trigger] is_terminate(q[j]) by {
                if i < q0.len() {
                    assert(!is_terminate(q0[i]));
                }
            }
        }
        n
    }

    /// Records that the thread of `slot` was joined. Slots are joined in
    /// order, each once, and only after the worker stopped; any other request
    /// is refused with false and changes nothing.
    pub fn record_join(&mut self, slot: usize) -> (r: bool)
        requires
            old(self).wf(),
        ensures
            final(self).wf(),
            final(self).queue() == old(self).queue(),
            final(self).workers() == old(self).workers(),
            final(self).is_closed() == old(self).is_closed(),
            final(self).submitted() == old(self).submitted(),
            final(self).delivered() == old(self).delivered(),
            r == (slot == old(self).joined_count() && slot < old(self).slot_count()
                && old(self).workers()[slot as int] == WorkerState::Stopped),
            r ==> final(self).joined_count() == old(self).joined_count() + 1,
            !r ==> final(self).joined_count() == old(self).joined_count(),
    {
        if slot != self.joined || slot >= self.workers.len() {
            return false;
        }
        if self.workers[slot] != WorkerState::Stopped {
            return false;
        }
        self.joined = self.joined + 1;
        true
    }

    /// The slot whose thread is to be joined next, if any is left.
    pub fn next_to_join(&self) -> (r: Option<usize>)
        requires
            self.wf(),
        ensures
            self.joined_count() < self.slot_count() ==> r == Some(self.joined_count() as usize),
            self.joined_count() == self.slot_count() ==> r is None,
    {
        if self.joined < self.workers.len() {
            Some(self.joined)
        } else {
            None
        }
    }

    /// Whether every slot has been joined: teardown is complete.
    pub fn finished(&self) -> (r: bool)
        requires
            self.wf(),
        ensures
            r == (self.joined_count() == self.slot_count()),
    {
        self.joined == self.workers.len()
    }
}

/// Every job accepted is either delivered to exactly one worker or still
/// waiting on the queue, in order: none is lost and none is delivered twice.
/// Once every worker has stopped, the queue is empty and the jobs delivered
/// are exactly the jobs submitted.
pub proof fn law_each_job_once<J>(d: &Dispatcher<J>)
    requires
        d.wf(),
    ensures
        d.submitted() == d.delivered() + jobs_of(d.queue()),
        d.all_stopped() ==> d.queue().len() == 0 && d.delivered() == d.submitted(),
{
    if d.all_stopped() {
        let ws = d.workers@;
        let q = d.queue@;
        lemma_count_all(ws, WorkerState::Stopped);
        lemma_terminates_bounds(q);
        assert(jobs_of(q) =~= Seq::<J>::empty()) by {
            if q.len() > 0 {
                assert(is_terminate(q[0]));
            }
        }
        assert(d.delivered@ + Seq::<J>::empty() =~= d.delivered@);
    }
}

/// After teardown has begun, every worker that has not stopped has a
/// terminate message of its own waiting on the queue, behind every job.
pub proof fn law_terminate_for_each_worker<J>(d: &Dispatcher<J>)
    requires
        d.wf(),
        d.is_closed(),
    ensures
        terminates_in(d.queue()) == d.slot_count() - count_in(d.workers(), WorkerState::Stopped),
        forall|i: int, j: int|
            0 <= i <= j < d.queue().len() && #[trigger] is_terminate(d.queue()[i])
                ==> #[trigger] is_terminate(d.queue()[j]),
{
}

/// After teardown has begun, a worker that is still running always finds a
/// message on the queue: no worker waits forever, so every thread can stop.
pub proof fn law_no_worker_waits_after_close<J>(d: &Dispatcher<J>, id: int)
    requires
        d.wf(),
        d.is_closed(),
        0 <= id < d.slot_count(),
        d.workers()[id] == WorkerState::Running,
    ensures
        d.queue().len() > 0,
{
    lemma_count_all(d.workers@, WorkerState::Stopped);
    lemma_terminates_bounds(d.queue@);
}

/// No slot is joined twice and no more slots are joined than were created;
/// when every slot has been joined, every worker has stopped, so none is in
/// the middle of a job.
pub proof fn law_teardown_complete<J>(d: &Dispatcher<J>)
    requires
        d.wf(),
    ensures
        d.joined_count() <= d.slot_count(),
        forall|i: int| 0 <= i < d.joined_count() ==> d.workers()[i] == WorkerState::Stopped,
        d.joined_count() == d.slot_count() ==> d.all_stopped(),
        d.joined_count() == d.slot_count() ==> forall|i: int|
            0 <= i < d.slot_count() ==> d.workers()[i] != WorkerState::Executing,
{
}

} // verus!
