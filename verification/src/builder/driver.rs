//! Build tasks, build events, and the worker-pool scheduler.
//!
//! A `Driver` is the scheduler's handle on one worker. The handoff is a
//! rendezvous: a task assigned to a worker is no longer visible to the
//! scheduler until the matching event comes back, and a worker never holds
//! more than one task at a time. The `DriverPool` owns the workers and a
//! FIFO task queue with a priority lane at the front.
//!
//! The pool decides which worker runs which task; performing a task's
//! outside work (filesystem reads) is the caller's part. The caller takes
//! a worker's assignment with `take_assignment`, produces the matching
//! event — for parse tasks with `execute_parse`, which needs nothing but
//! the task itself — and hands it back with `deliver`.

use vstd::prelude::*;

use crate::builder::incrimental::Incrimental;
use crate::builder::source::Source;
use crate::lexer::error::LexicalError;
use crate::lexer::lexeme::{Lexeme, Span};
use crate::lexer::tokenize::{covers_upto, scan, step_err};
use vstd::string::StrSliceExecFns;
use std::collections::VecDeque;

verus! {

/// What a filesystem metadata read yields, as plain values.
#[derive(Debug, Clone, Copy, PartialEq, Eq, Structural)]
pub struct FileMetadata {
    /// File size in bytes.
    pub size: u64,
    pub is_file: bool,
    pub is_dir: bool,
    pub readonly: bool,
}

/// Why a build task failed. Task-level failures are data, not unwinding:
/// one failing task never stops the pool or other in-flight tasks.
#[derive(Debug, Clone, PartialEq)]
pub enum BuildError {
    /// Scanning the task's text failed.
    Lexical(LexicalError),
    /// A filesystem operation failed; the message carries its context.
    Io(String),
    /// A parse task arrived without loaded source text.
    MissingSourceText,
    /// A source text too large for span arithmetic.
    Oversized,
}

/// A unit of build work. A task is consumed exactly once by exactly one
/// worker, and its matching event is produced exactly once.
#[derive(Debug, Clone, PartialEq)]
pub enum BuildTask {
    ReadMetadata { path: String },
    ReadDir { path: String },
    ReadFile { path: String },
    Parse { source: Source },
    Shutdown,
}

/// The product of executing a build task.
#[derive(Debug, Clone, PartialEq)]
pub enum BuildEvent {
    ReadMetadata { metadata: FileMetadata },
    ReadDir { entries: Vec<String> },
    ReadFile { source: Source },
    Parsed { tokens: Vec<(Span, Lexeme)> },
    Error { context: BuildError },
    ShutdownAck,
}

/// A failure at the scheduler's boundary with one worker.
#[derive(Debug, Clone, Copy, PartialEq, Eq, Structural)]
pub enum DriverError {
    /// The worker already holds an unacknowledged task.
    Busy,
    /// The worker holds no task in the expected stage.
    NoTask,
    /// The worker's channel failed.
    Channel,
    /// The worker has been shut down.
    Closed,
}

/// Where one worker stands: idle, holding an assigned task not yet taken
/// up, running a taken task, holding a finished event not yet collected,
/// or terminated. The state holds at most one task or event, which is what
/// makes a second concurrent assignment impossible.
#[derive(Debug, Clone, PartialEq)]
pub enum DriverState {
    Idle,
    Assigned(BuildTask),
    Running,
    Done(BuildEvent),
    Terminated,
}

/// A worker holding work that has not yet come back as an event.
pub open spec fn is_busy_state(s: DriverState) -> bool {
    s matches DriverState::Assigned(_) || s == DriverState::Running
}

/// A worker whose task, if any, has not yet been collected as an event.
pub open spec fn is_inflight_state(s: DriverState) -> bool {
    is_busy_state(s) || s matches DriverState::Done(_)
}

/// Executes a parse task: scans the task's text into tokens. A scan error
/// becomes an error event carrying the lexical error; a source that has
/// not reached the `RawText` phase, or whose length cannot be spanned,
/// yields an error event as well.
pub fn execute_parse(source: &Source) -> (ev: BuildEvent)
    ensures
        match source.phase() {
            Incrimental::RawText(text) => {
                if text@.len() > u32::MAX {
                    ev == (BuildEvent::Error { context: BuildError::Oversized })
                } else {
                    match ev {
                        BuildEvent::Parsed { tokens } => covers_upto(
                            text@,
                            tokens@,
                            0,
                            text@.len() as int,
                        ),
                        BuildEvent::Error { context } => context matches BuildError::Lexical(e)
                            && exists|pre: Seq<(Span, Lexeme)>, i: int|
                            #[trigger] covers_upto(text@, pre, 0, i) && step_err(text@, i, e),
                        _ => false,
                    }
                }
            },
            _ => ev == (BuildEvent::Error { context: BuildError::MissingSourceText }),
        },
{
    match source.phase_ref() {
        Incrimental::RawText(text) => {
            let n = text.as_str().unicode_len();
            if n > u32::MAX as usize {
                BuildEvent::Error { context: BuildError::Oversized }
            } else {
                match scan(text.as_str()) {
                    Ok(tokens) => BuildEvent::Parsed { tokens },
                    Err(e) => BuildEvent::Error { context: BuildError::Lexical(e) },
                }
            }
        },
        _ => BuildEvent::Error { context: BuildError::MissingSourceText },
    }
}

/// The scheduler's handle on a single worker.
pub struct Driver {
    state: DriverState,
}

impl View for Driver {
    type V = DriverState;

    closed spec fn view(&self) -> DriverState {
        self.state
    }
}

impl Driver {
    /// A fresh, idle worker.
    pub fn new() -> (d: Driver)
        ensures
            d@ == DriverState::Idle,
    {
        Driver { state: DriverState::Idle }
    }

    /// Whether this worker can accept a task.
    pub fn is_available(&self) -> (r: bool)
        ensures
            r == (self@ == DriverState::Idle),
    {
        match &self.state {
            DriverState::Idle => true,
            _ => false,
        }
    }

    /// Hands a task to the worker. Only an idle worker accepts: one that
    /// already holds an unacknowledged task rejects the assignment with
    /// `Busy` and keeps its current work untouched, so a single worker can
    /// never hold two tasks at once; a terminated worker rejects it with
    /// `Closed`.
    pub fn assign(&mut self, task: BuildTask) -> (r: Result<(), DriverError>)
        ensures
            match old(self)@ {
                DriverState::Idle => r == Ok::<(), DriverError>(()) && final(self)@
                    == DriverState::Assigned(task),
                DriverState::Terminated => r == Err::<(), DriverError>(DriverError::Closed)
                    && final(self)@ == old(self)@,
                _ => r == Err::<(), DriverError>(DriverError::Busy) && final(self)@ == old(self)@,
            },
    {
        match &self.state {
            DriverState::Idle => {
                self.state = DriverState::Assigned(task);
                Ok(())
            },
            DriverState::Terminated => Err(DriverError::Closed),
            _ => Err(DriverError::Busy),
        }
    }

    /// The worker's side of the rendezvous: takes the assigned task for
    /// execution, leaving the worker running.
    pub fn take_task(&mut self) -> (r: Option<BuildTask>)
        ensures
            match old(self)@ {
                DriverState::Assigned(t) => r == Some(t) && final(self)@ == DriverState::Running,
                _ => r is None && final(self)@ == old(self)@,
            },
    {
        let mut here = DriverState::Running;
        core::mem::swap(&mut here, &mut self.state);
        match here {
            DriverState::Assigned(t) => Some(t),
            other => {
                self.state = other;
                None
            },
        }
    }

    /// The worker's side of the rendezvous: hands back the event produced
    /// for the taken task.
    pub fn finish(&mut self, event: BuildEvent) -> (r: Result<(), DriverError>)
        ensures
            match old(self)@ {
                DriverState::Running => r == Ok::<(), DriverError>(()) && final(self)@
                    == DriverState::Done(event),
                _ => r == Err::<(), DriverError>(DriverError::NoTask)
                    && final(self)@ == old(self)@,
            },
    {
        match &self.state {
            DriverState::Running => {
                self.state = DriverState::Done(event);
                Ok(())
            },
            _ => Err(DriverError::NoTask),
        }
    }

    /// Queries the worker for a completed event. Non-blocking; returns the
    /// event exactly once and flips the worker back to idle.
    pub fn query(&mut self) -> (r: Option<BuildEvent>)
        ensures
            match old(self)@ {
                DriverState::Done(ev) => r == Some(ev) && final(self)@ == DriverState::Idle,
                _ => r is None && final(self)@ == old(self)@,
            },
    {
        let mut here = DriverState::Idle;
        core::mem::swap(&mut here, &mut self.state);
        match here {
            DriverState::Done(ev) => Some(ev),
            other => {
                self.state = other;
                None
            },
        }
    }

    /// Shuts the worker down. A worker still holding unfinished work does
    /// not acknowledge and stays as it is; an idle worker, or one whose
    /// finished event was never collected, terminates. A terminated worker
    /// must never be assigned work again.
    pub fn shutdown(&mut self) -> (r: Result<(), DriverError>)
        ensures
            match old(self)@ {
                DriverState::Assigned(_) => r == Err::<(), DriverError>(DriverError::Busy)
                    && final(self)@ == old(self)@,
                DriverState::Running => r == Err::<(), DriverError>(DriverError::Busy)
                    && final(self)@ == old(self)@,
                _ => r == Ok::<(), DriverError>(()) && final(self)@ == DriverState::Terminated,
            },
    {
        match &self.state {
            DriverState::Assigned(_) => Err(DriverError::Busy),
            DriverState::Running => Err(DriverError::Busy),
            _ => {
                self.state = DriverState::Terminated;
                Ok(())
            },
        }
    }
}

/// The worker states behind a sequence of drivers.
pub open spec fn states_of(ds: Seq<Driver>) -> Seq<DriverState> {
    ds.map_values(|d: Driver| d@)
}

/// What one dispatch pass does, walking the workers from index `i`
/// upwards: each idle worker takes the task at the front of the queue, as
/// long as the queue lasts.
pub open spec fn dispatch_from(q: Seq<BuildTask>, ws: Seq<DriverState>, i: int) -> (
    Seq<BuildTask>,
    Seq<DriverState>,
)
    decreases ws.len() - i when i <= ws.len()
{
    if 0 <= i < ws.len() {
        if ws[i] == DriverState::Idle && q.len() > 0 {
            dispatch_from(q.drop_first(), ws.update(i, DriverState::Assigned(q[0])), i + 1)
        } else {
            dispatch_from(q, ws, i + 1)
        }
    } else {
        (q, ws)
    }
}

/// The first worker at or after `i` holding a finished event, or the
/// worker count when none does.
pub open spec fn first_done(ws: Seq<DriverState>, i: int) -> int
    decreases ws.len() - i when i <= ws.len()
{
    if 0 <= i < ws.len() {
        if ws[i] matches DriverState::Done(_) {
            i
        } else {
            first_done(ws, i + 1)
        }
    } else {
        ws.len() as int
    }
}

/// How many of the first `i` workers hold uncollected work.
pub open spec fn inflight_upto(ws: Seq<DriverState>, i: int) -> int
    decreases i,
{
    if i <= 0 {
        0
    } else {
        inflight_upto(ws, i - 1) + if is_inflight_state(ws[i - 1]) {
            1int
        } else {
            0int
        }
    }
}

/// How many of the first `i` workers still hold unfinished work.
pub open spec fn busy_upto(ws: Seq<DriverState>, i: int) -> int
    decreases i,
{
    if i <= 0 {
        0
    } else {
        busy_upto(ws, i - 1) + if is_busy_state(ws[i - 1]) {
            1int
        } else {
            0int
        }
    }
}

/// The work the pool still owes events for: queued tasks plus every
/// assigned, running or finished-but-uncollected task.
pub open spec fn outstanding(q: Seq<BuildTask>, ws: Seq<DriverState>) -> int {
    q.len() + inflight_upto(ws, ws.len() as int)
}

/// What a shutdown pass leaves of one worker: a worker with unfinished
/// work stays as it is, every other worker terminates.
pub open spec fn shut_state(s: DriverState) -> DriverState {
    if is_busy_state(s) {
        s
    } else {
        DriverState::Terminated
    }
}

pub open spec fn shut_states(ws: Seq<DriverState>) -> Seq<DriverState> {
    ws.map_values(|s: DriverState| shut_state(s))
}

/// The error a failed pool shutdown aggregates: how many workers did not
/// acknowledge in time.
#[derive(Debug, Clone, Copy, PartialEq, Eq, Structural)]
pub struct ShutdownError {
    pub stuck: usize,
}

/// The scheduler: a fixed set of workers, sized at construction, and a
/// FIFO task queue with a priority lane at the front. The queue and all
/// bookkeeping live on the owning thread; workers only ever exchange one
/// task for one event.
pub struct DriverPool {
    queue: VecDeque<BuildTask>,
    drivers: Vec<Driver>,
}

impl DriverPool {
    /// The queued tasks, front first.
    pub closed spec fn pending(&self) -> Seq<BuildTask> {
        self.queue@
    }

    /// The state of every worker.
    pub closed spec fn workers(&self) -> Seq<DriverState> {
        states_of(self.drivers@)
    }

    /// A pool of `num_cpus` idle workers and an empty queue.
    pub fn new(num_cpus: usize) -> (p: DriverPool)
        ensures
            p.pending() == Seq::<BuildTask>::empty(),
            p.workers().len() == num_cpus,
            forall|j: int| 0 <= j < num_cpus ==> p.workers()[j] == DriverState::Idle,
    {
        let mut drivers: Vec<Driver> = Vec::new();
        let mut k: usize = 0;
        while k < num_cpus
            invariant
                k <= num_cpus,
                drivers@.len() == k,
                forall|j: int| 0 <= j < k ==> states_of(drivers@)[j] == DriverState::Idle,
                forall|j: int| 0 <= j < k ==> drivers@[j]@ == DriverState::Idle,
            decreases num_cpus - k,
        {
            drivers.push(Driver::new());
            k = k + 1;
            proof {
                assert forall|j: int| 0 <= j < k implies states_of(drivers@)[j]
                    == DriverState::Idle by {
                    assert(states_of(drivers@)[j] == drivers@[j]@);
                }
            }
        }
        DriverPool { queue: VecDeque::new(), drivers }
    }

    /// How many workers the pool owns.
    pub fn worker_count(&self) -> (r: usize)
        ensures
            r as nat == self.workers().len(),
    {
        self.drivers.len()
    }

    /// Appends a task to the back of the queue: FIFO, so fairness among
    /// equal-priority tasks.
    pub fn submit(&mut self, task: BuildTask)
        ensures
            final(self).pending() == old(self).pending().push(task),
            final(self).workers() == old(self).workers(),
    {
        self.queue.push_back(task);
    }

    /// Inserts a task at the front of the queue, ahead of already queued
    /// work, and immediately attempts dispatch.
    pub fn submit_priority(&mut self, task: BuildTask)
        ensures
            ({
                let q1 = seq![task] + old(self).pending();
                &&& final(self).pending() == dispatch_from(q1, old(self).workers(), 0).0
                &&& final(self).workers() == dispatch_from(q1, old(self).workers(), 0).1
            }),
    {
        self.queue.push_front(task);
        proof {
            assert(self.queue@ =~= seq![task] + old(self).pending());
        }
        self.dispatch();
    }

    /// Hands queued tasks to idle workers, walking the workers in order
    /// and popping the queue front first, while both last.
    pub fn dispatch(&mut self)
        ensures
            final(self).pending() == dispatch_from(old(self).pending(), old(self).workers(), 0).0,
            final(self).workers() == dispatch_from(old(self).pending(), old(self).workers(), 0).1,
    {
        let n = self.drivers.len();
        let mut i: usize = 0;
        while i < n
            invariant
                self.drivers.len() == n,
                i <= n,
                dispatch_from(old(self).pending(), old(self).workers(), 0) == dispatch_from(
                    self.pending(),
                    self.workers(),
                    i as int,
                ),
            decreases n - i,
        {
            if self.queue.len() > 0 {
                let ghost prev_q = self.pending();
                let ghost prev_ws = self.workers();
                let ghost prev_drivers = self.drivers@;
                let mut d = self.drivers.remove(i);
                let was_idle = d.is_available();
                if was_idle {
                    let t = self.queue.pop_front();
                    match t {
                        Some(task) => {
                            let _ = d.assign(task);
                        },
                        None => {},
                    }
                }
                self.drivers.insert(i, d);
                proof {
                    assert(self.drivers@ =~= prev_drivers.update(i as int, self.drivers@[i as int]));
                    assert(self.workers() =~= prev_ws.update(i as int, self.drivers@[i as int]@));
                    if prev_ws[i as int] == DriverState::Idle {
                        assert(self.pending() =~= prev_q.drop_first());
                        assert(self.workers() =~= prev_ws.update(
                            i as int,
                            DriverState::Assigned(prev_q[0]),
                        ));
                    } else {
                        assert(self.workers() =~= prev_ws);
                    }
                }
            }
            i = i + 1;
        }
    }

    /// Dispatches, then scans the workers for one finished event, at most
    /// one per call; `None` when no worker has completed. Never blocks.
    /// There is no cross-task ordering guarantee: events surface in
    /// worker order, not submission order.
    pub fn poll_any(&mut self) -> (r: Option<BuildEvent>)
        ensures
            ({
                let d = dispatch_from(old(self).pending(), old(self).workers(), 0);
                let k = first_done(d.1, 0);
                &&& final(self).pending() == d.0
                &&& match r {
                    Some(ev) => k < d.1.len() && d.1[k] == DriverState::Done(ev)
                        && final(self).workers() == d.1.update(k, DriverState::Idle),
                    None => k == d.1.len() && final(self).workers() == d.1,
                }
            }),
    {
        self.dispatch();
        let ghost q1 = self.pending();
        let ghost ws1 = self.workers();
        let n = self.drivers.len();
        let mut k: usize = 0;
        while k < n
            invariant
                self.drivers.len() == n,
                k <= n,
                ws1.len() == n,
                q1 == dispatch_from(old(self).pending(), old(self).workers(), 0).0,
                ws1 == dispatch_from(old(self).pending(), old(self).workers(), 0).1,
                self.pending() == q1,
                self.workers() == ws1,
                first_done(ws1, 0) == first_done(ws1, k as int),
            decreases n - k,
        {
            let ghost prev_drivers = self.drivers@;
            let mut d = self.drivers.remove(k);
            let got = d.query();
            self.drivers.insert(k, d);
            proof {
                assert(self.drivers@ =~= prev_drivers.update(k as int, self.drivers@[k as int]));
                assert(states_of(prev_drivers.update(k as int, self.drivers@[k as int])) =~= ws1
                    .update(k as int, self.drivers@[k as int]@));
            }
            match got {
                Some(ev) => {
                    proof {
                        assert(ws1.len() == n);
                        assert(ws1[k as int] == prev_drivers[k as int]@);
                        assert(ws1[k as int] == DriverState::Done(ev));
                        assert(first_done(ws1, k as int) == k as int);
                        assert(self.workers() =~= ws1.update(k as int, DriverState::Idle));
                    }
                    return Some(ev);
                },
                None => {
                    proof {
                        assert(ws1[k as int] == prev_drivers[k as int]@);
                        assert(!(ws1[k as int] matches DriverState::Done(_)));
                        assert(first_done(ws1, k as int) == first_done(ws1, k as int + 1));
                        assert(self.workers() =~= ws1);
                    }
                },
            }
            k = k + 1;
        }
        proof {
            assert(ws1.len() == n);
            assert(first_done(ws1, n as int) == n as int);
        }
        None
    }

    /// Takes the task assigned to worker `i` for execution, flipping that
    /// worker to running. The caller owes the matching event to `deliver`.
    pub fn take_assignment(&mut self, i: usize) -> (r: Option<BuildTask>)
        requires
            i < old(self).workers().len(),
        ensures
            final(self).pending() == old(self).pending(),
            match old(self).workers()[i as int] {
                DriverState::Assigned(t) => r == Some(t) && final(self).workers()
                    == old(self).workers().update(i as int, DriverState::Running),
                _ => r is None && final(self).workers() == old(self).workers(),
            },
    {
        let ghost prev_drivers = self.drivers@;
        let mut d = self.drivers.remove(i);
        let r = d.take_task();
        self.drivers.insert(i, d);
        proof {
            assert(self.drivers@ =~= prev_drivers.update(i as int, self.drivers@[i as int]));
            assert(self.workers() =~= old(self).workers().update(
                i as int,
                self.drivers@[i as int]@,
            ));
            if !(old(self).workers()[i as int] matches DriverState::Assigned(_)) {
                assert(self.workers() =~= old(self).workers());
            }
        }
        r
    }

    /// Hands back the event produced for the task taken from worker `i`.
    pub fn deliver(&mut self, i: usize, event: BuildEvent) -> (r: Result<(), DriverError>)
        requires
            i < old(self).workers().len(),
        ensures
            final(self).pending() == old(self).pending(),
            match old(self).workers()[i as int] {
                DriverState::Running => r == Ok::<(), DriverError>(()) && final(self).workers()
                    == old(self).workers().update(i as int, DriverState::Done(event)),
                _ => r == Err::<(), DriverError>(DriverError::NoTask) && final(self).workers()
                    == old(self).workers(),
            },
    {
        let ghost prev_drivers = self.drivers@;
        let mut d = self.drivers.remove(i);
        let r = d.finish(event);
        self.drivers.insert(i, d);
        proof {
            assert(self.drivers@ =~= prev_drivers.update(i as int, self.drivers@[i as int]));
            assert(self.workers() =~= old(self).workers().update(
                i as int,
                self.drivers@[i as int]@,
            ));
            if old(self).workers()[i as int] != DriverState::Running {
                assert(self.workers() =~= old(self).workers());
            }
        }
        r
    }

    /// Sends shutdown to every worker and aggregates the failures: workers
    /// still holding unfinished work stay up and are counted, all others
    /// terminate. Success means every worker is terminated.
    pub fn shutdown_all(&mut self) -> (r: Result<(), ShutdownError>)
        ensures
            final(self).pending() == old(self).pending(),
            final(self).workers() == shut_states(old(self).workers()),
            match r {
                Ok(_) => busy_upto(old(self).workers(), old(self).workers().len() as int) == 0,
                Err(e) => e.stuck > 0 && e.stuck as int == busy_upto(
                    old(self).workers(),
                    old(self).workers().len() as int,
                ),
            },
    {
        let n = self.drivers.len();
        let mut stuck: usize = 0;
        let mut i: usize = 0;
        while i < n
            invariant
                self.drivers.len() == n,
                i <= n,
                self.pending() == old(self).pending(),
                stuck <= i,
                stuck as int == busy_upto(old(self).workers(), i as int),
                forall|j: int|
                    0 <= j < i ==> self.workers()[j] == shut_state(old(self).workers()[j]),
                forall|j: int| i <= j < n ==> self.workers()[j] == old(self).workers()[j],
            decreases n - i,
        {
            let ghost prev_drivers = self.drivers@;
            let ghost prev_ws = self.workers();
            let mut d = self.drivers.remove(i);
            let outcome = d.shutdown();
            self.drivers.insert(i, d);
            proof {
                assert(self.drivers@ =~= prev_drivers.update(i as int, self.drivers@[i as int]));
                assert(self.workers() =~= prev_ws.update(i as int, self.drivers@[i as int]@));
            }
            match outcome {
                Ok(_) => {},
                Err(_) => {
                    stuck = stuck + 1;
                },
            }
            i = i + 1;
        }
        proof {
            assert(self.workers() =~= shut_states(old(self).workers()));
        }
        if stuck == 0 {
            Ok(())
        } else {
            Err(ShutdownError { stuck })
        }
    }
}

/// The first idle worker at or after `i`, or the worker count when none is
/// idle.
pub open spec fn first_idle(ws: Seq<DriverState>, i: int) -> int
    decreases ws.len() - i when i <= ws.len()
{
    if 0 <= i < ws.len() {
        if ws[i] == DriverState::Idle {
            i
        } else {
            first_idle(ws, i + 1)
        }
    } else {
        ws.len() as int
    }
}

pub proof fn lemma_first_idle_props(ws: Seq<DriverState>, i: int)
    requires
        0 <= i <= ws.len(),
    ensures
        i <= first_idle(ws, i) <= ws.len(),
        first_idle(ws, i) < ws.len() ==> ws[first_idle(ws, i)] == DriverState::Idle,
        forall|j: int| i <= j < first_idle(ws, i) ==> ws[j] != DriverState::Idle,
    decreases ws.len() - i,
{
    if 0 <= i < ws.len() && ws[i] != DriverState::Idle {
        lemma_first_idle_props(ws, i + 1);
    }
}

pub proof fn lemma_first_done_props(ws: Seq<DriverState>, i: int)
    requires
        0 <= i <= ws.len(),
    ensures
        i <= first_done(ws, i) <= ws.len(),
        first_done(ws, i) < ws.len() ==> ws[first_done(ws, i)] matches DriverState::Done(_),
        forall|j: int| i <= j < first_done(ws, i) ==> !(#[trigger] ws[j] matches DriverState::Done(_)),
    decreases ws.len() - i,
{
    if 0 <= i < ws.len() && !(ws[i] matches DriverState::Done(_)) {
        lemma_first_done_props(ws, i + 1);
    }
}

/// Mutual exclusion at the pool level: dispatch fills only idle workers.
/// A worker already holding work is never touched — together with
/// `Driver::assign`, which rejects a task when the worker is not idle,
/// no worker ever holds two unacknowledged tasks at once.
pub proof fn lemma_dispatch_frame(q: Seq<BuildTask>, ws: Seq<DriverState>, i: int)
    requires
        0 <= i <= ws.len(),
    ensures
        ({
            let (q1, ws1) = dispatch_from(q, ws, i);
            &&& ws1.len() == ws.len()
            &&& q1.len() <= q.len()
            &&& forall|j: int| 0 <= j < i ==> ws1[j] == ws[j]
            &&& forall|j: int|
                i <= j < ws.len() && ws[j] != DriverState::Idle ==> ws1[j] == ws[j]
            &&& forall|j: int|
                i <= j < ws.len() ==> ws1[j] == ws[j] || ws1[j] matches DriverState::Assigned(_)
        }),
    decreases ws.len() - i,
{
    if 0 <= i < ws.len() {
        if ws[i] == DriverState::Idle && q.len() > 0 {
            let ws_u = ws.update(i, DriverState::Assigned(q[0]));
            lemma_dispatch_frame(q.drop_first(), ws_u, i + 1);
        } else {
            lemma_dispatch_frame(q, ws, i + 1);
        }
    }
}

/// Priority law: the task at the front of the queue is handed to the
/// first idle worker; the workers before it are left exactly as they
/// were, so no task queued behind the front one can reach an earlier
/// worker in the same pass.
pub proof fn lemma_dispatch_assigns_front(q: Seq<BuildTask>, ws: Seq<DriverState>, i: int)
    requires
        0 <= i <= ws.len(),
        q.len() > 0,
        first_idle(ws, i) < ws.len(),
    ensures
        dispatch_from(q, ws, i).1[first_idle(ws, i)] == DriverState::Assigned(q[0]),
        forall|j: int|
            i <= j < first_idle(ws, i) ==> dispatch_from(q, ws, i).1[j] == ws[j],
    decreases ws.len() - i,
{
    lemma_first_idle_props(ws, i);
    assert(i < ws.len());
    if ws[i] == DriverState::Idle {
        let ws_u = ws.update(i, DriverState::Assigned(q[0]));
        lemma_dispatch_frame(q.drop_first(), ws_u, i + 1);
    } else {
        lemma_dispatch_frame(q, ws, i + 1);
        lemma_dispatch_assigns_front(q, ws, i + 1);
    }
}

/// How many tasks one dispatch pass hands out, walking workers from `i`.
pub open spec fn dispatch_count(q: Seq<BuildTask>, ws: Seq<DriverState>, i: int) -> int
    decreases ws.len() - i when i <= ws.len()
{
    if 0 <= i < ws.len() {
        if ws[i] == DriverState::Idle && q.len() > 0 {
            1 + dispatch_count(
                q.drop_first(),
                ws.update(i, DriverState::Assigned(q[0])),
                i + 1,
            )
        } else {
            dispatch_count(q, ws, i + 1)
        }
    } else {
        0
    }
}

/// FIFO law: dispatch pops tasks from the front only, so what stays
/// queued is exactly the tail of the queue, in its original order.
pub proof fn lemma_dispatch_fifo(q: Seq<BuildTask>, ws: Seq<DriverState>, i: int)
    requires
        0 <= i <= ws.len(),
    ensures
        0 <= dispatch_count(q, ws, i) <= q.len(),
        dispatch_from(q, ws, i).0 == q.skip(dispatch_count(q, ws, i)),
    decreases ws.len() - i,
{
    if 0 <= i < ws.len() {
        if ws[i] == DriverState::Idle && q.len() > 0 {
            let ws_u = ws.update(i, DriverState::Assigned(q[0]));
            lemma_dispatch_fifo(q.drop_first(), ws_u, i + 1);
            let c = dispatch_count(q.drop_first(), ws_u, i + 1);
            assert(q.drop_first().skip(c) =~= q.skip(c + 1));
        } else {
            lemma_dispatch_fifo(q, ws, i + 1);
        }
    } else {
        assert(q.skip(0) =~= q);
    }
}

/// Updating one worker shifts the in-flight count by the difference the
/// update makes at that position.
proof fn lemma_inflight_update(ws: Seq<DriverState>, k: int, s2: DriverState, i: int)
    requires
        0 <= k < ws.len(),
        i <= ws.len(),
    ensures
        inflight_upto(ws.update(k, s2), i) == inflight_upto(ws, i) + if k < i {
            (if is_inflight_state(s2) {
                1int
            } else {
                0int
            }) - (if is_inflight_state(ws[k]) {
                1int
            } else {
                0int
            })
        } else {
            0int
        },
    decreases i,
{
    if i > 0 {
        lemma_inflight_update(ws, k, s2, i - 1);
    }
}

/// Dispatch conserves work: every task that leaves the queue turns into
/// exactly one in-flight assignment; nothing is duplicated or dropped.
pub proof fn lemma_dispatch_outstanding(q: Seq<BuildTask>, ws: Seq<DriverState>, i: int)
    requires
        0 <= i <= ws.len(),
    ensures
        ({
            let (q1, ws1) = dispatch_from(q, ws, i);
            q1.len() + inflight_upto(ws1, ws1.len() as int) == q.len() + inflight_upto(
                ws,
                ws.len() as int,
            )
        }),
    decreases ws.len() - i,
{
    if 0 <= i < ws.len() {
        if ws[i] == DriverState::Idle && q.len() > 0 {
            let ws_u = ws.update(i, DriverState::Assigned(q[0]));
            lemma_inflight_update(ws, i, DriverState::Assigned(q[0]), ws.len() as int);
            lemma_dispatch_outstanding(q.drop_first(), ws_u, i + 1);
        } else {
            lemma_dispatch_outstanding(q, ws, i + 1);
        }
    }
}

/// The workers complete what they hold: every assigned or running worker
/// turns its task into a finished event, and no other worker changes.
pub open spec fn completes(a: Seq<DriverState>, b: Seq<DriverState>) -> bool {
    &&& a.len() == b.len()
    &&& forall|j: int|
        0 <= j < a.len() ==> if is_busy_state(a[j]) {
            b[j] matches DriverState::Done(_)
        } else {
            b[j] == a[j]
        }
}

proof fn lemma_completes_inflight(a: Seq<DriverState>, b: Seq<DriverState>, i: int)
    requires
        completes(a, b),
        i <= a.len(),
    ensures
        inflight_upto(b, i) == inflight_upto(a, i),
    decreases i,
{
    if i > 0 {
        lemma_completes_inflight(a, b, i - 1);
    }
}

proof fn lemma_inflight_pos(ws: Seq<DriverState>, i: int)
    requires
        0 <= i <= ws.len(),
        inflight_upto(ws, i) > 0,
    ensures
        exists|j: int| 0 <= j < i && is_inflight_state(#[trigger] ws[j]),
    decreases i,
{
    if !is_inflight_state(ws[i - 1]) {
        lemma_inflight_pos(ws, i - 1);
    }
}

proof fn lemma_inflight_nonneg(ws: Seq<DriverState>, i: int)
    ensures
        inflight_upto(ws, i) >= 0,
    decreases i,
{
    if i > 0 {
        lemma_inflight_nonneg(ws, i - 1);
    }
}

proof fn lemma_first_done_finds(ws: Seq<DriverState>, j: int)
    requires
        0 <= j < ws.len(),
        ws[j] matches DriverState::Done(_),
    ensures
        first_done(ws, 0) <= j,
{
    lemma_first_done_props(ws, 0);
    if first_done(ws, 0) > j {
        assert(!(ws[j] matches DriverState::Done(_)));
    }
}

/// Pool liveness law: while any submitted task is still queued, held by a
/// worker, or finished but uncollected, one full round — dispatch, the
/// workers completing what they hold, one poll — yields an event, and
/// collecting it lowers the outstanding count by exactly one. Dispatch
/// itself conserves the count, so N submitted tasks yield exactly N
/// events, each task consumed exactly once.
pub proof fn lemma_pool_liveness_round(
    q: Seq<BuildTask>,
    ws: Seq<DriverState>,
    ws2: Seq<DriverState>,
)
    requires
        ws.len() > 0,
        forall|j: int| 0 <= j < ws.len() ==> ws[j] != DriverState::Terminated,
        outstanding(q, ws) > 0,
        completes(dispatch_from(q, ws, 0).1, ws2),
    ensures
        ({
            let (q1, ws1) = dispatch_from(q, ws, 0);
            let k = first_done(ws2, 0);
            &&& outstanding(q1, ws1) == outstanding(q, ws)
            &&& outstanding(q1, ws2) == outstanding(q1, ws1)
            &&& k < ws2.len()
            &&& outstanding(q1, ws2.update(k, DriverState::Idle)) == outstanding(q, ws) - 1
        }),
{
    let (q1, ws1) = dispatch_from(q, ws, 0);
    let k = first_done(ws2, 0);
    lemma_dispatch_frame(q, ws, 0);
    lemma_dispatch_outstanding(q, ws, 0);
    lemma_completes_inflight(ws1, ws2, ws1.len() as int);
    // a full round leaves some worker with a finished event
    if inflight_upto(ws, ws.len() as int) > 0 {
        lemma_inflight_pos(ws, ws.len() as int);
        let j = choose|j: int| 0 <= j < ws.len() && is_inflight_state(#[trigger] ws[j]);
        assert(is_inflight_state(ws1[j]));
        assert(ws2[j] matches DriverState::Done(_));
        lemma_first_done_finds(ws2, j);
    } else {
        lemma_inflight_nonneg(ws, ws.len() as int);
        assert(q.len() > 0);
        assert forall|j: int| 0 <= j < ws.len() implies ws[j] == DriverState::Idle by {
            lemma_inflight_nonneg(ws, j);
            lemma_inflight_nonneg(ws, ws.len() - j - 1);
            assert(inflight_upto(ws, ws.len() as int) >= 0);
            if is_inflight_state(ws[j]) {
                lemma_inflight_pos_at(ws, j);
            }
        }
        lemma_first_idle_props(ws, 0);
        assert(first_idle(ws, 0) == 0);
        lemma_dispatch_assigns_front(q, ws, 0);
        assert(is_busy_state(ws1[0]));
        assert(ws2[0] matches DriverState::Done(_));
        lemma_first_done_finds(ws2, 0);
    }
    lemma_first_done_props(ws2, 0);
    lemma_inflight_update(ws2, k, DriverState::Idle, ws2.len() as int);
}

/// A worker holding in-flight work at position `j` contributes to every
/// in-flight count that covers it.
proof fn lemma_inflight_pos_at(ws: Seq<DriverState>, j: int)
    requires
        0 <= j < ws.len(),
        is_inflight_state(ws[j]),
    ensures
        inflight_upto(ws, ws.len() as int) > 0,
{
    lemma_inflight_at_step(ws, j + 1, ws.len() as int);
}

proof fn lemma_inflight_at_step(ws: Seq<DriverState>, lo: int, i: int)
    requires
        0 < lo <= i <= ws.len(),
        is_inflight_state(ws[lo - 1]),
    ensures
        inflight_upto(ws, i) > 0,
    decreases i,
{
    lemma_inflight_nonneg(ws, i - 1);
    if lo < i {
        lemma_inflight_at_step(ws, lo, i - 1);
    }
}

proof fn lemma_busy_nonneg(ws: Seq<DriverState>, i: int)
    ensures
        busy_upto(ws, i) >= 0,
    decreases i,
{
    if i > 0 {
        lemma_busy_nonneg(ws, i - 1);
    }
}

proof fn lemma_busy_zero(ws: Seq<DriverState>, i: int)
    requires
        0 <= i <= ws.len(),
        busy_upto(ws, i) == 0,
    ensures
        forall|j: int| 0 <= j < i ==> !is_busy_state(#[trigger] ws[j]),
    decreases i,
{
    if i > 0 {
        lemma_busy_nonneg(ws, i - 1);
        lemma_busy_zero(ws, i - 1);
    }
}

/// Shutdown terminality law: after a shutdown pass that every worker
/// acknowledged, all workers are terminated; submitting further work and
/// polling again dispatches nothing and yields no event, whatever is
/// queued.
pub proof fn lemma_shutdown_terminal(ws: Seq<DriverState>, q2: Seq<BuildTask>)
    requires
        busy_upto(ws, ws.len() as int) == 0,
    ensures
        ({
            let wst = shut_states(ws);
            &&& forall|j: int| 0 <= j < wst.len() ==> wst[j] == DriverState::Terminated
            &&& dispatch_from(q2, wst, 0) == (q2, wst)
            &&& first_done(wst, 0) == wst.len()
        }),
{
    let wst = shut_states(ws);
    lemma_busy_zero(ws, ws.len() as int);
    assert(forall|j: int| 0 <= j < wst.len() ==> wst[j] == DriverState::Terminated);
    lemma_dispatch_skips_terminated(q2, wst, 0);
    lemma_first_done_props(wst, 0);
    if first_done(wst, 0) < wst.len() {
        assert(wst[first_done(wst, 0)] == DriverState::Terminated);
    }
}

proof fn lemma_dispatch_skips_terminated(q: Seq<BuildTask>, ws: Seq<DriverState>, i: int)
    requires
        0 <= i <= ws.len(),
        forall|j: int| 0 <= j < ws.len() ==> ws[j] != DriverState::Idle,
    ensures
        dispatch_from(q, ws, i) == (q, ws),
    decreases ws.len() - i,
{
    if i < ws.len() {
        lemma_dispatch_skips_terminated(q, ws, i + 1);
    }
}

} // verus!
