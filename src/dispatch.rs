use vstd::prelude::*;

verus! {

/// What the dispatcher asks of its caller next.
#[derive(PartialEq, Eq, Structural, Clone, Copy)]
pub enum DispatchStep {
    /// Hand the oldest waiting package to a worker.
    Start,
    /// Wait for one running task to report its completion.
    Wait,
    /// Go on walking the source tree.
    Walk,
    /// Every package found has been processed: the run is over.
    Return,
}

/// Counts the packages found, started and completed while the source tree is
/// walked, keeps at most `workers` tasks running, and lets the run end only
/// once every package found has completed.
pub struct Dispatcher {
    workers: usize,
    found: u64,
    started: u64,
    completed: u64,
    failed: u64,
    walk_done: bool,
}

/// The decision of a dispatcher in the given state.
pub open spec fn decide(workers: nat, pending: nat, running: nat, walk_done: bool) -> DispatchStep {
    if pending > 0 && running < workers {
        DispatchStep::Start
    } else if running > 0 && (pending > 0 || walk_done) {
        DispatchStep::Wait
    } else if walk_done {
        DispatchStep::Return
    } else {
        DispatchStep::Walk
    }
}

impl Dispatcher {
    /// The number of workers.
    pub closed spec fn spec_workers(&self) -> nat {
        self.workers as nat
    }

    /// Packages found so far.
    pub closed spec fn spec_found(&self) -> nat {
        self.found as nat
    }

    /// Packages handed to a worker so far.
    pub closed spec fn spec_started(&self) -> nat {
        self.started as nat
    }

    /// Tasks that reported completion so far, whatever their outcome.
    pub closed spec fn spec_completed(&self) -> nat {
        self.completed as nat
    }

    /// Tasks that reported a failure so far.
    pub closed spec fn spec_failed(&self) -> nat {
        self.failed as nat
    }

    /// Whether the walk of the source tree is over.
    pub closed spec fn spec_walk_done(&self) -> bool {
        self.walk_done
    }

    /// Packages found and not yet started.
    pub open spec fn pending(&self) -> nat {
        (self.spec_found() - self.spec_started()) as nat
    }

    /// Tasks started and not yet completed.
    pub open spec fn running(&self) -> nat {
        (self.spec_started() - self.spec_completed()) as nat
    }

    /// Counts in order, and never more running tasks than workers.
    pub open spec fn wf(&self) -> bool {
        &&& self.spec_workers() > 0
        &&& self.spec_failed() <= self.spec_completed()
        &&& self.spec_completed() <= self.spec_started()
        &&& self.spec_started() <= self.spec_found()
        &&& self.running() <= self.spec_workers()
    }

    /// A dispatcher for `workers` workers, before the walk begins.
    pub fn new(workers: usize) -> (r: Dispatcher)
        requires
            workers > 0,
        ensures
            r.wf(),
            r.spec_workers() == workers,
            r.spec_found() == 0,
            r.spec_started() == 0,
            r.spec_completed() == 0,
            r.spec_failed() == 0,
            !r.spec_walk_done(),
    {
        Dispatcher { workers, found: 0, started: 0, completed: 0, failed: 0, walk_done: false }
    }

    /// Packages found so far.
    pub fn found(&self) -> (r: u64)
        ensures
            r == self.spec_found(),
    {
        self.found
    }

    /// Tasks that reported a failure so far.
    pub fn failed(&self) -> (r: u64)
        ensures
            r == self.spec_failed(),
    {
        self.failed
    }

    /// What the caller is to do next.
    pub fn next(&self) -> (r: DispatchStep)
        requires
            self.wf(),
        ensures
            r == decide(self.spec_workers(), self.pending(), self.running(), self.spec_walk_done()),
            r == DispatchStep::Return ==> self.spec_completed() == self.spec_found(),
    {
        let pending = self.found - self.started;
        let running = self.started - self.completed;
        if pending > 0 && (running as usize) < self.workers {
            DispatchStep::Start
        } else if running > 0 && (pending > 0 || self.walk_done) {
            DispatchStep::Wait
        } else if self.walk_done {
            DispatchStep::Return
        } else {
            DispatchStep::Walk
        }
    }

    /// The walk found one more package.
    pub fn package_found(&mut self)
        requires
            old(self).wf(),
            !old(self).spec_walk_done(),
            old(self).spec_found() < u64::MAX,
        ensures
            final(self).wf(),
            final(self).spec_found() == old(self).spec_found() + 1,
            final(self).spec_workers() == old(self).spec_workers(),
            final(self).spec_started() == old(self).spec_started(),
            final(self).spec_completed() == old(self).spec_completed(),
            final(self).spec_failed() == old(self).spec_failed(),
            final(self).spec_walk_done() == old(self).spec_walk_done(),
    {
        self.found = self.found + 1;
    }

    /// The oldest waiting package was handed to a worker.
    pub fn task_started(&mut self)
        requires
            old(self).wf(),
            decide(old(self).spec_workers(), old(self).pending(), old(self).running(), old(self).spec_walk_done())
                == DispatchStep::Start,
        ensures
            final(self).wf(),
            final(self).spec_started() == old(self).spec_started() + 1,
            final(self).spec_workers() == old(self).spec_workers(),
            final(self).spec_found() == old(self).spec_found(),
            final(self).spec_completed() == old(self).spec_completed(),
            final(self).spec_failed() == old(self).spec_failed(),
            final(self).spec_walk_done() == old(self).spec_walk_done(),
    {
        self.started = self.started + 1;
    }

    /// A running task reported its completion, successful or not.
    pub fn task_completed(&mut self, ok: bool)
        requires
            old(self).wf(),
            old(self).running() > 0,
        ensures
            final(self).wf(),
            final(self).spec_completed() == old(self).spec_completed() + 1,
            final(self).spec_failed() == old(self).spec_failed() + if ok { 0nat } else { 1nat },
            final(self).spec_workers() == old(self).spec_workers(),
            final(self).spec_found() == old(self).spec_found(),
            final(self).spec_started() == old(self).spec_started(),
            final(self).spec_walk_done() == old(self).spec_walk_done(),
    {
        self.completed = self.completed + 1;
        if !ok {
            self.failed = self.failed + 1;
        }
    }

    /// The walk of the source tree is over: no package will be found anymore.
    pub fn walk_finished(&mut self)
        requires
            old(self).wf(),
        ensures
            final(self).wf(),
            final(self).spec_walk_done(),
            final(self).spec_workers() == old(self).spec_workers(),
            final(self).spec_found() == old(self).spec_found(),
            final(self).spec_started() == old(self).spec_started(),
            final(self).spec_completed() == old(self).spec_completed(),
            final(self).spec_failed() == old(self).spec_failed(),
    {
        self.walk_done = true;
    }
}

/// No more tasks run at once than there are workers, in every state that
/// the dispatcher's operations reach.
pub proof fn lemma_running_bounded(d: Dispatcher)
    requires
        d.wf(),
    ensures
        d.running() <= d.spec_workers(),
{
}

/// The run ends only after the walk is over and every package found has
/// reported its completion, however long each task took.
pub proof fn lemma_return_waits_for_all(d: Dispatcher)
    requires
        d.wf(),
        decide(d.spec_workers(), d.pending(), d.running(), d.spec_walk_done()) == DispatchStep::Return,
    ensures
        d.spec_walk_done(),
        d.spec_completed() == d.spec_found(),
        d.spec_started() == d.spec_found(),
{
}

/// Failed tasks neither shorten nor lengthen the run: two dispatchers that
/// differ only in how many of their tasks failed decide alike.
pub proof fn lemma_failures_isolated(d1: Dispatcher, d2: Dispatcher)
    requires
        d1.spec_workers() == d2.spec_workers(),
        d1.spec_found() == d2.spec_found(),
        d1.spec_started() == d2.spec_started(),
        d1.spec_completed() == d2.spec_completed(),
        d1.spec_walk_done() == d2.spec_walk_done(),
    ensures
        decide(d1.spec_workers(), d1.pending(), d1.running(), d1.spec_walk_done())
            == decide(d2.spec_workers(), d2.pending(), d2.running(), d2.spec_walk_done()),
{
}

/// Once the walk is over, the dispatcher never asks for more of it: it asks
/// to start a task only while a package waits, and to wait only while a
/// task runs.
pub proof fn lemma_drain_progress(d: Dispatcher)
    requires
        d.wf(),
        d.spec_walk_done(),
    ensures
        decide(d.spec_workers(), d.pending(), d.running(), true) != DispatchStep::Walk,
        decide(d.spec_workers(), d.pending(), d.running(), true) == DispatchStep::Wait ==> d.running() > 0,
        decide(d.spec_workers(), d.pending(), d.running(), true) == DispatchStep::Start ==> d.pending() > 0,
{
}

} // verus!
