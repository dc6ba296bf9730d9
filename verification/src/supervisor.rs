//! Supervising game processes: the registry of those that run, and what a
//! liveness check leads to.
//!
//! An instance is `Ready`, then `Running`, then `Ready` again. The process
//! is registered when it is started. From then on it is checked at a fixed
//! interval; when it has ended, for whatever reason, it leaves the registry
//! and the instance is put back to `Ready`. A kill only takes the process
//! out of the registry and ends it: the next check finds it gone and writes
//! the state, so that the state has one writer.

use vstd::prelude::*;
use crate::instance::{Instance, InstanceState, InstanceView};
use crate::string_map::StringMap;

verus! {

/// The time between two liveness checks, in milliseconds.
pub const POLL_INTERVAL_MS: u64 = 500;

/// The processes that run, by the id of their instance. `H` is whatever
/// stands for a process.
#[derive(Debug)]
pub struct ChildProcessState<H> {
    pub running: StringMap<H>,
}

impl<H> ChildProcessState<H> {
    /// A registry without processes.
    pub fn new() -> (r: Self)
        ensures
            r.running.pairs() == Seq::<(Seq<char>, H)>::empty(),
    {
        ChildProcessState { running: StringMap::new() }
    }

    /// Registers the process of the instance `id`, and hands back the one
    /// that was registered for it before, if there was one.
    pub fn register(&mut self, id: String, process: H) -> (previous: Option<H>)
        ensures
            previous == old(self).running.lookup(id@),
            final(self).running.lookup(id@) == Some(process),
            forall|other: Seq<char>|
                other != id@ ==> final(self).running.lookup(other) == old(self).running.lookup(
                    other,
                ),
    {
        self.running.insert(id, process)
    }

    /// Takes the process of the instance `id` out of the registry, if it is
    /// there, and hands it back.
    pub fn take(&mut self, id: &str) -> (process: Option<H>)
        ensures
            process == old(self).running.lookup(id@),
            final(self).running.lookup(id@) is None,
            forall|other: Seq<char>|
                other != id@ ==> final(self).running.lookup(other) == old(self).running.lookup(
                    other,
                ),
    {
        self.running.remove(id)
    }

    /// Whether a process is registered for the instance `id`.
    pub fn is_registered(&self, id: &str) -> (r: bool)
        ensures
            r == self.running.lookup(id@).is_some(),
    {
        self.running.contains_key(id)
    }
}

/// What a liveness check finds.
#[derive(Debug, Clone, Copy, PartialEq, Eq, Structural)]
pub enum Liveness {
    /// The process is registered and still runs.
    Alive,
    /// The process is registered and has ended.
    Exited,
    /// The process is registered, but its state cannot be told.
    Lost,
    /// No process is registered: it was killed.
    Gone,
}

/// What follows a liveness check.
#[derive(Debug, Clone, Copy, PartialEq, Eq, Structural)]
pub struct PollStep {
    /// Take the process out of the registry.
    pub unregister: bool,
    /// Put the instance back to `Ready`, and check no more.
    pub finish: bool,
}

/// What follows a liveness check: a process that runs is left alone and
/// checked again; every other finding ends the supervision, and a process
/// that is still registered is taken out.
pub open spec fn poll_outcome(found: Liveness) -> PollStep {
    match found {
        Liveness::Alive => PollStep { unregister: false, finish: false },
        Liveness::Exited => PollStep { unregister: true, finish: true },
        Liveness::Lost => PollStep { unregister: true, finish: true },
        Liveness::Gone => PollStep { unregister: false, finish: true },
    }
}

/// What follows a liveness check.
pub fn after_poll(found: Liveness) -> (step: PollStep)
    ensures
        step == poll_outcome(found),
{
    match found {
        Liveness::Alive => PollStep { unregister: false, finish: false },
        Liveness::Exited => PollStep { unregister: true, finish: true },
        Liveness::Lost => PollStep { unregister: true, finish: true },
        Liveness::Gone => PollStep { unregister: false, finish: true },
    }
}

/// The record of an instance whose process has ended: `Ready`, however the
/// process ended.
pub fn after_exit(instance: Instance) -> (r: Instance)
    ensures
        r.deep_view() == instance.deep_view().in_state(InstanceState::Ready),
{
    let mut r = instance;
    r.set_state(InstanceState::Ready);
    r
}

/// Supervision ends exactly when the process does not run any more, and a
/// process is only taken out of the registry when its supervision ends.
pub proof fn lemma_supervision_ends_with_process(found: Liveness)
    ensures
        poll_outcome(found).finish == (found != Liveness::Alive),
        poll_outcome(found).unregister ==> poll_outcome(found).finish,
        poll_outcome(found).unregister == (found == Liveness::Exited || found == Liveness::Lost),
{
}

/// However its process ended, an instance is `Ready` afterwards, and
/// nothing else about it has changed.
pub proof fn lemma_exit_folds_to_ready(instance: InstanceView)
    ensures
        instance.in_state(InstanceState::Ready).state == InstanceState::Ready,
        instance.in_state(InstanceState::Ready).in_state(instance.state) == instance,
{
}

} // verus!
