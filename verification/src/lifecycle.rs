//! Lifecycle coordinator: the state machine that supervises the pipeline
//! (`Starting -> Attaching -> Running -> Stopping -> Terminated`), the shared
//! cancellation flag, and the cleanup of the run's transient capture
//! artifact. Cancellation is cooperative: the flag only ever moves from
//! running to stopping, and every suspension point re-checks it. Cleanup is
//! idempotent, so the cancellation handler and the main loop may both invoke
//! it without error.

use crate::reader::CapturePoll;
use crate::reader::ReadOutcome;
use crate::reader::read_contract;
use vstd::prelude::*;

verus! {

/// The coordinator's phase.
#[derive(Clone, Copy, PartialEq, Eq, Structural, Debug)]
pub enum Phase {
    Starting,
    Attaching,
    Running,
    Stopping,
    Terminated,
}

/// What the coordinator is told happened.
#[derive(Clone, Copy, PartialEq, Eq, Structural, Debug)]
pub enum LifecycleEvent {
    ReadinessOk,
    ReadinessTimedOut,
    AttachOk,
    AttachFailed,
    CancelRequested,
    ReaderTerminated,
    ProducerReleased,
}

/// What the caller must do after a step.
#[derive(Clone, Copy, PartialEq, Eq, Structural, Debug)]
pub enum LifecycleAction {
    NoAction,
    KillProducer,
    RemoveArtifact,
}

/// The transition relation. Start-up failure aborts before `Running`;
/// cancellation and producer death both route through `Stopping`, which
/// kills the producer and waits for it to release the source before
/// `Terminated` removes the transient artifact. `Terminated` absorbs every
/// further event.
pub open spec fn spec_step(phase: Phase, event: LifecycleEvent) -> (Phase, LifecycleAction) {
    match (phase, event) {
        (Phase::Starting, LifecycleEvent::ReadinessOk) => (Phase::Attaching, LifecycleAction::NoAction),
        (Phase::Starting, LifecycleEvent::ReadinessTimedOut) => (
            Phase::Terminated,
            LifecycleAction::RemoveArtifact,
        ),
        (Phase::Attaching, LifecycleEvent::AttachOk) => (Phase::Running, LifecycleAction::NoAction),
        (Phase::Attaching, LifecycleEvent::AttachFailed) => (
            Phase::Stopping,
            LifecycleAction::KillProducer,
        ),
        (Phase::Running, LifecycleEvent::CancelRequested) => (
            Phase::Stopping,
            LifecycleAction::KillProducer,
        ),
        (Phase::Running, LifecycleEvent::ReaderTerminated) => (
            Phase::Stopping,
            LifecycleAction::KillProducer,
        ),
        (Phase::Stopping, LifecycleEvent::ProducerReleased) => (
            Phase::Terminated,
            LifecycleAction::RemoveArtifact,
        ),
        (Phase::Terminated, _) => (Phase::Terminated, LifecycleAction::NoAction),
        (p, _) => (p, LifecycleAction::NoAction),
    }
}

/// Take one coordinator step.
pub fn step(phase: Phase, event: LifecycleEvent) -> (r: (Phase, LifecycleAction))
    ensures
        r == spec_step(phase, event),
{
    match (phase, event) {
        (Phase::Starting, LifecycleEvent::ReadinessOk) => (Phase::Attaching, LifecycleAction::NoAction),
        (Phase::Starting, LifecycleEvent::ReadinessTimedOut) => (
            Phase::Terminated,
            LifecycleAction::RemoveArtifact,
        ),
        (Phase::Attaching, LifecycleEvent::AttachOk) => (Phase::Running, LifecycleAction::NoAction),
        (Phase::Attaching, LifecycleEvent::AttachFailed) => (
            Phase::Stopping,
            LifecycleAction::KillProducer,
        ),
        (Phase::Running, LifecycleEvent::CancelRequested) => (
            Phase::Stopping,
            LifecycleAction::KillProducer,
        ),
        (Phase::Running, LifecycleEvent::ReaderTerminated) => (
            Phase::Stopping,
            LifecycleAction::KillProducer,
        ),
        (Phase::Stopping, LifecycleEvent::ProducerReleased) => (
            Phase::Terminated,
            LifecycleAction::RemoveArtifact,
        ),
        (Phase::Terminated, _) => (Phase::Terminated, LifecycleAction::NoAction),
        (p, _) => (p, LifecycleAction::NoAction),
    }
}

/// The shared cancellation flag: the sole synchronization point between the
/// cancellation handler and the main loop. It transitions only from running
/// to stopping — `request_stop` is its only mutator and only sets it.
pub struct StopFlag {
    pub stop_requested: bool,
}

impl StopFlag {
    /// A fresh run is not stopping.
    pub fn new() -> (r: StopFlag)
        ensures
            !r.stop_requested,
    {
        StopFlag { stop_requested: false }
    }

    /// Ask the pipeline to stop. Never reverses an earlier request.
    pub fn request_stop(&mut self)
        ensures
            final(self).stop_requested,
    {
        self.stop_requested = true;
    }

    /// Checked at every suspension point of the pipeline.
    pub fn should_stop(&self) -> (r: bool)
        ensures
            r == self.stop_requested,
    {
        self.stop_requested
    }
}

/// Whether the run's transient capture artifact still exists on disk.
#[derive(Clone, Copy, PartialEq, Eq, Structural, Debug)]
pub struct ArtifactState {
    pub artifact_present: bool,
}

/// What cleanup leaves behind: no artifact, whatever was there before.
pub open spec fn spec_cleanup(s: ArtifactState) -> ArtifactState {
    ArtifactState { artifact_present: false }
}

/// Remove the transient artifact. Removing an already-removed artifact is a
/// no-op, not an error.
pub fn cleanup(s: &mut ArtifactState)
    ensures
        *final(s) == spec_cleanup(*old(s)),
        !final(s).artifact_present,
{
    s.artifact_present = false;
}

/// Cleanup is idempotent: running it twice — say once from the main loop's
/// normal exit and once from the cancellation handler — leaves the same
/// state as running it once, with no artifact on disk.
pub proof fn lemma_cleanup_idempotent(s: ArtifactState)
    ensures
        spec_cleanup(spec_cleanup(s)) == spec_cleanup(s),
        !spec_cleanup(s).artifact_present,
{
}

/// A dead producer with no further data yields `Terminated` from the reader,
/// and that event moves the coordinator from `Running` to `Stopping` in a
/// single step, with the producer killed on the way.
pub proof fn lemma_dead_producer_reaches_stopping(p: CapturePoll, r: ReadOutcome)
    requires
        p matches CapturePoll::NoData { producer_alive: false },
        read_contract(p, r),
    ensures
        r is Terminated,
        spec_step(Phase::Running, LifecycleEvent::ReaderTerminated).0 is Stopping,
        spec_step(Phase::Running, LifecycleEvent::ReaderTerminated).1 is KillProducer,
{
}

} // verus!
