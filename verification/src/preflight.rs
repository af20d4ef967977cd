//! Making the target directory ready before any background work starts:
//! clear what is there, create it anew, and only then hand over to the
//! pipeline.

use vstd::prelude::*;
use crate::failure::PreflightFailure;

verus! {

/// Where the preparation stands: the piece of work whose report is awaited.
#[derive(Clone, Copy, Debug, PartialEq, Eq, Structural)]
pub enum PreflightPhase {
    /// Whether the target exists is being looked up.
    Probing,
    /// The target and all below it is being removed.
    Clearing,
    /// The target directory is being created.
    Creating,
    /// The target is ready and the pipeline was handed the rest.
    Ready,
    /// The preparation failed; nothing was started.
    Refused,
}

/// A report from the caller on the piece of work it was asked to do.
#[derive(Debug, PartialEq, Eq)]
pub enum PreflightEvent {
    TargetFound,
    TargetMissing,
    Cleared,
    NotCleared { reason: String },
    Created,
    NotCreated { reason: String },
}

/// What the caller does next.
#[derive(Debug, PartialEq, Eq)]
pub enum PreflightNext {
    /// Remove the target directory and all below it.
    ClearTarget,
    /// Create the target directory and what is missing above it.
    CreateTarget,
    /// Schedule the pipeline in the background and return the install path
    /// to the front end at once.
    Start { install_path: String },
    /// Return the failure to the front end; nothing else happens.
    Refuse(PreflightFailure),
    /// The report was not one this phase waits for: carry on as before.
    Nothing,
}

/// The state of one preparation.
#[derive(Debug, PartialEq, Eq)]
pub struct Preflight {
    pub phase: PreflightPhase,
    pub install_path: String,
}

impl Preflight {
    /// The preparation at its start.
    pub open spec fn started(install_path: String) -> Preflight {
        Preflight { phase: PreflightPhase::Probing, install_path }
    }

    /// This preparation, moved on to another phase.
    pub open spec fn moved_to(self, phase: PreflightPhase) -> Preflight {
        Preflight { phase, ..self }
    }

    /// The state after a report and the answer to it. A report that the
    /// phase does not wait for changes nothing and asks for nothing.
    pub open spec fn outcome(self, event: PreflightEvent) -> (Preflight, PreflightNext) {
        match (self.phase, event) {
            (PreflightPhase::Probing, PreflightEvent::TargetFound) => (
                self.moved_to(PreflightPhase::Clearing),
                PreflightNext::ClearTarget,
            ),
            (PreflightPhase::Probing, PreflightEvent::TargetMissing) => (
                self.moved_to(PreflightPhase::Creating),
                PreflightNext::CreateTarget,
            ),
            (PreflightPhase::Clearing, PreflightEvent::Cleared) => (
                self.moved_to(PreflightPhase::Creating),
                PreflightNext::CreateTarget,
            ),
            (PreflightPhase::Clearing, PreflightEvent::NotCleared { reason }) => (
                self.moved_to(PreflightPhase::Refused),
                PreflightNext::Refuse(PreflightFailure::CleanupFailed { reason }),
            ),
            (PreflightPhase::Creating, PreflightEvent::Created) => (
                self.moved_to(PreflightPhase::Ready),
                PreflightNext::Start { install_path: self.install_path },
            ),
            (PreflightPhase::Creating, PreflightEvent::NotCreated { reason }) => (
                self.moved_to(PreflightPhase::Refused),
                PreflightNext::Refuse(PreflightFailure::DirectoryCreateFailed { reason }),
            ),
            _ => (self, PreflightNext::Nothing),
        }
    }

    /// The state after a report.
    pub open spec fn after(self, event: PreflightEvent) -> Preflight {
        self.outcome(event).0
    }

    /// The answer to a report.
    pub open spec fn reply(self, event: PreflightEvent) -> PreflightNext {
        self.outcome(event).1
    }

    /// Starts the preparation of an install path. The first thing to do is
    /// to look whether the path exists.
    pub fn new(install_path: String) -> (preflight: Preflight)
        ensures
            preflight == Preflight::started(install_path),
    {
        Preflight { phase: PreflightPhase::Probing, install_path }
    }

    /// Takes a report from the caller, moves the preparation on and answers
    /// with what to do next.
    pub fn step(&mut self, event: PreflightEvent) -> (next: PreflightNext)
        ensures
            *final(self) == old(self).after(event),
            next == old(self).reply(event),
    {
        match self.phase {
            PreflightPhase::Probing => match event {
                PreflightEvent::TargetFound => {
                    self.phase = PreflightPhase::Clearing;
                    PreflightNext::ClearTarget
                },
                PreflightEvent::TargetMissing => {
                    self.phase = PreflightPhase::Creating;
                    PreflightNext::CreateTarget
                },
                _ => PreflightNext::Nothing,
            },
            PreflightPhase::Clearing => match event {
                PreflightEvent::Cleared => {
                    self.phase = PreflightPhase::Creating;
                    PreflightNext::CreateTarget
                },
                PreflightEvent::NotCleared { reason } => {
                    self.phase = PreflightPhase::Refused;
                    PreflightNext::Refuse(PreflightFailure::CleanupFailed { reason })
                },
                _ => PreflightNext::Nothing,
            },
            PreflightPhase::Creating => match event {
                PreflightEvent::Created => {
                    self.phase = PreflightPhase::Ready;
                    PreflightNext::Start { install_path: self.install_path.clone() }
                },
                PreflightEvent::NotCreated { reason } => {
                    self.phase = PreflightPhase::Refused;
                    PreflightNext::Refuse(PreflightFailure::DirectoryCreateFailed { reason })
                },
                _ => PreflightNext::Nothing,
            },
            PreflightPhase::Ready => PreflightNext::Nothing,
            PreflightPhase::Refused => PreflightNext::Nothing,
        }
    }
}

/// The answers to a series of reports, one after another.
pub open spec fn replies(p: Preflight, events: Seq<PreflightEvent>) -> Seq<PreflightNext>
    decreases events.len(),
{
    if events.len() == 0 {
        Seq::empty()
    } else {
        seq![p.reply(events[0])] + replies(p.after(events[0]), events.drop_first())
    }
}

/// There is one answer to each report, and the answers after the first are
/// those of the preparation that the first report leaves behind.
pub proof fn lemma_replies_unfold(p: Preflight, events: Seq<PreflightEvent>)
    ensures
        replies(p, events).len() == events.len(),
        events.len() > 0 ==> replies(p, events)[0] == p.reply(events[0]),
        forall|i: int|
            0 < i < events.len() ==> #[trigger] replies(p, events)[i] == replies(
                p.after(events[0]),
                events.drop_first(),
            )[i - 1],
    decreases events.len(),
{
    if events.len() > 0 {
        lemma_replies_unfold(p.after(events[0]), events.drop_first());
    }
}

/// Once the preparation is ready or refused, no report changes it or asks
/// for anything: a refusal is never followed by a start.
pub proof fn lemma_settled_is_final(p: Preflight, events: Seq<PreflightEvent>)
    requires
        p.phase == PreflightPhase::Ready || p.phase == PreflightPhase::Refused,
    ensures
        forall|i: int|
            0 <= i < events.len() ==> #[trigger] replies(p, events)[i] == PreflightNext::Nothing,
    decreases events.len(),
{
    lemma_replies_unfold(p, events);
    if events.len() > 0 {
        assert(p.after(events[0]) == p);
        lemma_settled_is_final(p, events.drop_first());
    }
}

/// While the target is being cleared, the pipeline is started only after the
/// clearing was reported as done.
pub proof fn lemma_start_waits_for_clearing(p: Preflight, events: Seq<PreflightEvent>)
    requires
        p.phase == PreflightPhase::Clearing,
    ensures
        forall|j: int|
            0 <= j < events.len() && (#[trigger] replies(p, events)[j]) is Start ==> exists|i: int|
                0 <= i < j && (#[trigger] events[i]) is Cleared,
    decreases events.len(),
{
    lemma_replies_unfold(p, events);
    if events.len() > 0 {
        let q = p.after(events[0]);
        let rest = events.drop_first();
        if q.phase == PreflightPhase::Clearing {
            lemma_start_waits_for_clearing(q, rest);
            assert forall|j: int|
                0 <= j < events.len() && (#[trigger] replies(p, events)[j]) is Start implies exists|
                i: int,
            |
                0 <= i < j && (#[trigger] events[i]) is Cleared by {
                assert(replies(q, rest)[j - 1] is Start);
                let k = choose|k: int| 0 <= k < j - 1 && (#[trigger] rest[k]) is Cleared;
                assert(events[k + 1] is Cleared);
            }
        } else if q.phase == PreflightPhase::Refused {
            lemma_settled_is_final(q, rest);
        } else {
            assert(events[0] is Cleared);
        }
    }
}

/// A target that exists is cleared before anything else is done, and the
/// pipeline is started only after its old contents were reported as removed.
pub proof fn lemma_existing_target_is_cleared_first(install_path: String, events: Seq<PreflightEvent>)
    requires
        events.len() > 0,
        events[0] is TargetFound,
    ensures
        replies(Preflight::started(install_path), events)[0] == PreflightNext::ClearTarget,
        forall|j: int|
            0 <= j < events.len() && (#[trigger] replies(
                Preflight::started(install_path),
                events,
            )[j]) is Start ==> exists|i: int| 0 < i < j && (#[trigger] events[i]) is Cleared,
{
    let p = Preflight::started(install_path);
    let q = p.after(events[0]);
    let rest = events.drop_first();
    lemma_replies_unfold(p, events);
    lemma_start_waits_for_clearing(q, rest);
    assert forall|j: int|
        0 <= j < events.len() && (#[trigger] replies(p, events)[j]) is Start implies exists|i: int|
        0 < i < j && (#[trigger] events[i]) is Cleared by {
        assert(replies(q, rest)[j - 1] is Start);
        let k = choose|k: int| 0 <= k < j - 1 && (#[trigger] rest[k]) is Cleared;
        assert(events[k + 1] is Cleared);
    }
}

/// The pipeline is started with the install path as it was given, and never
/// before the target directory was reported as created.
pub proof fn lemma_start_follows_creation(p: Preflight, event: PreflightEvent)
    ensures
        p.reply(event) is Start ==> p.phase == PreflightPhase::Creating && event is Created
            && p.reply(event) == (PreflightNext::Start { install_path: p.install_path }),
{
}

} // verus!
