//! One run of an incremental (stream) query, as a step function: the
//! sources' offsets are brought up to date, a batch runs only when there is
//! new data, and the offsets are committed only when the batch moved the
//! watermark forward. The caller carries out each action and hands back
//! what came of it.
use vstd::prelude::*;

verus! {

#[derive(Debug, Clone, Copy, PartialEq, Eq, Structural)]
pub enum BatchPhase {
    Start,
    UpdatingOffsets,
    RunningBatch,
    Committing,
    Done,
}

#[derive(Debug, Clone, Copy, PartialEq, Eq, Structural)]
pub enum BatchEvent {
    Begin,
    /// Whether any source has offsets not yet read.
    OffsetsUpdated { has_available: bool },
    /// The watermark, in nanoseconds, before and after the batch ran.
    BatchRan { before_ns: i64, after_ns: i64 },
    Committed,
}

#[derive(Debug, Clone, Copy, PartialEq, Eq, Structural)]
pub enum BatchAction {
    UpdateOffsets,
    /// Plan and run a batch over the available offsets.
    RunBatch,
    /// Commit the offsets read, at this watermark.
    Commit(i64),
    Finish,
    /// The event does not belong to this phase: nothing to do.
    Idle,
}

/// The watermark at which a batch's offsets are committed: the new one
/// when the batch moved it forward; none when it did not, as then no data
/// was processed.
pub open spec fn commit_at(before_ns: i64, after_ns: i64) -> Option<i64> {
    if after_ns > before_ns {
        Some(after_ns)
    } else {
        None
    }
}

/// The next phase and action of a run.
pub open spec fn batch_next(phase: BatchPhase, event: BatchEvent) -> (BatchPhase, BatchAction) {
    match (phase, event) {
        (BatchPhase::Start, BatchEvent::Begin) => (BatchPhase::UpdatingOffsets, BatchAction::UpdateOffsets),
        (BatchPhase::UpdatingOffsets, BatchEvent::OffsetsUpdated { has_available }) => if has_available {
            (BatchPhase::RunningBatch, BatchAction::RunBatch)
        } else {
            (BatchPhase::Done, BatchAction::Finish)
        },
        (BatchPhase::RunningBatch, BatchEvent::BatchRan { before_ns, after_ns }) => match commit_at(
            before_ns,
            after_ns,
        ) {
            Some(w) => (BatchPhase::Committing, BatchAction::Commit(w)),
            None => (BatchPhase::Done, BatchAction::Finish),
        },
        (BatchPhase::Committing, BatchEvent::Committed) => (BatchPhase::Done, BatchAction::Finish),
        _ => (phase, BatchAction::Idle),
    }
}

pub fn batch_step(phase: BatchPhase, event: BatchEvent) -> (r: (BatchPhase, BatchAction))
    ensures
        r == batch_next(phase, event),
{
    match (phase, event) {
        (BatchPhase::Start, BatchEvent::Begin) => (BatchPhase::UpdatingOffsets, BatchAction::UpdateOffsets),
        (BatchPhase::UpdatingOffsets, BatchEvent::OffsetsUpdated { has_available }) => {
            if has_available {
                (BatchPhase::RunningBatch, BatchAction::RunBatch)
            } else {
                (BatchPhase::Done, BatchAction::Finish)
            }
        },
        (BatchPhase::RunningBatch, BatchEvent::BatchRan { before_ns, after_ns }) => {
            if after_ns > before_ns {
                (BatchPhase::Committing, BatchAction::Commit(after_ns))
            } else {
                (BatchPhase::Done, BatchAction::Finish)
            }
        },
        (BatchPhase::Committing, BatchEvent::Committed) => (BatchPhase::Done, BatchAction::Finish),
        (p, _) => (p, BatchAction::Idle),
    }
}

/// A run commits only at a watermark later than the one the batch started
/// from, and runs no batch when no source has new data.
pub proof fn lemma_commits_only_forward(phase: BatchPhase, event: BatchEvent)
    ensures
        batch_next(phase, event).1 matches BatchAction::Commit(w) ==> (event matches BatchEvent::BatchRan {
            before_ns,
            after_ns,
        } && w == after_ns && after_ns > before_ns),
        event == (BatchEvent::OffsetsUpdated { has_available: false }) ==> batch_next(phase, event).1
            != BatchAction::RunBatch,
{
}

} // verus!
