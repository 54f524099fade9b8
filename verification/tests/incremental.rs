use cnosdb::incremental::{batch_step, BatchAction, BatchEvent, BatchPhase};

#[test]
fn a_batch_that_moves_the_watermark_commits_it() {
    let (p, a) = batch_step(BatchPhase::Start, BatchEvent::Begin);
    assert_eq!((p, a), (BatchPhase::UpdatingOffsets, BatchAction::UpdateOffsets));
    let (p, a) = batch_step(p, BatchEvent::OffsetsUpdated { has_available: true });
    assert_eq!((p, a), (BatchPhase::RunningBatch, BatchAction::RunBatch));
    let (p, a) = batch_step(p, BatchEvent::BatchRan { before_ns: 100, after_ns: 250 });
    assert_eq!((p, a), (BatchPhase::Committing, BatchAction::Commit(250)));
    let (p, a) = batch_step(p, BatchEvent::Committed);
    assert_eq!((p, a), (BatchPhase::Done, BatchAction::Finish));
}

#[test]
fn no_new_data_or_no_progress_commits_nothing() {
    let (p, a) = batch_step(BatchPhase::UpdatingOffsets, BatchEvent::OffsetsUpdated { has_available: false });
    assert_eq!((p, a), (BatchPhase::Done, BatchAction::Finish));
    let (p, a) = batch_step(BatchPhase::RunningBatch, BatchEvent::BatchRan { before_ns: 100, after_ns: 100 });
    assert_eq!((p, a), (BatchPhase::Done, BatchAction::Finish));
    let (p, a) = batch_step(BatchPhase::Done, BatchEvent::Committed);
    assert_eq!((p, a), (BatchPhase::Done, BatchAction::Idle));
}
