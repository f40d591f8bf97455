use swiftlet_rtc::connection::{
    drain_step, pull_step, readable_step, recv_dispatch, timeout_outcome, DrainStep, PullStep,
    ReadableStep, RecvResult, TimeoutResult,
};
use swiftlet_rtc::engine::EngineError;

#[test]
fn dispatch_before_establishment() {
    assert!(matches!(recv_dispatch(5, false, true, true, true), Some(RecvResult::Established(5))));
    assert!(matches!(recv_dispatch(5, false, false, true, true), Some(RecvResult::Closed(5))));
    assert!(matches!(recv_dispatch(5, false, false, false, true), Some(RecvResult::Draining(5))));
    assert!(matches!(recv_dispatch(5, false, false, false, false), Some(RecvResult::Nothing)));
}

#[test]
fn dispatch_after_establishment() {
    assert!(matches!(recv_dispatch(9, true, true, true, false), Some(RecvResult::Closed(9))));
    assert!(matches!(recv_dispatch(9, true, true, false, true), Some(RecvResult::Draining(9))));
    assert!(recv_dispatch(9, true, true, false, false).is_none());
}

#[test]
fn readable_streams() {
    assert!(matches!(readable_step(1, 0, 8, false, None), ReadableStep::Report(RecvResult::Nothing)));
    assert!(matches!(
        readable_step(1, 0, 8, false, Some(3)),
        ReadableStep::Report(RecvResult::StreamReadable((1, 3)))
    ));
    assert!(matches!(readable_step(1, 0, 8, false, Some(0)), ReadableStep::Pull));
    assert!(matches!(
        readable_step(1, 8, 8, false, Some(0)),
        ReadableStep::Report(RecvResult::ReliableReadTarget(1))
    ));
    assert!(matches!(readable_step(1, 8, 8, true, Some(0)), ReadableStep::Report(RecvResult::Nothing)));
}

#[test]
fn pull_answers() {
    assert!(matches!(pull_step(2, 8, Ok((3, false))), PullStep::Advance(5)));
    assert!(matches!(pull_step(2, 8, Ok((6, false))), PullStep::Met(8)));
    assert!(matches!(pull_step(2, 8, Ok((6, true))), PullStep::CloseStream));
    assert!(matches!(pull_step(2, 8, Ok((0, true))), PullStep::CloseStream));
    assert!(matches!(pull_step(2, 8, Err(EngineError::Done)), PullStep::NoData));
    assert!(matches!(
        pull_step(2, 8, Err(EngineError::Fatal(quiche::Error::InvalidFrame))),
        PullStep::Fail(quiche::Error::InvalidFrame)
    ));
}

#[test]
fn drain_answers() {
    assert!(matches!(drain_step(0, 4096, Ok(1024)), DrainStep::Advanced(1024)));
    assert!(matches!(drain_step(3072, 4096, Ok(1024)), DrainStep::Finished(1024)));
    assert!(matches!(drain_step(0, 4096, Ok(0)), DrainStep::Stalled));
    assert!(matches!(drain_step(0, 4096, Err(EngineError::Done)), DrainStep::Stalled));
    assert!(matches!(
        drain_step(0, 4096, Err(EngineError::Fatal(quiche::Error::StreamLimit))),
        DrainStep::Fail(quiche::Error::StreamLimit)
    ));
}

#[test]
fn timeout_outcomes() {
    assert!(matches!(timeout_outcome(4, true, true), TimeoutResult::Closed(4)));
    assert!(matches!(timeout_outcome(4, false, true), TimeoutResult::Draining(4)));
    assert!(matches!(timeout_outcome(4, false, false), TimeoutResult::Happened));
}
