use bigquery_sink::lifecycle::{
    Failure, LifecycleAction, LifecycleEvent, LifecyclePhase, LifecycleStep, StreamLifecycle,
};
use bigquery_sink::request::{CallError, CallKind};

const STREAM: &str = "projects/p/datasets/d/tables/t/streams/abc";

fn created() -> StreamLifecycle {
    let (mut lc, first) = StreamLifecycle::new();
    assert_eq!(first, LifecycleAction::Create);
    let st = lc.step(LifecycleEvent::Created(Ok(STREAM.to_string())));
    assert_eq!(st.action, LifecycleAction::Build(STREAM.to_string()));
    assert_eq!(st.report, None);
    lc
}

#[test]
fn create_failure_abandons_batch() {
    let (mut lc, _) = StreamLifecycle::new();
    let err = CallError::Remote(CallKind::Create);
    let st = lc.step(LifecycleEvent::Created(Err(err)));
    assert_eq!(
        st,
        LifecycleStep { action: LifecycleAction::Stop, report: Some(Failure::Call(err)) }
    );
    assert_eq!(lc.phase, LifecyclePhase::Abandoned);
    let later = vec![
        LifecycleEvent::Built(2),
        LifecycleEvent::Appended(Ok(())),
        LifecycleEvent::Finalized(Ok(3)),
        LifecycleEvent::Enqueued(true),
    ];
    for ev in later {
        let st = lc.step(ev);
        assert_eq!(st.action, LifecycleAction::Ignored);
        assert_eq!(st.report, None);
    }
    assert_eq!(lc.phase, LifecyclePhase::Abandoned);
}

#[test]
fn finalize_failure_still_enqueues() {
    let mut lc = created();
    assert_eq!(
        lc.step(LifecycleEvent::Built(1)).action,
        LifecycleAction::Append(STREAM.to_string(), 0)
    );
    assert_eq!(
        lc.step(LifecycleEvent::Appended(Ok(()))).action,
        LifecycleAction::Finalize(STREAM.to_string())
    );
    let err = CallError::Remote(CallKind::Finalize);
    let st = lc.step(LifecycleEvent::Finalized(Err(err)));
    assert_eq!(st.action, LifecycleAction::Enqueue(STREAM.to_string()));
    assert_eq!(st.report, Some(Failure::Call(err)));
    let st = lc.step(LifecycleEvent::Enqueued(true));
    assert_eq!(st.action, LifecycleAction::Release(STREAM.to_string()));
    assert_eq!(st.report, None);
    assert_eq!(lc.phase, LifecyclePhase::Finished);
}

#[test]
fn completed_batch_is_enqueued_exactly_once() {
    let mut lc = created();
    let mut actions = vec![lc.step(LifecycleEvent::Built(3)).action];
    for _ in 0..3 {
        actions.push(lc.step(LifecycleEvent::Appended(Ok(()))).action);
    }
    actions.push(lc.step(LifecycleEvent::Finalized(Ok(42))).action);
    actions.push(lc.step(LifecycleEvent::Enqueued(true)).action);
    actions.push(lc.step(LifecycleEvent::Finalized(Ok(42))).action);
    let s = STREAM.to_string();
    assert_eq!(
        actions,
        vec![
            LifecycleAction::Append(s.clone(), 0),
            LifecycleAction::Append(s.clone(), 1),
            LifecycleAction::Append(s.clone(), 2),
            LifecycleAction::Finalize(s.clone()),
            LifecycleAction::Enqueue(s.clone()),
            LifecycleAction::Release(s.clone()),
            LifecycleAction::Ignored,
        ]
    );
    let enqueues = actions.iter().filter(|a| matches!(a, LifecycleAction::Enqueue(_))).count();
    assert_eq!(enqueues, 1);
}

#[test]
fn append_failures_do_not_stop_the_stream() {
    let mut lc = created();
    lc.step(LifecycleEvent::Built(2));
    let err = CallError::Remote(CallKind::Append);
    let st = lc.step(LifecycleEvent::Appended(Err(err)));
    assert_eq!(st.action, LifecycleAction::Append(STREAM.to_string(), 1));
    assert_eq!(st.report, Some(Failure::Call(err)));
    let st = lc.step(LifecycleEvent::Appended(Err(err)));
    assert_eq!(st.action, LifecycleAction::Finalize(STREAM.to_string()));
    assert_eq!(st.report, Some(Failure::Call(err)));
}

#[test]
fn no_built_requests_goes_straight_to_finalize() {
    let mut lc = created();
    let st = lc.step(LifecycleEvent::Built(0));
    assert_eq!(st.action, LifecycleAction::Finalize(STREAM.to_string()));
    assert_eq!(lc.phase, LifecyclePhase::Finalizing);
}

#[test]
fn channel_failure_is_reported() {
    let mut lc = created();
    lc.step(LifecycleEvent::Built(0));
    lc.step(LifecycleEvent::Finalized(Ok(0)));
    let st = lc.step(LifecycleEvent::Enqueued(false));
    assert_eq!(st.action, LifecycleAction::Release(STREAM.to_string()));
    assert_eq!(st.report, Some(Failure::Channel));
}

#[test]
fn out_of_order_event_is_ignored() {
    let (mut lc, _) = StreamLifecycle::new();
    let before = lc.clone();
    let st = lc.step(LifecycleEvent::Finalized(Ok(1)));
    assert_eq!(st.action, LifecycleAction::Ignored);
    assert_eq!(lc, before);
}
