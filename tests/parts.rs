use bigquery_sink::aggregator::{AggregatorAction, AggregatorEvent};
use bigquery_sink::batcher::ByteBatcher;
use bigquery_sink::dispatch::split_built;
use bigquery_sink::lifecycle::LifecycleAction;
use bigquery_sink::request::{
    append_outcome, commit_outcome, create_outcome, finalize_outcome, CallError, CallKind,
    StreamType, WriteRequest, WriteResponse,
};
use bigquery_sink::sink::{BigquerySink, WriteMode};
use bigquery_sink::sizer::{BatchSizer, EventSizes, SerializerKind};

const PARENT: &str = "projects/p/datasets/d/tables/t";

fn sizes(json_encoded: usize, in_memory: usize) -> EventSizes {
    EventSizes { json_encoded, in_memory }
}

#[test]
fn json_family_sizes_by_json_encoding() {
    let ev = sizes(120, 300);
    assert_eq!(BatchSizer { serializer: SerializerKind::Json }.estimated_size_of(&ev), 120);
    assert_eq!(BatchSizer { serializer: SerializerKind::NativeJson }.estimated_size_of(&ev), 120);
    assert_eq!(BatchSizer { serializer: SerializerKind::Other }.estimated_size_of(&ev), 300);
}

#[test]
fn batches_stay_within_byte_bound() {
    let mut b: ByteBatcher<u32> = ByteBatcher::new(BatchSizer { serializer: SerializerKind::Json }, 100);
    assert_eq!(b.push(1, sizes(40, 0)), None);
    assert_eq!(b.push(2, sizes(60, 0)), None);
    assert_eq!(b.push(3, sizes(1, 0)), Some(vec![1, 2]));
    assert_eq!(b.push(4, sizes(99, 0)), None);
    assert_eq!(b.push(5, sizes(1, 0)), Some(vec![3, 4]));
    assert_eq!(b.flush(), Some(vec![5]));
    assert_eq!(b.flush(), None);
}

#[test]
fn oversized_item_travels_alone() {
    let mut b: ByteBatcher<u32> = ByteBatcher::new(BatchSizer { serializer: SerializerKind::Other }, 10);
    assert_eq!(b.push(1, sizes(0, 50)), None);
    assert_eq!(b.push(2, sizes(0, 1)), Some(vec![1]));
    assert_eq!(b.push(3, sizes(0, 50)), Some(vec![2]));
    assert_eq!(b.flush(), Some(vec![3]));
}

#[test]
fn size_policy_decides_batch_boundaries() {
    let mut json: ByteBatcher<u32> = ByteBatcher::new(BatchSizer { serializer: SerializerKind::Json }, 100);
    let mut other: ByteBatcher<u32> = ByteBatcher::new(BatchSizer { serializer: SerializerKind::Other }, 100);
    assert_eq!(json.push(1, sizes(10, 90)), None);
    assert_eq!(other.push(1, sizes(10, 90)), None);
    assert_eq!(json.push(2, sizes(10, 90)), None);
    assert_eq!(other.push(2, sizes(10, 90)), Some(vec![1]));
}

#[test]
fn build_failures_do_not_block_other_requests() {
    let built: Vec<Result<u32, &str>> = vec![Err("a"), Ok(1), Err("b"), Ok(2), Ok(3), Err("c")];
    let (requests, errors) = split_built(built);
    assert_eq!(requests, vec![1, 2, 3]);
    assert_eq!(errors, vec!["a", "b", "c"]);
    let (requests, errors) = split_built(Vec::<Result<u32, &str>>::new());
    assert!(requests.is_empty() && errors.is_empty());
}

#[test]
fn create_outcome_reads_stream_name() {
    let ok = create_outcome(Ok(WriteResponse::CreateWriteStream { name: "s1".to_string() }));
    assert_eq!(ok, Ok("s1".to_string()));
    assert_eq!(create_outcome(Err(())), Err(CallError::Remote(CallKind::Create)));
    assert_eq!(
        create_outcome(Ok(WriteResponse::AppendRows)),
        Err(CallError::UnexpectedResponse(CallKind::Create))
    );
}

#[test]
fn other_outcomes_check_response_kind() {
    assert_eq!(append_outcome(Ok(WriteResponse::AppendRows)), Ok(()));
    assert_eq!(append_outcome(Err(())), Err(CallError::Remote(CallKind::Append)));
    assert_eq!(
        append_outcome(Ok(WriteResponse::BatchCommitWriteStreams)),
        Err(CallError::UnexpectedResponse(CallKind::Append))
    );
    assert_eq!(finalize_outcome(Ok(WriteResponse::FinalizeWriteStream { row_count: 17 })), Ok(17));
    assert_eq!(finalize_outcome(Err(())), Err(CallError::Remote(CallKind::Finalize)));
    assert_eq!(
        finalize_outcome(Ok(WriteResponse::AppendRows)),
        Err(CallError::UnexpectedResponse(CallKind::Finalize))
    );
    assert_eq!(commit_outcome(Ok(WriteResponse::BatchCommitWriteStreams)), Ok(()));
    assert_eq!(commit_outcome(Err(())), Err(CallError::Remote(CallKind::BatchCommit)));
    assert_eq!(
        commit_outcome(Ok(WriteResponse::FinalizeWriteStream { row_count: 1 })),
        Err(CallError::UnexpectedResponse(CallKind::BatchCommit))
    );
}

#[test]
fn sink_mode_is_fixed_at_construction() {
    let pending = BigquerySink::new(PARENT.to_string(), true, 1000, SerializerKind::Json);
    assert_eq!(pending.mode, WriteMode::PendingStreams);
    assert!(pending.commit_aggregator().is_some());
    let default = BigquerySink::new(PARENT.to_string(), false, 1000, SerializerKind::Json);
    assert_eq!(default.mode, WriteMode::DefaultStream);
    assert!(default.commit_aggregator().is_none());
    let b: ByteBatcher<u8> = default.batcher();
    assert_eq!(b.max_bytes, 1000);
}

#[test]
fn sink_builds_protocol_requests() {
    let sink = BigquerySink::new(PARENT.to_string(), true, 1000, SerializerKind::Other);
    assert_eq!(
        sink.lifecycle_request(&LifecycleAction::Create),
        Some(WriteRequest::CreateWriteStream {
            parent: PARENT.to_string(),
            stream_type: StreamType::Pending
        })
    );
    assert_eq!(
        sink.lifecycle_request(&LifecycleAction::Finalize("s9".to_string())),
        Some(WriteRequest::FinalizeWriteStream { name: "s9".to_string() })
    );
    assert_eq!(sink.lifecycle_request(&LifecycleAction::Append("s9".to_string(), 0)), None);
    assert_eq!(sink.batch_commit_request(Vec::new()), None);
    assert_eq!(
        sink.batch_commit_request(vec!["a".to_string(), "b".to_string()]),
        Some(WriteRequest::BatchCommitWriteStreams {
            parent: PARENT.to_string(),
            streams: vec!["a".to_string(), "b".to_string()]
        })
    );
}

#[test]
fn aggregator_commit_becomes_request() {
    let sink = BigquerySink::new(PARENT.to_string(), true, 1000, SerializerKind::Other);
    let mut agg = sink.commit_aggregator().unwrap();
    agg.step(AggregatorEvent::Received("x".to_string()));
    let action = agg.step(AggregatorEvent::IdleTimeout);
    assert_eq!(
        sink.aggregator_request(action),
        Some(WriteRequest::BatchCommitWriteStreams {
            parent: PARENT.to_string(),
            streams: vec!["x".to_string()]
        })
    );
    assert_eq!(sink.aggregator_request(AggregatorAction::Wait), None);
    assert_eq!(sink.aggregator_request(AggregatorAction::Commit(Vec::new())), None);
}
