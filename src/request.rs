use vstd::prelude::*;

verus! {

/// Kind of a write stream.
#[derive(Clone, Copy, Debug, PartialEq, Eq, Structural)]
pub enum StreamType {
    /// Rows become visible only after the stream is finalized and committed.
    Pending,
    /// Rows are visible as soon as they are appended.
    Default,
}

/// One call of the remote write protocol.
#[derive(Clone, Debug, PartialEq, Eq)]
pub enum WriteRequest {
    CreateWriteStream { parent: String, stream_type: StreamType },
    AppendRows { stream: String, rows: Vec<u8> },
    FinalizeWriteStream { name: String },
    BatchCommitWriteStreams { parent: String, streams: Vec<String> },
}

/// The answer to one call, tagged like the request.
#[derive(Clone, Debug, PartialEq, Eq)]
pub enum WriteResponse {
    CreateWriteStream { name: String },
    AppendRows,
    FinalizeWriteStream { row_count: u64 },
    BatchCommitWriteStreams,
}

/// The protocol operation that a failure belongs to.
#[derive(Clone, Copy, Debug, PartialEq, Eq, Structural)]
pub enum CallKind {
    Create,
    Append,
    Finalize,
    BatchCommit,
}

/// A failed remote call.
#[derive(Clone, Copy, Debug, PartialEq, Eq, Structural)]
pub enum CallError {
    /// The service reported an error.
    Remote(CallKind),
    /// The service answered with a response of another operation.
    UnexpectedResponse(CallKind),
}

/// Outcome of handing one request to the service: the response, or `Err(())`
/// when the service itself failed.
pub type CallOutcome = Result<WriteResponse, ()>;

/// Request that opens a new pending stream under `parent`.
pub fn create_stream_request(parent: &String) -> (r: WriteRequest)
    ensures
        r == (WriteRequest::CreateWriteStream {
            parent: *parent,
            stream_type: StreamType::Pending,
        }),
{
    WriteRequest::CreateWriteStream { parent: parent.clone(), stream_type: StreamType::Pending }
}

/// Request that finalizes the stream `name`.
pub fn finalize_request(name: &String) -> (r: WriteRequest)
    ensures
        r == (WriteRequest::FinalizeWriteStream { name: *name }),
{
    WriteRequest::FinalizeWriteStream { name: name.clone() }
}

/// Request that commits `names` under `parent`; none for an empty list, which
/// needs no call.
pub fn batch_commit_request(parent: &String, names: Vec<String>) -> (r: Option<WriteRequest>)
    ensures
        names.len() == 0 <==> r is None,
        r matches Some(req) ==> (req matches WriteRequest::BatchCommitWriteStreams {
            parent: p,
            streams,
        } && p == *parent && streams@ == names@),
{
    if names.len() == 0 {
        None
    } else {
        Some(WriteRequest::BatchCommitWriteStreams { parent: parent.clone(), streams: names })
    }
}

/// The stream name assigned by a create call.
pub fn create_outcome(outcome: CallOutcome) -> (r: Result<String, CallError>)
    ensures
        r == match outcome {
            Ok(WriteResponse::CreateWriteStream { name }) => Ok(name),
            Ok(_) => Err(CallError::UnexpectedResponse(CallKind::Create)),
            Err(_) => Err(CallError::Remote(CallKind::Create)),
        },
{
    match outcome {
        Ok(WriteResponse::CreateWriteStream { name }) => Ok(name),
        Ok(_) => Err(CallError::UnexpectedResponse(CallKind::Create)),
        Err(_) => Err(CallError::Remote(CallKind::Create)),
    }
}

/// Whether an append call was acknowledged.
pub fn append_outcome(outcome: CallOutcome) -> (r: Result<(), CallError>)
    ensures
        r == match outcome {
            Ok(WriteResponse::AppendRows) => Ok(()),
            Ok(_) => Err(CallError::UnexpectedResponse(CallKind::Append)),
            Err(_) => Err(CallError::Remote(CallKind::Append)),
        },
{
    match outcome {
        Ok(WriteResponse::AppendRows) => Ok(()),
        Ok(_) => Err(CallError::UnexpectedResponse(CallKind::Append)),
        Err(_) => Err(CallError::Remote(CallKind::Append)),
    }
}

/// The final row count reported by a finalize call.
pub fn finalize_outcome(outcome: CallOutcome) -> (r: Result<u64, CallError>)
    ensures
        r == match outcome {
            Ok(WriteResponse::FinalizeWriteStream { row_count }) => Ok(row_count),
            Ok(_) => Err(CallError::UnexpectedResponse(CallKind::Finalize)),
            Err(_) => Err(CallError::Remote(CallKind::Finalize)),
        },
{
    match outcome {
        Ok(WriteResponse::FinalizeWriteStream { row_count }) => Ok(row_count),
        Ok(_) => Err(CallError::UnexpectedResponse(CallKind::Finalize)),
        Err(_) => Err(CallError::Remote(CallKind::Finalize)),
    }
}

/// Whether a batch-commit call succeeded.
pub fn commit_outcome(outcome: CallOutcome) -> (r: Result<(), CallError>)
    ensures
        r == match outcome {
            Ok(WriteResponse::BatchCommitWriteStreams) => Ok(()),
            Ok(_) => Err(CallError::UnexpectedResponse(CallKind::BatchCommit)),
            Err(_) => Err(CallError::Remote(CallKind::BatchCommit)),
        },
{
    match outcome {
        Ok(WriteResponse::BatchCommitWriteStreams) => Ok(()),
        Ok(_) => Err(CallError::UnexpectedResponse(CallKind::BatchCommit)),
        Err(_) => Err(CallError::Remote(CallKind::BatchCommit)),
    }
}

} // verus!
