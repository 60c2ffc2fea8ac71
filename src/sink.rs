use vstd::prelude::*;
use crate::aggregator::{AggregatorAction, CommitAggregator};
use crate::batcher::ByteBatcher;
use crate::lifecycle::LifecycleAction;
use crate::request::{batch_commit_request, create_stream_request, finalize_request, WriteRequest};
use crate::sizer::{BatchSizer, SerializerKind};

verus! {

/// How the sink writes, fixed when it is built.
#[derive(Clone, Copy, Debug, PartialEq, Eq, Structural)]
pub enum WriteMode {
    /// Every batch gets its own pending stream, which is finalized and then
    /// committed through the commit aggregator.
    PendingStreams,
    /// Requests go straight to the table's default stream; no commit step.
    DefaultStream,
}

/// Configuration of the sink and the requests it derives from it.
#[derive(Clone, Debug)]
pub struct BigquerySink {
    /// The table that streams are created under and committed to.
    pub parent_path: String,
    pub mode: WriteMode,
    /// Upper bound of a batch's estimated size.
    pub max_bytes: usize,
    pub sizer: BatchSizer,
}

impl BigquerySink {
    pub fn new(
        parent_path: String,
        use_pending_streams: bool,
        max_bytes: usize,
        serializer: SerializerKind,
    ) -> (r: BigquerySink)
        ensures
            r.parent_path == parent_path,
            r.mode == (if use_pending_streams {
                WriteMode::PendingStreams
            } else {
                WriteMode::DefaultStream
            }),
            r.max_bytes == max_bytes,
            r.sizer == (BatchSizer { serializer }),
    {
        let mode = if use_pending_streams {
            WriteMode::PendingStreams
        } else {
            WriteMode::DefaultStream
        };
        BigquerySink { parent_path, mode, max_bytes, sizer: BatchSizer { serializer } }
    }

    /// An empty batcher with the sink's bound and size policy.
    pub fn batcher<T>(&self) -> (r: ByteBatcher<T>)
        ensures
            r.wf(),
            r.sizer == self.sizer,
            r.max_bytes == self.max_bytes,
            r.items@.len() == 0,
    {
        ByteBatcher::new(self.sizer, self.max_bytes)
    }

    /// The commit aggregator of a pending-streams run; none in default mode,
    /// which has no commit step.
    pub fn commit_aggregator(&self) -> (r: Option<CommitAggregator>)
        ensures
            (r is Some) <==> self.mode == WriteMode::PendingStreams,
            r matches Some(a) ==> a@.buffer.len() == 0 && a@.phase
                == crate::aggregator::AggregatorPhase::Receiving,
    {
        match self.mode {
            WriteMode::PendingStreams => Some(CommitAggregator::new()),
            WriteMode::DefaultStream => None,
        }
    }

    /// Request that opens a pending stream under the sink's table.
    pub fn create_pending_stream_request(&self) -> (r: WriteRequest)
        ensures
            r == (WriteRequest::CreateWriteStream {
                parent: self.parent_path,
                stream_type: crate::request::StreamType::Pending,
            }),
    {
        create_stream_request(&self.parent_path)
    }

    /// Request that commits `names` under the sink's table; none when there is
    /// nothing to commit.
    pub fn batch_commit_request(&self, names: Vec<String>) -> (r: Option<WriteRequest>)
        ensures
            names.len() == 0 <==> r is None,
            r matches Some(req) ==> (req matches WriteRequest::BatchCommitWriteStreams {
                parent: p,
                streams,
            } && p == self.parent_path && streams@ == names@),
    {
        batch_commit_request(&self.parent_path, names)
    }

    /// The remote call that a lifecycle action asks for, when it is one the
    /// sink builds itself: create and finalize. Append requests come from the
    /// batch's request builder.
    pub fn lifecycle_request(&self, action: &LifecycleAction) -> (r: Option<WriteRequest>)
        ensures
            r == match *action {
                LifecycleAction::Create => Some(
                    WriteRequest::CreateWriteStream {
                        parent: self.parent_path,
                        stream_type: crate::request::StreamType::Pending,
                    },
                ),
                LifecycleAction::Finalize(name) => Some(
                    WriteRequest::FinalizeWriteStream { name },
                ),
                _ => None,
            },
    {
        match action {
            LifecycleAction::Create => Some(self.create_pending_stream_request()),
            LifecycleAction::Finalize(name) => Some(finalize_request(name)),
            _ => None,
        }
    }

    /// The batch-commit call that an aggregator action asks for, if any.
    pub fn aggregator_request(&self, action: AggregatorAction) -> (r: Option<WriteRequest>)
        ensures
            match action@ {
                crate::aggregator::ActionView::Commit(names) => {
                    &&& (r is None <==> names.len() == 0)
                    &&& r matches Some(req) ==> (req matches WriteRequest::BatchCommitWriteStreams {
                        parent: p,
                        streams,
                    } && p == self.parent_path && streams@ == names)
                },
                _ => r is None,
            },
    {
        match action {
            AggregatorAction::Commit(names) => self.batch_commit_request(names),
            _ => None,
        }
    }
}

} // verus!
