//! Decision logic of a staged-write egress sink for an append-only tabular
//! store: per-item size estimation, byte-bounded batching, the per-batch
//! stream lifecycle, the commit aggregator and the request/response handling
//! of the remote write protocol. The asynchronous runtime that performs the
//! remote calls drives these state machines from outside.

pub mod sizer;
pub mod aggregator;
pub mod request;
pub mod lifecycle;
pub mod dispatch;
pub mod batcher;
pub mod sink;
