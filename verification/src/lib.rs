//! Client-side asynchronous transport primitives for cross-boundary
//! communication: a one-shot *future channel* and a chunked, ordered
//! *stream channel*.
//!
//! Both channels move values through a caller-owned transfer buffer that has
//! exactly one owner at any instant; the buffer handoff
//! (`finish_writing` / `start_reading`) is the single synchronization point
//! between the two halves.  Suspension is modelled explicitly: every
//! asynchronous operation is an enum-driven state machine whose `poll`
//! function takes the shared channel state and reports `Ready` or `Pending`;
//! an external cooperative event loop re-polls an operation when the
//! readiness edge it subscribed to fires.

pub mod channel;
pub mod future_support;
pub mod stream_support;
