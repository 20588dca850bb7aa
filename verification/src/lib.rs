//! Execution core of a discrete-event simulation engine.
//!
//! Typed ports ([`ports::Output`], [`ports::Requestor`], [`ports::UniRequestor`])
//! fan events and queries out from one producer to many consumers, with
//! optional per-connection mapping and filtering, delivering to per-model
//! mailboxes or to terminal event sinks.  A virtual-time scheduler
//! ([`scheduler::Scheduler`]) orders pending entries by virtual time,
//! dispatches them to mailboxes in a deterministic order, and supports
//! cooperative halting, resumption and wall-clock pacing deadlines.
//!
//! The engine is specified as a sequential, deterministic state machine:
//! broadcast delivery is an ordered fold over the connection list, mailbox
//! delivery preserves dispatch order, and cross-thread concerns appear as
//! their observable contracts — a halt flag observed at dispatch
//! boundaries, and a synchronized cell whose reads see every committed
//! write.  Waiting for wall-clock deadlines is left to a thin unverified
//! driver around the library.

pub mod broadcaster;
pub mod handlers;
pub mod output;
pub mod registry;
pub mod scheduler;
pub mod sender;
pub mod sync_cell;
