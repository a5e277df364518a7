//! A polling adapter that turns a remote message queue into a stream of
//! messages delivered to a user handler, with automatic acknowledgment of
//! each message after the handler runs, regardless of its outcome.
//!
//! The verified core is the scheduled polling and delivery loop: the
//! interval computed from the request's long-poll wait time, the per-tick
//! dispatch of received messages to the handler, the unconditional
//! acknowledgment decision for each message, and the start/stop lifecycle
//! of the loop. The queue service itself is an external collaborator: a
//! driving loop sends the requests these modules produce and feeds the
//! outcomes back in.

pub mod dispatch;
pub mod interval;
pub mod scheduler;
pub mod types;

pub use crate::dispatch::{ack_message, process_response};
pub use crate::interval::interval_seconds;
pub use crate::scheduler::PollScheduler;
pub use crate::types::{
    Action, DeleteMessageRequest, HandlerError, Message, QueueError, ReceiveMessageRequest,
    ReceiveMessageResult,
};
