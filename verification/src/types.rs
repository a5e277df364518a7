use vstd::prelude::*;

verus! {

/// Marker a user handler returns to report failure. The dispatcher observes
/// and discards it: it never influences acknowledgment or the poll loop.
#[derive(Debug, Clone, PartialEq)]
pub struct HandlerError;

/// Opaque failure reported by the queue service for a receive or a delete
/// call. The core attaches no meaning to its contents and never retries on it.
#[derive(Debug, PartialEq)]
pub struct QueueError {
    /// Description of what the service reported, kept only for the handler.
    pub message: String,
}

impl Clone for QueueError {
    fn clone(&self) -> (r: Self)
        ensures
            r == *self,
    {
        QueueError { message: self.message.clone() }
    }
}

/// One unit of work from the queue: an opaque body, the receipt handle
/// required to delete the message (absent on malformed messages, in which
/// case deletion is silently skipped), and the service-assigned id.
#[derive(Debug, PartialEq)]
pub struct Message {
    pub message_id: Option<String>,
    pub body: Option<String>,
    pub receipt_handle: Option<String>,
}

impl Clone for Message {
    fn clone(&self) -> (r: Self)
        ensures
            r == *self,
    {
        Message {
            message_id: match &self.message_id {
                Some(s) => Some(s.clone()),
                None => None,
            },
            body: match &self.body {
                Some(s) => Some(s.clone()),
                None => None,
            },
            receipt_handle: match &self.receipt_handle {
                Some(s) => Some(s.clone()),
                None => None,
            },
        }
    }
}

/// What to poll: the queue to ask and the optional long-poll wait time in
/// seconds. Captured once when listening starts and reused unchanged on
/// every tick.
#[derive(Debug, PartialEq)]
pub struct ReceiveMessageRequest {
    pub queue_url: String,
    pub wait_time_seconds: Option<i64>,
}

impl Clone for ReceiveMessageRequest {
    fn clone(&self) -> (r: Self)
        ensures
            r == *self,
    {
        ReceiveMessageRequest {
            queue_url: self.queue_url.clone(),
            wait_time_seconds: self.wait_time_seconds,
        }
    }
}

impl Default for ReceiveMessageRequest {
    fn default() -> (r: Self)
        ensures
            r.queue_url@ == Seq::<char>::empty(),
            r.wait_time_seconds is None,
    {
        ReceiveMessageRequest { queue_url: String::new(), wait_time_seconds: None }
    }
}

/// Zero or more messages returned by one receive call; the service may
/// return no list at all, which the dispatcher treats as an empty tick.
#[derive(Debug, PartialEq)]
pub struct ReceiveMessageResult {
    pub messages: Option<Vec<Message>>,
}

/// One acknowledgment: delete the message behind `receipt_handle` from
/// `queue_url`. Issued fire-and-forget; a failure of it is swallowed.
#[derive(Debug, PartialEq)]
pub struct DeleteMessageRequest {
    pub queue_url: String,
    pub receipt_handle: String,
}

impl Clone for DeleteMessageRequest {
    fn clone(&self) -> (r: Self)
        ensures
            r == *self,
    {
        DeleteMessageRequest {
            queue_url: self.queue_url.clone(),
            receipt_handle: self.receipt_handle.clone(),
        }
    }
}

/// One step of a tick's plan, to be performed in order by the driving loop.
#[derive(Debug, PartialEq)]
pub enum Action {
    /// Invoke the user handler: with a message after a successful receive,
    /// or with the error after a failed one — never both, never neither.
    /// Whatever the handler returns is discarded.
    CallHandler(Option<Message>, Option<QueueError>),
    /// Attempt the acknowledgment; an error from it is never surfaced.
    DeleteMessage(DeleteMessageRequest),
}

} // verus!
