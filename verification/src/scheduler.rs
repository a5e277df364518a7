use crate::dispatch::{process_response, tick_actions};
use crate::interval::{interval_seconds, spec_interval_seconds};
use crate::types::{Action, QueueError, ReceiveMessageRequest, ReceiveMessageResult};
use vstd::prelude::*;

verus! {

/// The state of one poll loop: the request sent on every tick, the period
/// fixed once at listen time, and whether the loop is still to fire. The
/// driving loop asks `poll_request` on each timer firing, performs the
/// receive it names, and hands the outcome to `on_tick`; `stop` closes the
/// loop for good.
#[derive(Debug)]
pub struct PollScheduler {
    pub request: ReceiveMessageRequest,
    pub interval_seconds: u32,
    pub running: bool,
}

impl PollScheduler {
    /// Whether the loop still fires.
    pub open spec fn polling(&self) -> bool {
        self.running
    }

    /// The receive request a timer firing is to send: the captured request
    /// while the loop runs, nothing once it is stopped.
    pub open spec fn spec_poll_request(&self) -> Option<ReceiveMessageRequest> {
        if self.running {
            Some(self.request)
        } else {
            None
        }
    }

    /// The scheduler after `stop`: the same loop, no longer firing.
    pub open spec fn stopped_state(pre: PollScheduler) -> PollScheduler {
        PollScheduler { running: false, ..pre }
    }

    /// Starts the poll loop: captures the request and computes the period
    /// from its wait time once; neither changes for the life of the loop.
    pub fn listen(request: ReceiveMessageRequest) -> (s: PollScheduler)
        requires
            request.wait_time_seconds matches Some(w) ==> 0 <= w && w + 1 <= u32::MAX,
        ensures
            s.request == request,
            s.interval_seconds == spec_interval_seconds(request.wait_time_seconds),
            s.polling(),
    {
        let interval_seconds = interval_seconds(request.wait_time_seconds);
        PollScheduler { request, interval_seconds, running: true }
    }

    /// On a timer firing: the request to send now, or nothing when the loop
    /// has been stopped — a stopped scheduler never asks for a receive.
    pub fn poll_request(&self) -> (r: Option<ReceiveMessageRequest>)
        ensures
            r == self.spec_poll_request(),
    {
        if self.running {
            Some(self.request.clone())
        } else {
            None
        }
    }

    /// One tick's outcome turned into the actions to perform, in order.
    /// The scheduler is borrowed immutably: no receive failure, and nothing
    /// a handler returns, can change whether the loop goes on.
    pub fn on_tick(&self, outcome: &Result<ReceiveMessageResult, QueueError>) -> (plan: Vec<
        Action,
    >)
        ensures
            plan@ == tick_actions(self.request.queue_url, *outcome),
    {
        match outcome {
            Ok(response) => process_response(&self.request.queue_url, response),
            Err(e) => {
                let mut plan: Vec<Action> = Vec::new();
                plan.push(Action::CallHandler(None, Some(e.clone())));
                proof {
                    assert(plan@ =~= tick_actions(self.request.queue_url, *outcome));
                }
                plan
            },
        }
    }

    /// Halts the loop: no timer firing after this finds the loop open, so no
    /// further receive is requested.
    pub fn stop(&mut self)
        ensures
            *final(self) == Self::stopped_state(*old(self)),
            !final(self).polling(),
    {
        self.running = false;
    }

    /// Whether the loop still fires, for the driving loop to observe.
    pub fn is_running(&self) -> (b: bool)
        ensures
            b == self.polling(),
    {
        self.running
    }
}

/// Stopping is decisive and permanent in the scheduler model: a stopped
/// scheduler issues no receive request, and it stays stopped under every
/// transition the model has — a tick leaves the state untouched (`on_tick`
/// borrows it immutably) and `stop` only ends the polling. So after `stop`
/// returns, no further receive call is ever requested.
pub proof fn lemma_no_poll_after_stop(pre: PollScheduler, post: PollScheduler)
    requires
        !pre.polling(),
        post == pre || post == PollScheduler::stopped_state(pre),
    ensures
        !post.polling(),
        post.spec_poll_request() is None,
{
}

/// A failing tick never stops the loop: a scheduler that saw its receive
/// fail still polls, with the same request, and that tick's whole plan is
/// the one report to the handler.
pub proof fn lemma_failure_keeps_polling(s: PollScheduler, e: QueueError)
    requires
        s.polling(),
    ensures
        s.spec_poll_request() == Some(s.request),
        tick_actions(s.request.queue_url, Err(e)) == seq![
            Action::CallHandler(None, Some(e)),
        ],
{
}

} // verus!
