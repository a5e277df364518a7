use crate::types::{
    Action, DeleteMessageRequest, HandlerError, Message, QueueError, ReceiveMessageResult,
};
use vstd::prelude::*;

verus! {

/// The messages carried by one receive result; an absent list means none.
pub open spec fn result_messages(result: ReceiveMessageResult) -> Seq<Message> {
    match result.messages {
        Some(v) => v@,
        None => Seq::<Message>::empty(),
    }
}

/// The delete request that acknowledges `m`, when `m` can be acknowledged at
/// all: a message without a receipt handle is skipped silently.
pub open spec fn ack_request(queue_url: String, m: Message) -> Option<DeleteMessageRequest> {
    match m.receipt_handle {
        Some(receipt) => Some(
            DeleteMessageRequest { queue_url: queue_url, receipt_handle: receipt },
        ),
        None => None,
    }
}

/// Everything one message causes, in order: the handler call, then the
/// acknowledgment attempt whenever the message carries a receipt handle.
pub open spec fn message_actions(queue_url: String, m: Message) -> Seq<Action> {
    match ack_request(queue_url, m) {
        Some(delete) => seq![
            Action::CallHandler(Some(m), None),
            Action::DeleteMessage(delete),
        ],
        None => seq![Action::CallHandler(Some(m), None)],
    }
}

/// The whole plan for a list of received messages, strictly in the order the
/// service returned them: each message is handled, then acknowledged, before
/// the next one is touched.
pub open spec fn messages_actions(queue_url: String, msgs: Seq<Message>) -> Seq<Action>
    decreases msgs.len(),
{
    if msgs.len() == 0 {
        Seq::<Action>::empty()
    } else {
        messages_actions(queue_url, msgs.drop_last()) + message_actions(queue_url, msgs.last())
    }
}

/// The plan for one tick: on a successful receive, dispatch every message;
/// on a failure, report the error to the handler exactly once and plan no
/// deletion. Handler outcomes are no input here: nothing a handler returns
/// can change a tick's plan.
pub open spec fn tick_actions(
    queue_url: String,
    outcome: Result<ReceiveMessageResult, QueueError>,
) -> Seq<Action> {
    match outcome {
        Ok(result) => messages_actions(queue_url, result_messages(result)),
        Err(e) => seq![Action::CallHandler(None, Some(e))],
    }
}

/// The acknowledgment decision for one message: the delete request that
/// removes it from its queue, or nothing when the receipt handle is absent.
pub fn ack_message(queue_url: &String, message: &Message) -> (r: Option<DeleteMessageRequest>)
    ensures
        r == ack_request(*queue_url, *message),
{
    match &message.receipt_handle {
        Some(receipt) => Some(
            DeleteMessageRequest {
                queue_url: queue_url.clone(),
                receipt_handle: receipt.clone(),
            },
        ),
        None => None,
    }
}

/// Turns one successful receive result into the dispatch plan: for each
/// message, in the order of the response, a handler call followed by that
/// message's acknowledgment attempt. An empty (or absent) message list
/// yields an empty plan.
pub fn process_response(queue_url: &String, response: &ReceiveMessageResult) -> (plan: Vec<Action>)
    ensures
        plan@ == messages_actions(*queue_url, result_messages(*response)),
{
    let mut plan: Vec<Action> = Vec::new();
    match &response.messages {
        Some(messages) => {
            let mut i: usize = 0;
            proof {
                assert(messages@.take(0) =~= Seq::<Message>::empty());
            }
            while i < messages.len()
                invariant
                    i <= messages.len(),
                    plan@ == messages_actions(*queue_url, messages@.take(i as int)),
                decreases messages.len() - i,
            {
                let m = &messages[i];
                let ghost plan_before = plan@;
                plan.push(Action::CallHandler(Some(m.clone()), None));
                match ack_message(queue_url, m) {
                    Some(delete) => plan.push(Action::DeleteMessage(delete)),
                    None => (),
                }
                proof {
                    let s = messages@;
                    assert(s.take(i + 1).drop_last() =~= s.take(i as int));
                    assert(s.take(i + 1).last() == s[i as int]);
                    assert(plan@ =~= plan_before + message_actions(*queue_url, s[i as int]));
                }
                i = i + 1;
            }
            proof {
                assert(messages@.take(messages@.len() as int) =~= messages@);
            }
        },
        None => (),
    }
    plan
}

/// The handler invocations contained in a plan, in order.
pub open spec fn handler_calls(plan: Seq<Action>) -> Seq<Action>
    decreases plan.len(),
{
    if plan.len() == 0 {
        Seq::<Action>::empty()
    } else if plan.last() is CallHandler {
        handler_calls(plan.drop_last()).push(plan.last())
    } else {
        handler_calls(plan.drop_last())
    }
}

/// The delete attempts contained in a plan, in order.
pub open spec fn delete_calls(plan: Seq<Action>) -> Seq<Action>
    decreases plan.len(),
{
    if plan.len() == 0 {
        Seq::<Action>::empty()
    } else if plan.last() is DeleteMessage {
        delete_calls(plan.drop_last()).push(plan.last())
    } else {
        delete_calls(plan.drop_last())
    }
}

/// The acknowledgments owed for `msgs`: one delete, in order, for exactly
/// the messages that carry a receipt handle.
pub open spec fn expected_deletes(queue_url: String, msgs: Seq<Message>) -> Seq<Action>
    decreases msgs.len(),
{
    if msgs.len() == 0 {
        Seq::<Action>::empty()
    } else {
        let rest = expected_deletes(queue_url, msgs.drop_last());
        match ack_request(queue_url, msgs.last()) {
            Some(delete) => rest.push(Action::DeleteMessage(delete)),
            None => rest,
        }
    }
}

proof fn lemma_projections_empty()
    ensures
        handler_calls(Seq::<Action>::empty()) == Seq::<Action>::empty(),
        delete_calls(Seq::<Action>::empty()) == Seq::<Action>::empty(),
{
}

proof fn lemma_projections_singleton(a: Action)
    ensures
        handler_calls(seq![a]) == if a is CallHandler {
            seq![a]
        } else {
            Seq::<Action>::empty()
        },
        delete_calls(seq![a]) == if a is DeleteMessage {
            seq![a]
        } else {
            Seq::<Action>::empty()
        },
{
    lemma_projections_empty();
    assert(seq![a].drop_last() =~= Seq::<Action>::empty());
    assert(seq![a].last() == a);
    assert(Seq::<Action>::empty().push(a) =~= seq![a]);
}

proof fn lemma_handler_calls_add(a: Seq<Action>, b: Seq<Action>)
    ensures
        handler_calls(a + b) == handler_calls(a) + handler_calls(b),
    decreases b.len(),
{
    if b.len() == 0 {
        assert(a + b =~= a);
        assert(handler_calls(a) + handler_calls(b) =~= handler_calls(a));
    } else {
        lemma_handler_calls_add(a, b.drop_last());
        assert((a + b).drop_last() =~= a + b.drop_last());
        assert((a + b).last() == b.last());
        if b.last() is CallHandler {
            assert((handler_calls(a) + handler_calls(b.drop_last())).push(b.last()) =~= handler_calls(
                a,
            ) + handler_calls(b.drop_last()).push(b.last()));
        }
    }
}

proof fn lemma_delete_calls_add(a: Seq<Action>, b: Seq<Action>)
    ensures
        delete_calls(a + b) == delete_calls(a) + delete_calls(b),
    decreases b.len(),
{
    if b.len() == 0 {
        assert(a + b =~= a);
        assert(delete_calls(a) + delete_calls(b) =~= delete_calls(a));
    } else {
        lemma_delete_calls_add(a, b.drop_last());
        assert((a + b).drop_last() =~= a + b.drop_last());
        assert((a + b).last() == b.last());
        if b.last() is DeleteMessage {
            assert((delete_calls(a) + delete_calls(b.drop_last())).push(b.last()) =~= delete_calls(
                a,
            ) + delete_calls(b.drop_last()).push(b.last()));
        }
    }
}

/// For `n` received messages, the plan calls the handler exactly `n` times,
/// the i-th call carrying the i-th message and no error, and requests
/// exactly one deletion per message that carries a receipt handle — zero for
/// the messages lacking one — in message order.
pub proof fn lemma_dispatch_per_message(queue_url: String, msgs: Seq<Message>)
    ensures
        handler_calls(messages_actions(queue_url, msgs)) == Seq::new(
            msgs.len(),
            |i: int| Action::CallHandler(Some(msgs[i]), None),
        ),
        delete_calls(messages_actions(queue_url, msgs)) == expected_deletes(queue_url, msgs),
    decreases msgs.len(),
{
    let plan = messages_actions(queue_url, msgs);
    if msgs.len() == 0 {
        assert(handler_calls(plan) =~= Seq::new(
            msgs.len(),
            |i: int| Action::CallHandler(Some(msgs[i]), None),
        ));
    } else {
        let rest_msgs = msgs.drop_last();
        let rest = messages_actions(queue_url, rest_msgs);
        let block = message_actions(queue_url, msgs.last());
        let handle = Action::CallHandler(Some(msgs.last()), None);
        lemma_dispatch_per_message(queue_url, rest_msgs);
        lemma_handler_calls_add(rest, block);
        lemma_delete_calls_add(rest, block);
        lemma_projections_singleton(handle);
        match ack_request(queue_url, msgs.last()) {
            Some(delete) => {
                lemma_projections_singleton(Action::DeleteMessage(delete));
                lemma_handler_calls_add(seq![handle], seq![Action::DeleteMessage(delete)]);
                lemma_delete_calls_add(seq![handle], seq![Action::DeleteMessage(delete)]);
                assert(block =~= seq![handle] + seq![Action::DeleteMessage(delete)]);
                assert(handler_calls(block) =~= seq![handle]);
                assert(delete_calls(block) =~= seq![Action::DeleteMessage(delete)]);
            },
            None => {
                assert(block =~= seq![handle]);
                assert(handler_calls(block) =~= seq![handle]);
                assert(delete_calls(block) =~= Seq::<Action>::empty());
            },
        }
        assert(handler_calls(plan) =~= Seq::new(
            msgs.len(),
            |i: int| Action::CallHandler(Some(msgs[i]), None),
        ));
        assert(delete_calls(plan) =~= expected_deletes(queue_url, msgs));
    }
}

/// Holds when the action at `i` acknowledges exactly the message whose
/// handler call stands immediately before it.
pub open spec fn ack_follows_its_handler_at(queue_url: String, plan: Seq<Action>, i: int) -> bool {
    0 < i && match (plan[i - 1], plan[i]) {
        (Action::CallHandler(Some(m), None), Action::DeleteMessage(delete)) => ack_request(
            queue_url,
            m,
        ) == Some(delete),
        _ => false,
    }
}

/// No acknowledgment before handling: every deletion in a plan stands
/// immediately after the handler call for the very message it deletes, so a
/// delete attempt is dispatched only once that message's handler call has
/// returned.
pub proof fn lemma_ack_follows_handler(queue_url: String, msgs: Seq<Message>)
    ensures
        forall|i: int|
            0 <= i < messages_actions(queue_url, msgs).len() && (#[trigger] messages_actions(
                queue_url,
                msgs,
            )[i]) is DeleteMessage ==> ack_follows_its_handler_at(
                queue_url,
                messages_actions(queue_url, msgs),
                i,
            ),
    decreases msgs.len(),
{
    let plan = messages_actions(queue_url, msgs);
    if msgs.len() == 0 {
    } else {
        let rest = messages_actions(queue_url, msgs.drop_last());
        let block = message_actions(queue_url, msgs.last());
        lemma_ack_follows_handler(queue_url, msgs.drop_last());
        assert forall|i: int| 0 <= i < plan.len() && (#[trigger] plan[i]) is DeleteMessage implies
            ack_follows_its_handler_at(queue_url, plan, i) by {
            if i < rest.len() {
                assert(rest[i] is DeleteMessage);
                assert(ack_follows_its_handler_at(queue_url, rest, i));
                assert(plan[i] == rest[i]);
                assert(plan[i - 1] == rest[i - 1]);
            } else {
                let handle = Action::CallHandler(Some(msgs.last()), None);
                match ack_request(queue_url, msgs.last()) {
                    Some(delete) => {
                        assert(block =~= seq![handle, Action::DeleteMessage(delete)]);
                        assert(plan[rest.len() as int] == handle);
                        assert(i == rest.len() + 1);
                        assert(plan[i] == Action::DeleteMessage(delete));
                        assert(plan[i - 1] == handle);
                    },
                    None => {
                        assert(block =~= seq![handle]);
                        assert(plan[i] == handle);
                    },
                }
            }
        }
    }
}

/// A failed receive reports to the handler exactly once, with the error and
/// no message, and the tick plans nothing else: in particular, zero delete
/// attempts occur for that tick.
pub proof fn lemma_receive_failure_reported_once(queue_url: String, e: QueueError)
    ensures
        tick_actions(queue_url, Err(e)) == seq![Action::CallHandler(None, Some(e))],
        handler_calls(tick_actions(queue_url, Err(e))) == seq![
            Action::CallHandler(None, Some(e)),
        ],
        delete_calls(tick_actions(queue_url, Err(e))) == Seq::<Action>::empty(),
{
    lemma_projections_singleton(Action::CallHandler(None, Some(e)));
}

/// A handler outcome cannot block acknowledgment: for every sequence of
/// handler outcomes — including one that fails at every single call — the
/// deletions a tick plans are fixed by the received messages alone, one per
/// message carrying a receipt handle. A handler that always fails therefore
/// never prevents a deletion.
pub proof fn lemma_handler_cannot_block_ack(
    queue_url: String,
    msgs: Seq<Message>,
    handler_outcomes: Seq<Result<(), HandlerError>>,
)
    ensures
        delete_calls(messages_actions(queue_url, msgs)) == expected_deletes(queue_url, msgs),
{
    lemma_dispatch_per_message(queue_url, msgs);
}

/// Every handler call of every possible tick carries exactly one of a
/// message (after a successful receive) or an error (after a failed one):
/// never both, never neither.
pub proof fn lemma_handler_args_exclusive(
    queue_url: String,
    outcome: Result<ReceiveMessageResult, QueueError>,
)
    ensures
        forall|i: int|
            0 <= i < tick_actions(queue_url, outcome).len() && (#[trigger] tick_actions(
                queue_url,
                outcome,
            )[i]) is CallHandler ==> (tick_actions(queue_url, outcome)[i]->CallHandler_0 is Some
                <==> tick_actions(queue_url, outcome)[i]->CallHandler_1 is None),
{
    match outcome {
        Ok(result) => {
            lemma_messages_actions_handler_shape(queue_url, result_messages(result));
        },
        Err(_) => {
        },
    }
}

proof fn lemma_messages_actions_handler_shape(queue_url: String, msgs: Seq<Message>)
    ensures
        forall|i: int|
            0 <= i < messages_actions(queue_url, msgs).len() && (#[trigger] messages_actions(
                queue_url,
                msgs,
            )[i]) is CallHandler ==> messages_actions(queue_url, msgs)[i]->CallHandler_0 is Some
                && messages_actions(queue_url, msgs)[i]->CallHandler_1 is None,
    decreases msgs.len(),
{
    if msgs.len() == 0 {
    } else {
        let plan = messages_actions(queue_url, msgs);
        let rest = messages_actions(queue_url, msgs.drop_last());
        let block = message_actions(queue_url, msgs.last());
        lemma_messages_actions_handler_shape(queue_url, msgs.drop_last());
        assert forall|i: int| 0 <= i < plan.len() && (#[trigger] plan[i]) is CallHandler implies
            plan[i]->CallHandler_0 is Some && plan[i]->CallHandler_1 is None by {
            if i < rest.len() {
                assert(plan[i] == rest[i]);
            } else {
                assert(plan[i] == block[i - rest.len()]);
            }
        }
    }
}

} // verus!
