use sqslisten::{
    ack_message, interval_seconds, process_response, Action, DeleteMessageRequest, HandlerError,
    Message, PollScheduler, QueueError, ReceiveMessageRequest, ReceiveMessageResult,
};

fn message(id: &str, receipt: Option<&str>) -> Message {
    Message {
        message_id: Some(id.to_string()),
        body: Some(format!("body of {}", id)),
        receipt_handle: receipt.map(|r| r.to_string()),
    }
}

#[test]
fn interval_with_wait_time_is_wait_plus_one() {
    assert_eq!(interval_seconds(Some(5)), 6);
}

#[test]
fn interval_without_wait_time_is_the_default_second() {
    assert_eq!(interval_seconds(None), 1);
}

#[test]
fn interval_edge_values() {
    assert_eq!(interval_seconds(Some(0)), 1);
    assert_eq!(interval_seconds(Some(19)), 20);
    assert_eq!(interval_seconds(Some((u32::MAX - 1) as i64)), u32::MAX);
}

#[test]
fn ack_with_receipt_names_queue_and_receipt() {
    let url = "https://queue.example/q1".to_string();
    let m = message("1", Some("r1"));
    assert_eq!(
        ack_message(&url, &m),
        Some(DeleteMessageRequest {
            queue_url: url.clone(),
            receipt_handle: "r1".to_string(),
        })
    );
}

#[test]
fn ack_without_receipt_is_skipped_silently() {
    let url = "https://queue.example/q1".to_string();
    let m = message("1", None);
    assert_eq!(ack_message(&url, &m), None);
}

#[test]
fn two_messages_one_receipt() {
    let url = "https://queue.example/q1".to_string();
    let result = ReceiveMessageResult {
        messages: Some(vec![message("1", Some("r1")), message("2", None)]),
    };
    let plan = process_response(&url, &result);
    assert_eq!(
        plan,
        vec![
            Action::CallHandler(Some(message("1", Some("r1"))), None),
            Action::DeleteMessage(DeleteMessageRequest {
                queue_url: url.clone(),
                receipt_handle: "r1".to_string(),
            }),
            Action::CallHandler(Some(message("2", None)), None),
        ]
    );
    let deletes: Vec<&Action> = plan
        .iter()
        .filter(|a| matches!(a, Action::DeleteMessage(_)))
        .collect();
    assert_eq!(deletes.len(), 1);
}

#[test]
fn handler_called_once_per_message_in_order() {
    let url = "https://queue.example/q2".to_string();
    let result = ReceiveMessageResult {
        messages: Some(vec![
            message("a", Some("ra")),
            message("b", Some("rb")),
            message("c", Some("rc")),
        ]),
    };
    let plan = process_response(&url, &result);
    let handled: Vec<String> = plan
        .iter()
        .filter_map(|a| match a {
            Action::CallHandler(Some(m), None) => m.message_id.clone(),
            _ => None,
        })
        .collect();
    assert_eq!(
        handled,
        vec!["a".to_string(), "b".to_string(), "c".to_string()]
    );
    assert_eq!(plan.len(), 6);
}

#[test]
fn empty_result_plans_nothing() {
    let url = "https://queue.example/q1".to_string();
    let none = ReceiveMessageResult { messages: None };
    assert_eq!(process_response(&url, &none), vec![]);
    let empty = ReceiveMessageResult { messages: Some(vec![]) };
    assert_eq!(process_response(&url, &empty), vec![]);
}

#[test]
fn receive_failure_reports_once_and_deletes_nothing() {
    let request = ReceiveMessageRequest {
        queue_url: "https://queue.example/q1".to_string(),
        wait_time_seconds: None,
    };
    let scheduler = PollScheduler::listen(request);
    let err = QueueError { message: "service unavailable".to_string() };
    let plan = scheduler.on_tick(&Err(err.clone()));
    assert_eq!(plan, vec![Action::CallHandler(None, Some(err))]);
    // the loop is untouched by the failure: the next firing still polls
    assert!(scheduler.is_running());
    assert!(scheduler.poll_request().is_some());
}

#[test]
fn listen_fixes_interval_and_starts_polling() {
    let request = ReceiveMessageRequest {
        queue_url: "https://queue.example/q1".to_string(),
        wait_time_seconds: Some(5),
    };
    let scheduler = PollScheduler::listen(request);
    assert_eq!(scheduler.interval_seconds, 6);
    assert!(scheduler.is_running());
    assert_eq!(
        scheduler.poll_request(),
        Some(ReceiveMessageRequest {
            queue_url: "https://queue.example/q1".to_string(),
            wait_time_seconds: Some(5),
        })
    );
}

#[test]
fn stop_halts_polling_for_good() {
    let request = ReceiveMessageRequest {
        queue_url: "https://queue.example/q1".to_string(),
        wait_time_seconds: None,
    };
    let mut scheduler = PollScheduler::listen(request);
    assert!(scheduler.poll_request().is_some());
    scheduler.stop();
    assert!(!scheduler.is_running());
    assert_eq!(scheduler.poll_request(), None);
}

#[test]
fn tick_plan_carries_the_captured_queue_url() {
    let request = ReceiveMessageRequest {
        queue_url: "https://queue.example/q9".to_string(),
        wait_time_seconds: None,
    };
    let scheduler = PollScheduler::listen(request);
    let result = ReceiveMessageResult {
        messages: Some(vec![message("1", Some("r1"))]),
    };
    let plan = scheduler.on_tick(&Ok(result));
    assert_eq!(
        plan[1],
        Action::DeleteMessage(DeleteMessageRequest {
            queue_url: "https://queue.example/q9".to_string(),
            receipt_handle: "r1".to_string(),
        })
    );
}

#[test]
fn default_request_is_unbound_and_has_no_wait() {
    let request = ReceiveMessageRequest::default();
    assert_eq!(request.queue_url, String::new());
    assert_eq!(request.wait_time_seconds, None);
}

#[test]
fn handler_error_is_a_plain_marker() {
    let e = HandlerError;
    let e2 = e.clone();
    assert_eq!(e, e2);
    assert_eq!(format!("{:?}", e2), "HandlerError");
}
