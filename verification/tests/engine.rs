use fixclient::fixapi::{DispatchOutcome, FixApi, LogonStep, Request};
use fixclient::response::{Field, FixField, ResponseMessage};
use fixclient::types::{Error, Phase, SubID};

fn new_engine(sub_id: SubID, heartbeat_interval: Option<u32>) -> FixApi {
    FixApi::new(
        sub_id,
        "h1.example.test".to_string(),
        "login1".to_string(),
        "pass1".to_string(),
        "broker1".to_string(),
        heartbeat_interval,
    )
}

fn response(msg_type: &str, fields: Vec<(u32, &str)>, raw: &str) -> ResponseMessage {
    let mut fs = Vec::new();
    for (tag, value) in fields {
        fs.push(FixField::new(tag, value.to_string()));
    }
    ResponseMessage::new(msg_type.to_string(), fs, raw.to_string())
}

#[test]
fn new_engine_starts_idle_and_disconnected() {
    let api = new_engine(SubID::QUOTE, None);
    assert!(!api.is_connected());
    assert_eq!(api.current_phase(), Phase::Idle);
    assert_eq!(api.config().heart_beat(), 30);
    assert_eq!(api.config().host().as_str(), "h1.example.test");
    assert_eq!(api.config().login().as_str(), "login1");
    assert_eq!(api.config().broker().as_str(), "broker1");
    assert_eq!(api.sub_id(), SubID::QUOTE);
    assert_eq!(api.stored_responses().len(), 0);
}

#[test]
fn heartbeat_interval_is_configurable() {
    let api = new_engine(SubID::TRADE, Some(1));
    assert_eq!(api.config().heart_beat(), 1);
}

#[test]
fn endpoint_selects_port_by_sub_identity() {
    let quote = new_engine(SubID::QUOTE, None);
    let (host, port) = quote.endpoint();
    assert_eq!(host.as_str(), "h1.example.test");
    assert_eq!(port, 5201);

    let trade = new_engine(SubID::TRADE, None);
    let (_, port) = trade.endpoint();
    assert_eq!(port, 5202);
}

#[test]
fn disconnect_without_connect_is_safe_and_idempotent() {
    let mut api = new_engine(SubID::QUOTE, None);
    assert!(api.disconnect().is_ok());
    assert!(!api.is_connected());
    assert!(api.disconnect().is_ok());
    assert!(!api.is_connected());
}

#[test]
fn send_without_connection_fails_but_counts_the_attempt() {
    let mut api = new_engine(SubID::QUOTE, None);
    let r = api.send_message(Request::Logout);
    assert_eq!(r.unwrap_err(), Error::IOError);
    // The failed attempt consumed sequence number 1: the first delivered
    // send observes 2.
    let notify = api.on_connected();
    assert!(!notify);
    let o = api.send_message(Request::Logout).unwrap();
    assert_eq!(o.seq, 2);
}

#[test]
fn sequence_numbers_are_consecutive_from_one() {
    let mut api = new_engine(SubID::QUOTE, None);
    api.on_connected();
    let mut seen = Vec::new();
    for _ in 0..5 {
        let o = api
            .send_message(Request::Heartbeat { test_req_id: None })
            .unwrap();
        seen.push(o.seq);
    }
    assert_eq!(seen, vec![1, 2, 3, 4, 5]);
}

#[test]
fn logon_waits_for_ack_and_discards_other_traffic() {
    let mut api = new_engine(SubID::QUOTE, None);
    api.on_connected();
    let o = api.logon_start().unwrap();
    assert!(matches!(o.req, Request::Logon));
    assert_eq!(o.seq, 1);
    assert_eq!(api.current_phase(), Phase::AwaitingLogonAck);

    // Unrelated traffic while awaiting the ack is discarded: the session
    // must not become active.
    for msg_type in ["0", "W", "5"] {
        let step = api.logon_response(&response(msg_type, vec![], "x"));
        assert!(matches!(step, LogonStep::Discard));
        assert_eq!(api.current_phase(), Phase::AwaitingLogonAck);
    }

    let step = api.logon_response(&response("A", vec![], "logon-ack"));
    assert!(matches!(
        step,
        LogonStep::Activated {
            notify_logon: false
        }
    ));
    assert_eq!(api.current_phase(), Phase::Active);
}

#[test]
fn logon_before_connect_fails_and_stays_idle() {
    let mut api = new_engine(SubID::QUOTE, None);
    let r = api.logon_start();
    assert_eq!(r.unwrap_err(), Error::IOError);
    assert_eq!(api.current_phase(), Phase::Idle);
}

#[test]
fn handler_registration_is_reported_on_lifecycle_steps() {
    let mut api = new_engine(SubID::QUOTE, None);
    api.register_connection_handler();
    let notify = api.on_connected();
    assert!(notify);
    api.logon_start().unwrap();
    let step = api.logon_response(&response("A", vec![], "logon-ack"));
    assert!(matches!(
        step,
        LogonStep::Activated { notify_logon: true }
    ));
}

fn active_engine() -> FixApi {
    let mut api = new_engine(SubID::QUOTE, None);
    api.on_connected();
    api.logon_start().unwrap();
    api.logon_response(&response("A", vec![], "logon-ack"));
    api
}

#[test]
fn test_request_is_answered_by_one_heartbeat_echoing_the_id() {
    let mut api = active_engine();
    // The logon consumed sequence number 1.
    let msg = response("1", vec![(112, "Q1")], "test-request");
    let outcome = api.dispatch_response(msg);
    match outcome {
        DispatchOutcome::Reply(o) => {
            assert_eq!(o.seq, 2);
            match o.req {
                Request::Heartbeat { test_req_id } => {
                    assert_eq!(test_req_id.unwrap().as_str(), "Q1")
                }
                _ => panic!("reply must be a heartbeat"),
            }
        }
        _ => panic!("a test-request must be answered"),
    }
    // Exactly one sequence number was consumed by the reply.
    let o = api.heartbeat().unwrap();
    assert_eq!(o.seq, 3);
    // The control message was not archived.
    assert_eq!(api.stored_responses().len(), 0);
}

#[test]
fn test_request_without_id_is_ignored() {
    let mut api = active_engine();
    let outcome = api.dispatch_response(response("1", vec![(58, "note")], "test-request"));
    assert!(matches!(outcome, DispatchOutcome::Ignored));
    assert_eq!(api.stored_responses().len(), 0);
    // No sequence number was consumed.
    let o = api.heartbeat().unwrap();
    assert_eq!(o.seq, 2);
}

#[test]
fn other_responses_are_archived_in_order() {
    let mut api = active_engine();
    let a = api.dispatch_response(response("W", vec![(55, "EURUSD")], "md-snapshot"));
    assert!(matches!(a, DispatchOutcome::Stored));
    let b = api.dispatch_response(response("X", vec![], "md-update"));
    assert!(matches!(b, DispatchOutcome::Stored));
    let stored = api.stored_responses();
    assert_eq!(stored.len(), 2);
    assert_eq!(stored[0].get_message(), "md-snapshot");
    assert_eq!(stored[0].get_message_type(), "W");
    assert_eq!(stored[1].get_message(), "md-update");
}

#[test]
fn field_lookup_returns_first_match() {
    let msg = response("1", vec![(58, "a"), (112, "first"), (112, "second")], "x");
    assert_eq!(msg.get_field_value(Field::TestReqID).unwrap().as_str(), "first");
    let bare = response("1", vec![(58, "a")], "x");
    assert!(bare.get_field_value(Field::TestReqID).is_none());
}

#[test]
fn two_cycles_keep_counting_sequence_numbers() {
    let mut api = new_engine(SubID::TRADE, None);

    // First cycle: false -> true -> false.
    assert!(!api.is_connected());
    api.on_connected();
    assert!(api.is_connected());
    let o1 = api.logon_start().unwrap();
    assert_eq!(o1.seq, 1);
    api.logon_response(&response("A", vec![], "logon-ack"));
    api.disconnect().unwrap();
    assert!(!api.is_connected());
    assert_eq!(api.current_phase(), Phase::Idle);

    // Second cycle: false -> true -> false, counter not reset to 1.
    api.on_connected();
    assert!(api.is_connected());
    let o2 = api.logon_start().unwrap();
    assert_eq!(o2.seq, 2);
    api.logon_response(&response("A", vec![], "logon-ack"));
    api.disconnect().unwrap();
    assert!(!api.is_connected());
}

#[test]
fn heartbeat_ticks_emit_one_heartbeat_each() {
    let mut api = new_engine(SubID::QUOTE, Some(1));
    api.on_connected();
    api.logon_start().unwrap();
    api.logon_response(&response("A", vec![], "logon-ack"));
    // Five ticks of the timer: five emissions, consecutively numbered.
    let mut seqs = Vec::new();
    for _ in 0..5 {
        let o = api.heartbeat().unwrap();
        assert!(matches!(
            o.req,
            Request::Heartbeat { test_req_id: None }
        ));
        seqs.push(o.seq);
    }
    assert_eq!(seqs, vec![2, 3, 4, 5, 6]);
    assert_eq!(api.current_phase(), Phase::Active);
}

#[test]
fn logout_sends_and_keeps_state() {
    let mut api = active_engine();
    let o = api.logout().unwrap();
    assert!(matches!(o.req, Request::Logout));
    assert_eq!(api.current_phase(), Phase::Active);
    assert!(api.is_connected());
}
