use qapi_mux::connection::await_outcome;
use qapi_mux::connection::Connection;
use qapi_mux::connection::Outcome;
use qapi_mux::errors::DecodeFault;
use qapi_mux::errors::ProtocolError;
use qapi_mux::errors::TransportFault;
use qapi_mux::message::CommandResult;
use qapi_mux::message::RawMessage;
use qapi_mux::pending::PendingTable;

/// Reduces one JSON line to the message shape the engine reads, the way the
/// unverified codec layer around the engine does.
fn raw_from_line(line: &str) -> RawMessage {
    let v: serde_json::Value = serde_json::from_str(line).unwrap();
    let obj = v.as_object().unwrap();
    let event = obj
        .get("event")
        .and_then(|e| e.as_str())
        .map(|s| s.to_string());
    let id = obj.get("id").and_then(|i| i.as_u64());
    let ret = obj.get("return").map(|r| r.to_string());
    let error = obj.get("error").map(|e| ProtocolError {
        class: e
            .get("class")
            .and_then(|c| c.as_str())
            .unwrap_or("")
            .to_string(),
        desc: e
            .get("desc")
            .and_then(|d| d.as_str())
            .unwrap_or("")
            .to_string(),
    });
    RawMessage {
        event,
        id,
        ret,
        error,
    }
}

fn success(payload: &str) -> CommandResult {
    CommandResult::Success {
        payload: payload.to_string(),
    }
}

#[test]
fn non_oob_single_slot() {
    let mut c: Connection<u32> = Connection::new(false);
    assert!(c.can_issue());
    let id = c.issue(7);
    assert!(id.is_none());
    assert_eq!(c.pending.len(), 1);
    // The single slot is taken: no second command may be issued.
    assert!(!c.can_issue());
    let r = c.process_response(None, success("{}"));
    let res = r.unwrap();
    assert_eq!(res.id, 0);
    assert_eq!(res.handle, 7);
    assert_eq!(c.pending.len(), 0);
    assert!(c.can_issue());
}

#[test]
fn oob_ids_strictly_increase() {
    let mut c: Connection<u32> = Connection::new(true);
    assert_eq!(c.issue(10), Some(0));
    assert_eq!(c.issue(11), Some(1));
    assert_eq!(c.issue(12), Some(2));
    assert_eq!(c.pending.len(), 3);
    assert!(c.pending.contains(0));
    assert!(c.pending.contains(1));
    assert!(c.pending.contains(2));
}

#[test]
fn reply_round_trip_and_unknown_second() {
    let mut c: Connection<u32> = Connection::new(true);
    let id = c.issue(7).unwrap();
    let r = c.process_response(Some(id), success("{}"));
    let res = r.unwrap();
    assert_eq!(res.id, id);
    assert_eq!(res.handle, 7);
    match res.result {
        CommandResult::Success { payload } => assert_eq!(payload, "{}"),
        CommandResult::Failure { .. } => panic!("expected a success result"),
    }
    assert!(!c.pending.contains(id));
    // A second reply under the same id must not double-resolve.
    let r2 = c.process_response(Some(id), success("{}"));
    assert!(matches!(r2, Err(DecodeFault::UnknownId { id: k }) if k == id));
}

#[test]
fn shutdown_fails_each_outstanding_once() {
    let mut c: Connection<u32> = Connection::new(true);
    c.issue(100);
    c.issue(200);
    c.issue(300);
    let abandoned = c.shutdown();
    assert_eq!(abandoned.len(), 3);
    assert_eq!(abandoned[0], (0, 100));
    assert_eq!(abandoned[1], (1, 200));
    assert_eq!(abandoned[2], (2, 300));
    assert_eq!(c.pending.len(), 0);
    // A second teardown delivers nothing more.
    let again = c.shutdown();
    assert_eq!(again.len(), 0);
}

#[test]
fn ping_non_oob_round_trip() {
    let mut c: Connection<u32> = Connection::new(false);
    let id = c.issue(1);
    assert!(id.is_none());
    let raw = raw_from_line("{\"return\":{}}");
    let r = c.process_message(raw);
    match r.unwrap() {
        Outcome::Resolved { resolution } => {
            assert_eq!(resolution.id, 0);
            assert_eq!(resolution.handle, 1);
            match resolution.result {
                CommandResult::Success { payload } => assert_eq!(payload, "{}"),
                CommandResult::Failure { .. } => panic!("expected a success result"),
            }
        }
        Outcome::Notification { .. } => panic!("expected a reply"),
    }
    assert_eq!(c.pending.len(), 0);
}

#[test]
fn oob_out_of_order_replies() {
    let mut c: Connection<u32> = Connection::new(true);
    let id_a = c.issue(100).unwrap();
    let id_b = c.issue(200).unwrap();
    assert_eq!((id_a, id_b), (0, 1));
    // B's reply arrives first and resolves B's caller alone.
    let line_b = format!("{{\"id\":{},\"return\":{}}}", id_b, "{}");
    match c.process_message(raw_from_line(&line_b)).unwrap() {
        Outcome::Resolved { resolution } => {
            assert_eq!(resolution.id, id_b);
            assert_eq!(resolution.handle, 200);
        }
        Outcome::Notification { .. } => panic!("expected a reply"),
    }
    assert!(c.pending.contains(id_a));
    assert!(!c.pending.contains(id_b));
    // A's reply arrives second and still resolves correctly.
    let line_a = format!("{{\"id\":{},\"return\":{}}}", id_a, "{}");
    match c.process_message(raw_from_line(&line_a)).unwrap() {
        Outcome::Resolved { resolution } => {
            assert_eq!(resolution.id, id_a);
            assert_eq!(resolution.handle, 100);
        }
        Outcome::Notification { .. } => panic!("expected a reply"),
    }
    assert_eq!(c.pending.len(), 0);
}

#[test]
fn missing_id_is_decode_fault() {
    let mut c: Connection<u32> = Connection::new(true);
    c.issue(7);
    let r = c.process_response(None, success("{}"));
    assert!(matches!(r, Err(DecodeFault::MissingId)));
    assert_eq!(c.pending.len(), 1);
}

#[test]
fn unexpected_id_is_decode_fault() {
    let mut c: Connection<u32> = Connection::new(false);
    c.issue(7);
    let r = c.process_response(Some(3), success("{}"));
    assert!(matches!(r, Err(DecodeFault::UnexpectedId { id: 3 })));
    assert_eq!(c.pending.len(), 1);
}

#[test]
fn unknown_id_is_decode_fault() {
    let mut c: Connection<u32> = Connection::new(true);
    let r = c.process_response(Some(5), success("{}"));
    assert!(matches!(r, Err(DecodeFault::UnknownId { id: 5 })));
}

#[test]
fn malformed_lines_are_decode_faults() {
    let mut c: Connection<u32> = Connection::new(true);
    // Neither a notification marker nor a result.
    let empty = RawMessage {
        event: None,
        id: None,
        ret: None,
        error: None,
    };
    assert!(matches!(c.process_message(empty), Err(DecodeFault::Malformed)));
    // Both a success payload and an error.
    let both = RawMessage {
        event: None,
        id: Some(0),
        ret: Some("{}".to_string()),
        error: Some(ProtocolError {
            class: "GenericError".to_string(),
            desc: "boom".to_string(),
        }),
    };
    assert!(matches!(c.process_message(both), Err(DecodeFault::Malformed)));
    // A notification marker next to a result.
    let mixed = RawMessage {
        event: Some("POWERDOWN".to_string()),
        id: None,
        ret: Some("{}".to_string()),
        error: None,
    };
    assert!(matches!(c.process_message(mixed), Err(DecodeFault::Malformed)));
}

#[test]
fn notification_is_never_matched_against_table() {
    let mut c: Connection<u32> = Connection::new(true);
    c.issue(7);
    let raw = raw_from_line("{\"event\":\"POWERDOWN\"}");
    match c.process_message(raw).unwrap() {
        Outcome::Notification { event } => assert_eq!(event, "POWERDOWN"),
        Outcome::Resolved { .. } => panic!("expected a notification"),
    }
    assert_eq!(c.pending.len(), 1);
}

#[test]
fn protocol_error_reply_resolves_as_failure() {
    let mut c: Connection<u32> = Connection::new(false);
    c.issue(9);
    let raw = raw_from_line("{\"error\":{\"class\":\"CommandNotFound\",\"desc\":\"unknown\"}}");
    match c.process_message(raw).unwrap() {
        Outcome::Resolved { resolution } => match resolution.result {
            CommandResult::Failure { error } => {
                assert_eq!(error.class, "CommandNotFound");
                assert_eq!(error.desc, "unknown");
            }
            CommandResult::Success { .. } => panic!("expected a failure result"),
        },
        Outcome::Notification { .. } => panic!("expected a reply"),
    }
    assert_eq!(c.pending.len(), 0);
}

#[test]
fn abandoned_await_is_a_disconnection() {
    let r = await_outcome(None);
    assert!(matches!(r, Err(TransportFault::Disconnected)));
    let r = await_outcome(Some(success("{}")));
    match r {
        Ok(CommandResult::Success { payload }) => assert_eq!(payload, "{}"),
        _ => panic!("expected the fulfilled result to pass through"),
    }
}

#[test]
fn duplicate_insert_leaves_table_unchanged() {
    let mut t: PendingTable<u32> = PendingTable::new();
    assert!(t.insert(5, 1).is_ok());
    let r = t.insert(5, 2);
    assert_eq!(r, Err(2));
    assert_eq!(t.len(), 1);
    assert_eq!(t.remove(5), Some(1));
    assert!(t.is_empty());
}

#[test]
fn drain_hands_back_entries_in_order() {
    let mut t: PendingTable<u32> = PendingTable::new();
    t.insert(2, 20).unwrap();
    t.insert(0, 0).unwrap();
    t.insert(7, 70).unwrap();
    let all = t.drain();
    assert_eq!(all, vec![(2, 20), (0, 0), (7, 70)]);
    assert!(t.is_empty());
}
