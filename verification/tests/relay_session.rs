use ledger_client::codec::Response;
use ledger_client::relay::{
    classify_query, encode_reply, parse_envelope, relay_step, EnvelopeData, QueryKind,
    RelayAction, RelayEvent, RelayState,
};
use ledger_client::Error;

fn message(text: &str) -> RelayEvent {
    RelayEvent::Message { env: parse_envelope(text).unwrap(), raw: text.to_string() }
}

#[test]
fn classify_each_query_word() {
    assert_eq!(classify_query("exchange"), QueryKind::Exchange);
    assert_eq!(classify_query("bulk"), QueryKind::Bulk);
    assert_eq!(classify_query("success"), QueryKind::Success);
    assert_eq!(classify_query("error"), QueryKind::Error);
    assert_eq!(classify_query("warning"), QueryKind::Warning);
    assert_eq!(classify_query("exchangeX"), QueryKind::Other);
    assert_eq!(classify_query(""), QueryKind::Other);
}

#[test]
fn envelope_single_command() {
    let env = parse_envelope("{\"query\":\"exchange\",\"nonce\":7,\"data\":\"e001000000\"}")
        .unwrap();
    assert_eq!(env.query, "exchange");
    assert_eq!(env.nonce, 7);
    assert!(matches!(env.data, EnvelopeData::Single(s) if s == "e001000000"));
}

#[test]
fn envelope_command_list() {
    let env = parse_envelope("{\"query\":\"bulk\",\"nonce\":2,\"data\":[\"aa\",\"\",\"bb\"]}")
        .unwrap();
    assert_eq!(env.query, "bulk");
    assert_eq!(env.nonce, 2);
    match env.data {
        EnvelopeData::Multi(l) => assert_eq!(l, vec!["aa", "", "bb"]),
        _ => panic!("expected a command list"),
    }
}

#[test]
fn envelope_data_absent_or_null() {
    let env = parse_envelope("{\"query\":\"success\",\"nonce\":1}").unwrap();
    assert!(matches!(env.data, EnvelopeData::Absent));
    let env = parse_envelope("{\"query\":\"success\",\"nonce\":1,\"data\":null}").unwrap();
    assert!(matches!(env.data, EnvelopeData::Absent));
}

#[test]
fn envelope_rejects_what_does_not_fit() {
    for text in [
        "not json at all",
        "{\"nonce\":1}",
        "{\"query\":\"success\"}",
        "{\"query\":7,\"nonce\":1}",
        "{\"query\":\"success\",\"nonce\":\"one\"}",
        "{\"query\":\"success\",\"nonce\":-2}",
        "{\"query\":\"success\",\"nonce\":4294967296}",
        "{\"query\":\"exchange\",\"nonce\":1,\"data\":17}",
        "{\"query\":\"bulk\",\"nonce\":1,\"data\":[\"aa\",3]}",
    ] {
        assert_eq!(parse_envelope(text).unwrap_err(), Error::UnsupportedFrame);
    }
    // The largest nonce that still fits is kept as it is.
    let env = parse_envelope("{\"query\":\"success\",\"nonce\":4294967295}").unwrap();
    assert_eq!(env.nonce, 4294967295);
}

#[test]
fn reply_text_is_exact() {
    assert_eq!(
        encode_reply(7, true, "ab"),
        "{\"nonce\":7,\"response\":\"success\",\"data\":\"ab\"}"
    );
    assert_eq!(
        encode_reply(0, false, ""),
        "{\"nonce\":0,\"response\":\"error\",\"data\":\"\"}"
    );
    assert_eq!(
        encode_reply(4294967295, true, "00ff"),
        "{\"nonce\":4294967295,\"response\":\"success\",\"data\":\"00ff\"}"
    );
}

#[test]
fn exchange_success_round() {
    // The device answers status 0x9000 with payload 0xAB: the reply says
    // success and carries the payload in hexadecimal.
    let ev = message("{\"query\":\"exchange\",\"nonce\":7,\"data\":\"e001000000\"}");
    let (state, action) = relay_step(RelayState::Listening, ev);
    match &action {
        RelayAction::Exchange { command } => {
            assert_eq!(command.cla, 0xe0);
            assert_eq!(command.ins, 0x01);
            assert!(command.data.is_empty());
        },
        _ => panic!("expected a device exchange"),
    }
    assert!(matches!(state, RelayState::AwaitingExchange { nonce: 7 }));
    let reply_event = RelayEvent::DeviceReply {
        response: Response { status: 0x9000, payload: vec![0xab] },
    };
    let (state, action) = relay_step(state, reply_event);
    assert!(matches!(state, RelayState::Listening));
    match action {
        RelayAction::Send { reply } => {
            assert_eq!(reply, "{\"nonce\":7,\"response\":\"success\",\"data\":\"ab\"}");
        },
        _ => panic!("expected a reply"),
    }
}

#[test]
fn exchange_device_error_is_soft() {
    // A non-success status is reported in the reply and the session
    // continues listening.
    let ev = message("{\"query\":\"exchange\",\"nonce\":3,\"data\":\"e001000000\"}");
    let (state, _) = relay_step(RelayState::Listening, ev);
    let (state, action) = relay_step(
        state,
        RelayEvent::DeviceReply { response: Response { status: 0x6982, payload: vec![0x01] } },
    );
    assert!(matches!(state, RelayState::Listening));
    match action {
        RelayAction::Send { reply } => {
            assert_eq!(reply, "{\"nonce\":3,\"response\":\"error\",\"data\":\"01\"}");
        },
        _ => panic!("expected a reply"),
    }
}

#[test]
fn exchange_transport_failure_is_fatal() {
    let ev = message("{\"query\":\"exchange\",\"nonce\":3,\"data\":\"e001000000\"}");
    let (state, _) = relay_step(RelayState::Listening, ev);
    let (state, action) = relay_step(state, RelayEvent::DeviceFailed);
    assert!(matches!(state, RelayState::Finished));
    assert!(matches!(action, RelayAction::Fail { error: Error::TransportError }));
}

#[test]
fn exchange_needs_a_single_command() {
    let ev = message("{\"query\":\"exchange\",\"nonce\":3,\"data\":[\"e001000000\"]}");
    let (state, action) = relay_step(RelayState::Listening, ev);
    assert!(matches!(state, RelayState::Finished));
    assert!(matches!(action, RelayAction::Fail { error: Error::ProtocolViolation }));
    let ev = message("{\"query\":\"exchange\",\"nonce\":3}");
    let (_, action) = relay_step(RelayState::Listening, ev);
    assert!(matches!(action, RelayAction::Fail { error: Error::ProtocolViolation }));
}

#[test]
fn exchange_with_bad_command_fails() {
    let ev = message("{\"query\":\"exchange\",\"nonce\":3,\"data\":\"zz\"}");
    let (state, action) = relay_step(RelayState::Listening, ev);
    assert!(matches!(state, RelayState::Finished));
    assert!(matches!(action, RelayAction::Fail { error: Error::MalformedCommand }));
}

#[test]
fn bulk_runs_commands_in_order_and_skips_empty() {
    let ev = message(
        "{\"query\":\"bulk\",\"nonce\":9,\"data\":[\"\",\"e001000000\",\"\",\"e0de000000\"]}",
    );
    let (state, action) = relay_step(RelayState::Listening, ev);
    match &action {
        RelayAction::Exchange { command } => assert_eq!(command.ins, 0x01),
        _ => panic!("expected the first command at the device"),
    }
    let reply = RelayEvent::DeviceReply {
        response: Response { status: 0x9000, payload: vec![] },
    };
    let (state, action) = relay_step(state, reply);
    match &action {
        RelayAction::Exchange { command } => assert_eq!(command.ins, 0xde),
        _ => panic!("expected the second command at the device"),
    }
    let reply = RelayEvent::DeviceReply {
        response: Response { status: 0x6700, payload: vec![] },
    };
    // The device status is not read in bulk mode: only transport failures
    // count there.
    let (state, action) = relay_step(state, reply);
    assert!(matches!(state, RelayState::Listening));
    match action {
        RelayAction::Send { reply } => {
            assert_eq!(reply, "{\"nonce\":9,\"response\":\"success\",\"data\":\"\"}");
        },
        _ => panic!("expected the completion reply"),
    }
}

#[test]
fn bulk_of_empty_commands_completes_at_once() {
    let ev = message("{\"query\":\"bulk\",\"nonce\":5,\"data\":[\"\",\"\"]}");
    let (state, action) = relay_step(RelayState::Listening, ev);
    assert!(matches!(state, RelayState::Listening));
    match action {
        RelayAction::Send { reply } => {
            assert_eq!(reply, "{\"nonce\":5,\"response\":\"success\",\"data\":\"\"}");
        },
        _ => panic!("expected the completion reply"),
    }
}

#[test]
fn bulk_transport_failure_aborts_session() {
    // One failing sub-command aborts the whole session before any
    // completion message is sent.
    let ev = message("{\"query\":\"bulk\",\"nonce\":9,\"data\":[\"e001000000\",\"e0de000000\"]}");
    let (state, action) = relay_step(RelayState::Listening, ev);
    assert!(matches!(action, RelayAction::Exchange { .. }));
    let (state, action) = relay_step(state, RelayEvent::DeviceFailed);
    assert!(matches!(state, RelayState::Finished));
    assert!(matches!(action, RelayAction::Fail { error: Error::TransportError }));
}

#[test]
fn bulk_with_malformed_command_fails() {
    let ev = message("{\"query\":\"bulk\",\"nonce\":9,\"data\":[\"e001000000\",\"zz\"]}");
    let (state, _) = relay_step(RelayState::Listening, ev);
    let reply = RelayEvent::DeviceReply {
        response: Response { status: 0x9000, payload: vec![] },
    };
    let (state, action) = relay_step(state, reply);
    assert!(matches!(state, RelayState::Finished));
    assert!(matches!(action, RelayAction::Fail { error: Error::MalformedCommand }));
}

#[test]
fn bulk_needs_a_command_list() {
    let ev = message("{\"query\":\"bulk\",\"nonce\":9,\"data\":\"e001000000\"}");
    let (_, action) = relay_step(RelayState::Listening, ev);
    assert!(matches!(action, RelayAction::Fail { error: Error::ProtocolViolation }));
}

#[test]
fn success_query_ends_session() {
    let ev = message("{\"query\":\"success\",\"nonce\":1}");
    let (state, action) = relay_step(RelayState::Listening, ev);
    assert!(matches!(state, RelayState::Finished));
    assert!(matches!(action, RelayAction::FinishSuccess));
}

#[test]
fn error_query_ends_session_with_the_frame() {
    let text = "{\"query\":\"error\",\"nonce\":1,\"data\":\"details\"}";
    let (state, action) = relay_step(RelayState::Listening, message(text));
    assert!(matches!(state, RelayState::Finished));
    match action {
        RelayAction::FinishRemoteError { raw } => assert_eq!(raw, text),
        _ => panic!("expected the remote error outcome"),
    }
}

#[test]
fn warning_query_continues_session() {
    let text = "{\"query\":\"warning\",\"nonce\":1}";
    let (state, action) = relay_step(RelayState::Listening, message(text));
    assert!(matches!(state, RelayState::Listening));
    match action {
        RelayAction::Warn { raw } => assert_eq!(raw, text),
        _ => panic!("expected a warning"),
    }
}

#[test]
fn unknown_query_ends_session_without_reply() {
    let ev = message("{\"query\":\"frobnicate\",\"nonce\":1}");
    let (state, action) = relay_step(RelayState::Listening, ev);
    assert!(matches!(state, RelayState::Finished));
    assert!(matches!(action, RelayAction::Fail { error: Error::UnsupportedQuery }));
}

#[test]
fn non_text_frame_ends_session() {
    let (state, action) = relay_step(RelayState::Listening, RelayEvent::NonTextFrame);
    assert!(matches!(state, RelayState::Finished));
    assert!(matches!(action, RelayAction::Fail { error: Error::UnsupportedFrame }));
}

#[test]
fn channel_failure_ends_session() {
    let (state, action) = relay_step(RelayState::Listening, RelayEvent::ChannelFailed);
    assert!(matches!(state, RelayState::Finished));
    assert!(matches!(action, RelayAction::Fail { error: Error::ChannelError }));
}
