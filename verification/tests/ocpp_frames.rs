use netplay::clock::{UtcTime, MAX_UTC_SECS};
use netplay::json::{json_to_text, number_of_i64, parse_json, Json};
use netplay::ocpp::{
    boot_notification_call, boot_notification_response, check, handle_boot_notification,
    handle_ocpp_message, initial_boot_request, is_readable_frame, ocpp_call, ocpp_client_step,
    ocpp_connection_step, BootNotificationRequest, ChargerAction, ChargerEvent, OcppAction,
    RegistrationStatus, SocketAction, SocketEvent, boot_notification_reply, boot_notification_text,
    decode_boot_request, encode_boot_request, encode_boot_response, handle_ocpp_text,
    parse_boot_response, BootError, BootNotificationResponse, FrameError,
};

fn integer(v: i64) -> Json {
    Json::Number(number_of_i64(v))
}

fn text(v: &str) -> Json {
    Json::String(v.to_string())
}

fn payload() -> Json {
    Json::Object(vec![
        ("chargePointModel".to_string(), text("M1")),
        ("chargePointVendor".to_string(), text("V1")),
    ])
}

fn request(iccid: Option<&str>) -> BootNotificationRequest {
    BootNotificationRequest {
        charge_box_serial_number: None,
        charge_point_model: "M1".to_string(),
        charge_point_serial_number: None,
        charge_point_vendor: "V1".to_string(),
        firmware_version: None,
        iccid: iccid.map(|s| s.to_string()),
        imsi: None,
        meter_serial_number: None,
        meter_type: None,
    }
}

#[test]
fn boot_notification_call_is_dispatched_with_payload() {
    let frame = Json::Array(vec![integer(2), text("19223201"), text("BootNotification"), payload()]);
    assert!(is_readable_frame(&frame));
    match handle_ocpp_message(frame) {
        OcppAction::BootNotification(Json::Object(members)) => {
            assert_eq!(members.len(), 2);
            assert_eq!(members[0].0, "chargePointModel");
        },
        other => panic!("unexpected {:?}", other),
    }
}

#[test]
fn other_action_is_unsupported() {
    let frame = Json::Array(vec![integer(2), text("1"), text("Heartbeat"), Json::Object(vec![])]);
    match handle_ocpp_message(frame) {
        OcppAction::UnsupportedAction(a) => assert_eq!(a, "Heartbeat"),
        other => panic!("unexpected {:?}", other),
    }
}

#[test]
fn three_item_call_with_other_action_is_readable() {
    let frame = Json::Array(vec![integer(2), text("1"), text("Heartbeat")]);
    assert!(is_readable_frame(&frame));
    match handle_ocpp_message(frame) {
        OcppAction::UnsupportedAction(a) => assert_eq!(a, "Heartbeat"),
        other => panic!("unexpected {:?}", other),
    }
}

#[test]
fn non_call_message_type_is_unsupported() {
    let frame = Json::Array(vec![integer(3), text("1"), text("BootNotification")]);
    match handle_ocpp_message(frame) {
        OcppAction::UnsupportedMessageType(t) => assert_eq!(t, 3),
        other => panic!("unexpected {:?}", other),
    }
}

#[test]
fn short_array_and_non_array_are_ignored() {
    assert!(matches!(handle_ocpp_message(Json::Array(vec![integer(2), text("1")])), OcppAction::Ignore));
    assert!(matches!(handle_ocpp_message(text("hello")), OcppAction::Ignore));
    assert!(matches!(handle_ocpp_message(Json::Null), OcppAction::Ignore));
}

#[test]
fn unreadable_frames_are_recognised() {
    assert!(!is_readable_frame(&Json::Array(vec![text("2"), text("1"), text("x")])));
    assert!(!is_readable_frame(&Json::Array(vec![integer(2), integer(1), text("x")])));
    assert!(!is_readable_frame(&Json::Array(vec![integer(2), text("1"), Json::Null])));
    assert!(!is_readable_frame(&Json::Array(vec![integer(2), text("1"), text("BootNotification")])));
    let float = parse_json("2.5").unwrap();
    assert!(!is_readable_frame(&Json::Array(vec![float, text("1"), text("x")])));
}

#[test]
fn boot_interval_depends_on_iccid() {
    let now = UtcTime { secs: 1_700_000_000, nanos: 5 };
    let with_sim = boot_notification_response(&request(Some("8931")), now);
    assert_eq!(with_sim.interval, 30);
    assert_eq!(with_sim.status, RegistrationStatus::Accepted);
    assert_eq!(with_sim.current_time, now);
    let without_sim = boot_notification_response(&request(None), now);
    assert_eq!(without_sim.interval, 20);
    assert_eq!(without_sim.status, RegistrationStatus::Accepted);
}

#[test]
fn boot_answer_is_stamped_now() {
    let answer = handle_boot_notification(&request(None));
    assert_eq!(answer.interval, 20);
    assert_eq!(answer.status, RegistrationStatus::Accepted);
    assert!(answer.current_time.secs > 1_600_000_000);
}

#[test]
fn initial_request_is_empty() {
    let r = initial_boot_request();
    assert_eq!(r.charge_point_model, "");
    assert_eq!(r.charge_point_vendor, "");
    assert!(r.iccid.is_none() && r.imsi.is_none() && r.firmware_version.is_none());
}

#[test]
fn built_call_frame_reads_back_as_the_call() {
    let frame = ocpp_call("abc".to_string(), "BootNotification".to_string(), payload());
    match &frame {
        Json::Array(items) => {
            assert_eq!(items.len(), 4);
            match &items[0] {
                Json::Number(n) => {
                    assert_eq!(n.as_i64(), Some(2));
                },
                other => panic!("unexpected {:?}", other),
            }
        },
        other => panic!("unexpected {:?}", other),
    }
    assert!(matches!(handle_ocpp_message(frame), OcppAction::BootNotification(Json::Object(_))));
    let frame = ocpp_call("abc".to_string(), "Heartbeat".to_string(), Json::Null);
    assert_eq!(json_to_text(frame), r#"[2,"abc","Heartbeat",null]"#);
}

#[test]
fn boot_call_has_fresh_uuid_id() {
    let frame = boot_notification_call(Json::Null);
    match &frame {
        Json::Array(items) => match &items[1] {
            Json::String(id) => {
                assert_eq!(id.len(), 36);
                assert_eq!(id.chars().nth(14), Some('4'));
                assert!(matches!(id.chars().nth(19), Some('8' | '9' | 'a' | 'b')));
                for (i, c) in id.chars().enumerate() {
                    if i == 8 || i == 13 || i == 18 || i == 23 {
                        assert_eq!(c, '-');
                    } else {
                        assert!(c.is_ascii_digit() || ('a'..='f').contains(&c));
                    }
                }
            },
            other => panic!("unexpected {:?}", other),
        },
        other => panic!("unexpected {:?}", other),
    }
    assert!(matches!(handle_ocpp_message(frame), OcppAction::BootNotification(Json::Null)));
}

#[test]
fn server_socket_steps() {
    assert!(matches!(ocpp_connection_step(SocketEvent::Text("x".to_string())), SocketAction::Handle(t) if t == "x"));
    assert!(matches!(ocpp_connection_step(SocketEvent::NonText), SocketAction::Skip));
    assert!(matches!(ocpp_connection_step(SocketEvent::Error), SocketAction::Close));
}

#[test]
fn charger_loop_steps() {
    assert!(matches!(ocpp_client_step(ChargerEvent::Text("{}".to_string())), ChargerAction::ReadResponse(t) if t == "{}"));
    assert!(matches!(ocpp_client_step(ChargerEvent::Close), ChargerAction::Stop));
    assert!(matches!(ocpp_client_step(ChargerEvent::Error), ChargerAction::Report));
    assert!(matches!(ocpp_client_step(ChargerEvent::Other), ChargerAction::Ignore));
    assert!(matches!(ocpp_client_step(ChargerEvent::Tick), ChargerAction::SendPing));
}

#[test]
fn check_and_test_give_empty_text() {
    assert_eq!(check(), Some(String::new()));
    assert_eq!(netplay::ocpp::test(), Some(String::new()));
}

#[test]
fn frame_text_is_read_and_dispatched() {
    let text = r#"[2,"19223201","BootNotification",{"chargePointVendor":"V","chargePointModel":"M"}]"#;
    match handle_ocpp_text(text) {
        Ok(OcppAction::BootNotification(payload)) => {
            let request = decode_boot_request(payload).unwrap();
            assert_eq!(request.charge_point_vendor, "V");
            assert_eq!(request.charge_point_model, "M");
            assert!(request.iccid.is_none());
        },
        other => panic!("unexpected {:?}", other),
    }
    assert!(matches!(handle_ocpp_text(r#"[2,"1","Heartbeat",{}]"#), Ok(OcppAction::UnsupportedAction(a)) if a == "Heartbeat"));
    assert!(matches!(handle_ocpp_text(r#"[3,"1","x"]"#), Ok(OcppAction::UnsupportedMessageType(3))));
    assert!(matches!(handle_ocpp_text(r#"{"a":1}"#), Ok(OcppAction::Ignore)));
}

#[test]
fn unreadable_frame_texts_are_refused() {
    assert!(matches!(handle_ocpp_text("[2,"), Err(FrameError::NotJson)));
    assert!(matches!(handle_ocpp_text(r#"["2","1","x"]"#), Err(FrameError::Malformed)));
    assert!(matches!(handle_ocpp_text(r#"[2,"1","BootNotification"]"#), Err(FrameError::Malformed)));
}

#[test]
fn boot_payload_needs_model_and_vendor() {
    let payload = parse_json(r#"{"chargePointVendor":"V"}"#).unwrap();
    assert!(decode_boot_request(payload).is_none());
    let payload = parse_json(r#"{"chargePointVendor":"V","chargePointModel":"M","iccid":"8931"}"#).unwrap();
    assert_eq!(decode_boot_request(payload).unwrap().iccid.as_deref(), Some("8931"));
}

#[test]
fn request_encodes_as_camel_case_object() {
    let json = encode_boot_request(request(Some("8931")));
    assert_eq!(json.get("chargePointModel").and_then(|v| v.as_str()), Some("M1"));
    assert_eq!(json.get("chargePointVendor").and_then(|v| v.as_str()), Some("V1"));
    assert_eq!(json.get("iccid").and_then(|v| v.as_str()), Some("8931"));
    assert!(json.get("imsi").is_none());
    let back = decode_boot_request(json).unwrap();
    assert_eq!(back.charge_point_model, "M1");
    assert_eq!(back.iccid.as_deref(), Some("8931"));
}

#[test]
fn boot_answer_text_round_trips() {
    let answer = BootNotificationResponse {
        current_time: UtcTime { secs: 1_700_000_000, nanos: 0 },
        interval: 20,
        status: RegistrationStatus::Accepted,
    };
    let text = encode_boot_response(&answer).unwrap();
    assert!(text.contains("\"interval\":20"));
    assert!(text.contains("\"status\":\"Accepted\""));
    assert!(text.contains("2023-11-14T22:13:20"));
    let back = parse_boot_response(&text).unwrap();
    assert_eq!(back.current_time, answer.current_time);
    assert_eq!(back.interval, 20);
    assert_eq!(back.status, RegistrationStatus::Accepted);
    assert!(parse_boot_response("{}").is_none());
}

#[test]
fn boot_payload_is_answered_with_text() {
    let payload = parse_json(r#"{"chargePointVendor":"V","chargePointModel":"M"}"#).unwrap();
    let text = boot_notification_reply(payload).unwrap();
    let answer = parse_boot_response(&text).unwrap();
    assert_eq!(answer.interval, 20);
    assert_eq!(answer.status, RegistrationStatus::Accepted);
    assert!(answer.current_time.secs > 1_600_000_000);
    assert_eq!(boot_notification_reply(Json::Null).unwrap_err(), BootError::NotARequest);
}

#[test]
fn boot_call_text_is_a_readable_frame() {
    let text = boot_notification_text(initial_boot_request());
    assert!(text.starts_with("[2,\""));
    match handle_ocpp_text(&text) {
        Ok(OcppAction::BootNotification(payload)) => {
            let request = decode_boot_request(payload).unwrap();
            assert_eq!(request.charge_point_model, "");
            assert!(request.iccid.is_none());
        },
        other => panic!("unexpected {:?}", other),
    }
}

#[test]
fn answer_times_up_to_the_last_second_are_written() {
    let at = |secs: i64, nanos: u32| BootNotificationResponse {
        current_time: UtcTime { secs, nanos },
        interval: 30,
        status: RegistrationStatus::Pending,
    };
    assert!(encode_boot_response(&at(0, 0)).is_some());
    assert!(encode_boot_response(&at(MAX_UTC_SECS, 999_999_999)).is_some());
    assert!(encode_boot_response(&at(MAX_UTC_SECS + 1, 0)).is_none());
    let text = encode_boot_response(&at(MAX_UTC_SECS, 0)).unwrap();
    assert_eq!(parse_boot_response(&text).unwrap().current_time.secs, MAX_UTC_SECS);
}
