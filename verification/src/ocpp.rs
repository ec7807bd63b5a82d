//! The OCPP 1.6 side of the charger service: reading OCPP-J frames
//! `[MessageTypeId, UniqueId, Action, Payload]`, answering a BootNotification,
//! and the decisions of the server's and the charger's socket loops.

use vstd::prelude::*;
use crate::clock::{read_clock, ClockReading, UtcTime, MAX_UTC_SECS};
use crate::json::{
    json_as_i64, json_as_str, json_of_text, json_of_value, json_to_text, number_of_i64,
    parse_json, text_of_json, value_of_json, Json,
};
use rust_ocpp::v1_6::messages::boot_notification::{
    BootNotificationRequest as WireBootRequest, BootNotificationResponse as WireBootResponse,
};
use rust_ocpp::v1_6::types::RegistrationStatus as WireStatus;
use crate::bcd::is_lower_hex_digit;
use crate::text::str_eq;

verus! {

/// The registration status of a BootNotification answer.
#[derive(Debug, Clone, Copy, PartialEq, Eq, Structural)]
pub enum RegistrationStatus {
    Accepted,
    Pending,
    Rejected,
}

/// What a charger reports about itself at boot.
#[derive(Debug)]
pub struct BootNotificationRequest {
    pub charge_box_serial_number: Option<String>,
    pub charge_point_model: String,
    pub charge_point_serial_number: Option<String>,
    pub charge_point_vendor: String,
    pub firmware_version: Option<String>,
    pub iccid: Option<String>,
    pub imsi: Option<String>,
    pub meter_serial_number: Option<String>,
    pub meter_type: Option<String>,
}

/// The central system's answer to a BootNotification.
#[derive(Debug)]
pub struct BootNotificationResponse {
    pub current_time: UtcTime,
    pub interval: u32,
    pub status: RegistrationStatus,
}

/// The heartbeat interval given to a charger: 30 seconds, or 20 for one that
/// reports no SIM card (no ICCID).
pub open spec fn boot_interval(request: BootNotificationRequest) -> u32 {
    if request.iccid is None {
        20
    } else {
        30
    }
}

/// The answer to a BootNotification at the given time: accepted, with the
/// heartbeat interval that fits the charger.
pub fn boot_notification_response(request: &BootNotificationRequest, now: UtcTime) -> (res:
    BootNotificationResponse)
    ensures
        res.current_time == now,
        res.interval == boot_interval(*request),
        res.status == RegistrationStatus::Accepted,
{
    let mut interval: u32 = 30;
    if request.iccid.is_none() {
        interval = 20;
    }
    BootNotificationResponse {
        current_time: now,
        interval: interval,
        status: RegistrationStatus::Accepted,
    }
}

/// The answer to a BootNotification, stamped with the current time.
pub fn handle_boot_notification(request: &BootNotificationRequest) -> (res:
    BootNotificationResponse)
    ensures
        0 <= res.current_time.secs <= MAX_UTC_SECS,
        res.current_time.nanos < 1_000_000_000,
        res.interval == boot_interval(*request),
        res.status == RegistrationStatus::Accepted,
        exists|c: ClockReading| #[trigger] c.time() == res.current_time,
{
    let reading = read_clock();
    let now = reading.value();
    boot_notification_response(request, now)
}

/// The boot report that the test charger sends: empty model and vendor, no
/// optional fields.
pub fn initial_boot_request() -> (res: BootNotificationRequest)
    ensures
        res.charge_box_serial_number is None,
        res.charge_point_model@ == Seq::<char>::empty(),
        res.charge_point_serial_number is None,
        res.charge_point_vendor@ == Seq::<char>::empty(),
        res.firmware_version is None,
        res.iccid is None,
        res.imsi is None,
        res.meter_serial_number is None,
        res.meter_type is None,
{
    BootNotificationRequest {
        charge_box_serial_number: None,
        charge_point_model: String::new(),
        charge_point_serial_number: None,
        charge_point_vendor: String::new(),
        firmware_version: None,
        iccid: None,
        imsi: None,
        meter_serial_number: None,
        meter_type: None,
    }
}

/// What the server does with an incoming frame.
#[derive(Debug)]
pub enum OcppAction {
    /// Not an array of at least three items: nothing to do.
    Ignore,
    /// A BootNotification call, with its payload.
    BootNotification(Json),
    /// A call with an action the server does not handle.
    UnsupportedAction(String),
    /// A frame whose message type is not a call.
    UnsupportedMessageType(i64),
}

/// `OcppAction` with its texts as character sequences.
pub enum OcppActionView {
    Ignore,
    BootNotification(Json),
    UnsupportedAction(Seq<char>),
    UnsupportedMessageType(i64),
}

impl View for OcppAction {
    type V = OcppActionView;

    open spec fn view(&self) -> OcppActionView {
        match self {
            OcppAction::Ignore => OcppActionView::Ignore,
            OcppAction::BootNotification(p) => OcppActionView::BootNotification(*p),
            OcppAction::UnsupportedAction(a) => OcppActionView::UnsupportedAction(a@),
            OcppAction::UnsupportedMessageType(t) => OcppActionView::UnsupportedMessageType(*t),
        }
    }
}

/// A frame the server reads without failing: anything but an array of three
/// or more items, or such an array whose first item is an integer and whose
/// second and third are strings, with a fourth item (the payload) when it is
/// a BootNotification call.
pub open spec fn ocpp_frame_readable(message: Json) -> bool {
    match message {
        Json::Array(items) => items@.len() >= 3 ==> {
            &&& json_as_i64(items@[0]) is Some
            &&& json_as_str(items@[1]) is Some
            &&& json_as_str(items@[2]) is Some
            &&& (json_as_i64(items@[0]) == Some(2i64) && json_as_str(items@[2]) == Some(
                "BootNotification"@,
            )) ==> items@.len() >= 4
        },
        _ => true,
    }
}

/// What the server does with a readable frame.
pub open spec fn ocpp_action(message: Json) -> OcppActionView {
    match message {
        Json::Array(items) => {
            if items@.len() >= 3 {
                let message_type_id = json_as_i64(items@[0]).unwrap();
                let action = json_as_str(items@[2]).unwrap();
                if message_type_id == 2 {
                    if action == "BootNotification"@ {
                        OcppActionView::BootNotification(items@[3])
                    } else {
                        OcppActionView::UnsupportedAction(action)
                    }
                } else {
                    OcppActionView::UnsupportedMessageType(message_type_id)
                }
            } else {
                OcppActionView::Ignore
            }
        },
        _ => OcppActionView::Ignore,
    }
}

/// Whether the server can read a frame without failing.
pub fn is_readable_frame(message: &Json) -> (res: bool)
    ensures
        res == ocpp_frame_readable(*message),
{
    match message {
        Json::Array(items) => {
            if items.len() < 3 {
                return true;
            }
            let message_type_id = items[0].as_i64();
            if message_type_id.is_none() || items[1].as_str().is_none() {
                return false;
            }
            match items[2].as_str() {
                None => false,
                Some(action) => {
                    if message_type_id == Some(2i64) && str_eq(action, "BootNotification") {
                        items.len() >= 4
                    } else {
                        true
                    }
                },
            }
        },
        _ => true,
    }
}

/// Reads an incoming frame and decides what to do with it.
pub fn handle_ocpp_message(message: Json) -> (res: OcppAction)
    requires
        ocpp_frame_readable(message),
    ensures
        res@ == ocpp_action(message),
{
    match message {
        Json::Array(mut items) => {
            if items.len() >= 3 {
                let message_type_id = items[0].as_i64().unwrap();
                let _message_id = items[1].as_str().unwrap();
                let action = String::from_str(items[2].as_str().unwrap());
                if message_type_id == 2 {
                    if str_eq(action.as_str(), "BootNotification") {
                        let payload = items.remove(3);
                        OcppAction::BootNotification(payload)
                    } else {
                        OcppAction::UnsupportedAction(action)
                    }
                } else {
                    OcppAction::UnsupportedMessageType(message_type_id)
                }
            } else {
                OcppAction::Ignore
            }
        },
        _ => OcppAction::Ignore,
    }
}

/// An array frame of three or more items whose first item is an integer other
/// than 2 (the call type), and whose next two are strings, is readable and is
/// answered as an unsupported message type, under that integer, whatever it is.
pub proof fn lemma_other_message_types_unsupported(message: Json, t: i64)
    requires
        message is Array,
        message->Array_0@.len() >= 3,
        json_as_i64(message->Array_0@[0]) == Some(t),
        t != 2,
        json_as_str(message->Array_0@[1]) is Some,
        json_as_str(message->Array_0@[2]) is Some,
    ensures
        ocpp_frame_readable(message),
        ocpp_action(message) == OcppActionView::UnsupportedMessageType(t),
{
}

/// A readable frame is ignored exactly when it is not an array of three or
/// more items; a call (type 2) is a BootNotification with its fourth item as
/// payload when its action is "BootNotification", and otherwise an unsupported
/// action under the action's name.
pub proof fn lemma_call_dispatch(message: Json, action: Seq<char>)
    requires
        ocpp_frame_readable(message),
    ensures
        (ocpp_action(message) is Ignore) <==> !(message is Array && message->Array_0@.len() >= 3),
        message is Array && message->Array_0@.len() >= 3 && json_as_i64(message->Array_0@[0])
            == Some(2i64) && json_as_str(message->Array_0@[2]) == Some(action) ==> (
        if action == "BootNotification"@ {
            ocpp_action(message) == OcppActionView::BootNotification(message->Array_0@[3])
        } else {
            ocpp_action(message) == OcppActionView::UnsupportedAction(action)
        }),
{
}

/// An OCPP-J call frame `[2, message_id, action, payload]`.
pub open spec fn is_call_frame(
    frame: Json,
    message_id: Seq<char>,
    action: Seq<char>,
    payload: Json,
) -> bool {
    match frame {
        Json::Array(items) => {
            &&& items@.len() == 4
            &&& items@[0] matches Json::Number(n) && n.int_value() == Some(2i64)
            &&& json_as_str(items@[1]) == Some(message_id)
            &&& json_as_str(items@[2]) == Some(action)
            &&& items@[3] == payload
        },
        _ => false,
    }
}

/// Builds the call frame `[2, message_id, action, payload]`.
pub fn ocpp_call(message_id: String, action: String, payload: Json) -> (frame: Json)
    ensures
        is_call_frame(frame, message_id@, action@, payload),
{
    let mut items: Vec<Json> = Vec::new();
    items.push(Json::Number(number_of_i64(2)));
    items.push(Json::String(message_id));
    items.push(Json::String(action));
    items.push(payload);
    Json::Array(items)
}

/// A UUID in its hyphenated text form: 36 characters, lower-case hex digits
/// in groups of 8, 4, 4, 4 and 12 separated by hyphens.
pub open spec fn is_hyphenated_uuid(s: Seq<char>) -> bool {
    &&& s.len() == 36
    &&& forall|i: int|
        0 <= i < 36 ==> if i == 8 || i == 13 || i == 18 || i == 23 {
            #[trigger] s[i] == '-'
        } else {
            is_lower_hex_digit(s[i])
        }
}

/// A random (version 4, RFC 4122 variant) UUID in hyphenated text form: the
/// version digit is '4' and the variant digit is one of '8', '9', 'a', 'b'.
pub open spec fn is_v4_uuid_text(s: Seq<char>) -> bool {
    &&& is_hyphenated_uuid(s)
    &&& s[14] == '4'
    &&& (s[19] == '8' || s[19] == '9' || s[19] == 'a' || s[19] == 'b')
}

/// `uuid::Uuid::new_v4().to_string()`: a fresh random message id. Which id
/// comes out is chance; every outcome is a version 4 UUID in the hyphenated
/// lower-case form that `Uuid`'s `Display` writes.
#[verifier::external_body]
fn new_message_id() -> (res: String)
    ensures
        is_v4_uuid_text(res@),
{
    uuid::Uuid::new_v4().to_string()
}

/// The BootNotification call that a charger sends, under a fresh random
/// message id.
pub fn boot_notification_call(payload: Json) -> (frame: Json)
    ensures
        exists|id: Seq<char>|
            is_v4_uuid_text(id) && #[trigger] is_call_frame(
                frame,
                id,
                "BootNotification"@,
                payload,
            ),
{
    let id = new_message_id();
    let ghost id_text = id@;
    let action = String::from_str("BootNotification");
    let frame = ocpp_call(id, action, payload);
    assert(is_call_frame(frame, id_text, "BootNotification"@, payload));
    frame
}

/// A call frame is always readable, and the server reads it back as the call
/// that was built: a BootNotification with its payload, or an unsupported
/// action under its name.
pub proof fn lemma_call_frame_dispatch(
    frame: Json,
    message_id: Seq<char>,
    action: Seq<char>,
    payload: Json,
)
    requires
        is_call_frame(frame, message_id, action, payload),
    ensures
        ocpp_frame_readable(frame),
        action == "BootNotification"@ ==> ocpp_action(frame) == OcppActionView::BootNotification(
            payload,
        ),
        action != "BootNotification"@ ==> ocpp_action(frame) == OcppActionView::UnsupportedAction(
            action,
        ),
{
}

/// An event on the server's socket to one charger.
#[derive(Debug)]
pub enum SocketEvent {
    /// A text message.
    Text(String),
    /// Any other message (binary, ping, pong, close).
    NonText,
    /// The socket failed.
    Error,
}

/// What the server's socket loop does next.
#[derive(Debug)]
pub enum SocketAction {
    /// Read the text as an OCPP frame.
    Handle(String),
    /// Wait for the next message.
    Skip,
    /// Stop serving this charger.
    Close,
}

/// One step of the server's loop over a charger's socket.
pub fn ocpp_connection_step(event: SocketEvent) -> (res: SocketAction)
    ensures
        match event {
            SocketEvent::Text(t) => res matches SocketAction::Handle(h) && h@ == t@,
            SocketEvent::NonText => res is Skip,
            SocketEvent::Error => res is Close,
        },
{
    match event {
        SocketEvent::Text(text) => SocketAction::Handle(text),
        SocketEvent::NonText => SocketAction::Skip,
        SocketEvent::Error => SocketAction::Close,
    }
}

/// An event in the test charger's loop.
#[derive(Debug)]
pub enum ChargerEvent {
    /// A text message from the central system.
    Text(String),
    /// The central system closed the socket.
    Close,
    /// Reading the socket failed.
    Error,
    /// Any other message.
    Other,
    /// The ping timer fired.
    Tick,
}

/// What the test charger does next.
#[derive(Debug)]
pub enum ChargerAction {
    /// Read the text as a BootNotification answer.
    ReadResponse(String),
    /// Leave the loop.
    Stop,
    /// Report the failure and go on.
    Report,
    /// Nothing to do.
    Ignore,
    /// Send a ping.
    SendPing,
}

/// One step of the test charger's loop.
pub fn ocpp_client_step(event: ChargerEvent) -> (res: ChargerAction)
    ensures
        match event {
            ChargerEvent::Text(t) => res matches ChargerAction::ReadResponse(r) && r@ == t@,
            ChargerEvent::Close => res is Stop,
            ChargerEvent::Error => res is Report,
            ChargerEvent::Other => res is Ignore,
            ChargerEvent::Tick => res is SendPing,
        },
{
    match event {
        ChargerEvent::Text(text) => ChargerAction::ReadResponse(text),
        ChargerEvent::Close => ChargerAction::Stop,
        ChargerEvent::Error => ChargerAction::Report,
        ChargerEvent::Other => ChargerAction::Ignore,
        ChargerEvent::Tick => ChargerAction::SendPing,
    }
}

/// Always an empty text.
pub fn check() -> (res: Option<String>)
    ensures
        res matches Some(s) && s@ == Seq::<char>::empty(),
{
    Some(String::new())
}

/// Passes on what `check` gives.
pub fn test() -> (res: Option<String>)
    ensures
        res matches Some(s) && s@ == Seq::<char>::empty(),
{
    let result = check()?;
    Some(result)
}

/// The request that `serde_json::from_value` reads from a payload into
/// `rust_ocpp`'s `BootNotificationRequest` (camel-case member names, the
/// model and vendor required), carried over field for field.
pub uninterp spec fn boot_request_of_json(payload: Json) -> Option<BootNotificationRequest>;

/// The payload that `serde_json::to_value` writes for a request, as
/// `rust_ocpp`'s `BootNotificationRequest`.
pub uninterp spec fn json_of_boot_request(request: BootNotificationRequest) -> Json;

/// The answer that `serde_json::from_str` reads from a text into `rust_ocpp`'s
/// `BootNotificationResponse`, carried over field for field (the time as its
/// seconds and sub-second nanoseconds).
pub uninterp spec fn boot_response_of_text(text: Seq<char>) -> Option<BootNotificationResponse>;

/// The text that `serde_json::to_string` writes for an answer as `rust_ocpp`'s
/// `BootNotificationResponse`; `None` where chrono cannot hold its time.
pub uninterp spec fn text_of_boot_response(response: BootNotificationResponse) -> Option<
    Seq<char>,
>;

/// `serde_json::from_value` into `rust_ocpp`'s `BootNotificationRequest`,
/// carried over into the library's request; `None` where the payload is not
/// such a request.
#[verifier::external_body]
pub fn decode_boot_request(payload: Json) -> (res: Option<BootNotificationRequest>)
    ensures
        res == boot_request_of_json(payload),
{
    let wire: WireBootRequest = serde_json::from_value(value_of_json(payload)).ok()?;
    Some(BootNotificationRequest {
        charge_box_serial_number: wire.charge_box_serial_number,
        charge_point_model: wire.charge_point_model,
        charge_point_serial_number: wire.charge_point_serial_number,
        charge_point_vendor: wire.charge_point_vendor,
        firmware_version: wire.firmware_version,
        iccid: wire.iccid,
        imsi: wire.imsi,
        meter_serial_number: wire.meter_serial_number,
        meter_type: wire.meter_type,
    })
}

/// `serde_json::to_value` of the request as `rust_ocpp`'s
/// `BootNotificationRequest`. A struct of texts always serialises.
#[verifier::external_body]
pub fn encode_boot_request(request: BootNotificationRequest) -> (res: Json)
    ensures
        res == json_of_boot_request(request),
{
    let wire = WireBootRequest {
        charge_box_serial_number: request.charge_box_serial_number,
        charge_point_model: request.charge_point_model,
        charge_point_serial_number: request.charge_point_serial_number,
        charge_point_vendor: request.charge_point_vendor,
        firmware_version: request.firmware_version,
        iccid: request.iccid,
        imsi: request.imsi,
        meter_serial_number: request.meter_serial_number,
        meter_type: request.meter_type,
    };
    json_of_value(serde_json::to_value(&wire).expect("a struct of texts serialises"))
}

/// `serde_json::from_str` into `rust_ocpp`'s `BootNotificationResponse`,
/// carried over into the library's answer; `None` where the text is not such
/// an answer.
#[verifier::external_body]
pub fn parse_boot_response(text: &str) -> (res: Option<BootNotificationResponse>)
    ensures
        res == boot_response_of_text(text@),
{
    let wire: WireBootResponse = serde_json::from_str(text).ok()?;
    let status = match wire.status {
        WireStatus::Accepted => RegistrationStatus::Accepted,
        WireStatus::Pending => RegistrationStatus::Pending,
        WireStatus::Rejected => RegistrationStatus::Rejected,
    };
    let secs = wire.current_time.timestamp();
    let nanos = wire.current_time.timestamp_subsec_nanos();
    Some(BootNotificationResponse { current_time: UtcTime { secs, nanos }, interval: wire.interval, status })
}

/// `serde_json::to_string` of the answer as `rust_ocpp`'s
/// `BootNotificationResponse`, its time made by `chrono::DateTime::from_timestamp`;
/// `None` where that gives no time. A time from the epoch up to chrono's last
/// second, with fewer than a second's nanoseconds, is always a time, and such
/// an answer always serialises.
#[verifier::external_body]
pub fn encode_boot_response(response: &BootNotificationResponse) -> (res: Option<String>)
    ensures
        match res {
            Some(t) => text_of_boot_response(*response) == Some(t@),
            None => text_of_boot_response(*response) is None,
        },
        0 <= response.current_time.secs <= MAX_UTC_SECS && response.current_time.nanos
            < 1_000_000_000 ==> res is Some,
{
    let time = &response.current_time;
    let current_time = chrono::DateTime::from_timestamp(time.secs, time.nanos)?;
    let status = match response.status {
        RegistrationStatus::Accepted => WireStatus::Accepted,
        RegistrationStatus::Pending => WireStatus::Pending,
        RegistrationStatus::Rejected => WireStatus::Rejected,
    };
    serde_json::to_string(&WireBootResponse { current_time, interval: response.interval, status }).ok()
}

/// Why an incoming frame text is refused (the server fails on it).
#[derive(Debug, Clone, Copy, PartialEq, Eq, Structural)]
pub enum FrameError {
    /// The text is not JSON.
    NotJson,
    /// The document is not a readable frame.
    Malformed,
}

/// Reads an incoming frame text and decides what to do with it: the text is
/// read as JSON, then dispatched as `handle_ocpp_message` does.
pub fn handle_ocpp_text(message: &str) -> (res: Result<OcppAction, FrameError>)
    ensures
        match json_of_text(message@) {
            None => res matches Err(e) && e == FrameError::NotJson,
            Some(v) => if ocpp_frame_readable(v) {
                res matches Ok(a) && a@ == ocpp_action(v)
            } else {
                res matches Err(e) && e == FrameError::Malformed
            },
        },
{
    match parse_json(message) {
        None => Err(FrameError::NotJson),
        Some(frame) => {
            if is_readable_frame(&frame) {
                Ok(handle_ocpp_message(frame))
            } else {
                Err(FrameError::Malformed)
            }
        },
    }
}

/// Why a BootNotification payload gets no answer (the server fails).
#[derive(Debug, Clone, Copy, PartialEq, Eq, Structural)]
pub enum BootError {
    /// The payload is not a BootNotification request.
    NotARequest,
}

/// The answer to a request at a given time.
pub open spec fn boot_answer(request: BootNotificationRequest, now: UtcTime) -> BootNotificationResponse {
    BootNotificationResponse {
        current_time: now,
        interval: boot_interval(request),
        status: RegistrationStatus::Accepted,
    }
}

/// Answers a BootNotification payload with the text of the answer, stamped
/// with the current time (a time from the epoch up to chrono's last second).
/// Every request is answered.
pub fn boot_notification_reply(payload: Json) -> (res: Result<String, BootError>)
    ensures
        match boot_request_of_json(payload) {
            None => res matches Err(e) && e == BootError::NotARequest,
            Some(r) => res matches Ok(t) && (exists|now: UtcTime|
                0 <= now.secs <= MAX_UTC_SECS && now.nanos < 1_000_000_000
                    && #[trigger] text_of_boot_response(boot_answer(r, now)) == Some(t@)) && (
            exists|c: ClockReading|
                text_of_boot_response(boot_answer(r, #[trigger] c.time())) == Some(t@)),
        },
{
    match decode_boot_request(payload) {
        None => Err(BootError::NotARequest),
        Some(request) => {
            let response = handle_boot_notification(&request);
            assert(response == boot_answer(request, response.current_time));
            let text = encode_boot_response(&response).unwrap();
            assert(text_of_boot_response(boot_answer(request, response.current_time)) == Some(text@));
            Ok(text)
        },
    }
}

/// The text of the BootNotification call that a charger sends for a request,
/// under a fresh random message id.
pub fn boot_notification_text(request: BootNotificationRequest) -> (res: String)
    ensures
        exists|frame: Json, id: Seq<char>|
            is_v4_uuid_text(id) && #[trigger] is_call_frame(
                frame,
                id,
                "BootNotification"@,
                json_of_boot_request(request),
            ) && res@ == text_of_json(frame),
{
    let payload = encode_boot_request(request);
    let frame = boot_notification_call(payload);
    let ghost sent = frame;
    let res = json_to_text(frame);
    proof {
        let id = choose|id: Seq<char>|
            is_v4_uuid_text(id) && #[trigger] is_call_frame(
                sent,
                id,
                "BootNotification"@,
                json_of_boot_request(request),
            );
        assert(is_call_frame(sent, id, "BootNotification"@, json_of_boot_request(request)));
    }
    res
}

} // verus!
