use segment_clock::command::Command;
use segment_clock::text::Text;
use segment_clock::usb::{
    ControlHandler, InDecision, OutDecision, OutResponse, Recipient, Request, RequestType,
    UsbRequest,
};

const HANDLER: ControlHandler = ControlHandler { if_num: 3 };

fn vendor(request: u8, value: u16) -> Request {
    Request {
        request_type: RequestType::Vendor,
        recipient: Recipient::Interface,
        request,
        value,
        index: 3,
        length: 5,
    }
}

#[test]
fn requests_have_their_codes() {
    let known = [
        (0, UsbRequest::SetClock),
        (1, UsbRequest::SetDate),
        (2, UsbRequest::SetAlarm),
        (10, UsbRequest::GetClock),
        (11, UsbRequest::GetDate),
        (12, UsbRequest::GetAlarm),
        (20, UsbRequest::EnableAlarm),
        (21, UsbRequest::DisableAlarm),
        (22, UsbRequest::IsAlarmEnabled),
        (30, UsbRequest::Display),
    ];
    for code in 0..=255u8 {
        let expected = known.iter().find(|entry| entry.0 == code).map(|entry| entry.1);
        assert_eq!(UsbRequest::try_from(code).ok(), expected);
        if let Some(request) = expected {
            assert_eq!(request.to_code(), code);
        }
    }
}

#[test]
fn values_hold_two_bytes() {
    let value = 0x173b;
    assert_eq!(
        HANDLER.control_out(&vendor(0, value), &[]),
        OutDecision::Forward(Command::SetClock(23, 59))
    );
    assert_eq!(
        HANDLER.control_out(&vendor(1, 0x0c1f), &[]),
        OutDecision::Forward(Command::SetDate(12, 31))
    );
    assert_eq!(
        HANDLER.control_out(&vendor(2, 0xff00), &[]),
        OutDecision::Forward(Command::SetAlarm(255, 0))
    );
}

#[test]
fn alarm_is_switched_by_request() {
    let enable = HANDLER.control_out(&vendor(20, 0), &[]);
    assert_eq!(enable, OutDecision::Forward(Command::EnableAlarm));
    let disable = HANDLER.control_out(&vendor(21, 0), &[]);
    assert_eq!(disable, OutDecision::Forward(Command::DisableAlarm));
}

#[test]
fn text_is_passed_on() {
    let decision = HANDLER.control_out(&vendor(30, 0), b"hello");
    let text = Text::from_slice(b"hello").unwrap();
    assert_eq!(decision, OutDecision::Forward(Command::Display(text)));
}

#[test]
fn text_may_fill_the_buffer_but_not_more() {
    let bytes = [b'x'; 65];
    let full = HANDLER.control_out(&vendor(30, 0), &bytes[..64]);
    let text = Text::from_slice(&bytes[..64]).unwrap();
    assert_eq!(full, OutDecision::Forward(Command::Display(text)));
    assert_eq!(HANDLER.control_out(&vendor(30, 0), &bytes), OutDecision::Unhandled);
}

#[test]
fn questions_are_refused_as_commands() {
    for code in [10, 11, 12, 22] {
        assert_eq!(HANDLER.control_out(&vendor(code, 0), &[]), OutDecision::Rejected);
    }
}

#[test]
fn unknown_and_foreign_requests_are_left_alone() {
    assert_eq!(HANDLER.control_out(&vendor(3, 0), &[]), OutDecision::Unhandled);
    for request_type in [RequestType::Standard, RequestType::Class, RequestType::Reserved] {
        let req = Request { request_type, ..vendor(0, 0) };
        assert_eq!(HANDLER.control_out(&req, &[]), OutDecision::Unhandled);
    }
    for recipient in [
        Recipient::Device,
        Recipient::Endpoint,
        Recipient::Other,
        Recipient::Reserved,
    ] {
        let req = Request { recipient, ..vendor(0, 0) };
        assert_eq!(HANDLER.control_out(&req, &[]), OutDecision::Unhandled);
        assert_eq!(HANDLER.control_in(&req, &mut [0; 8]), InDecision::Unhandled);
    }
}

#[test]
fn commands_to_other_interfaces_are_taken() {
    let req = Request { index: 9, ..vendor(20, 0) };
    assert_eq!(HANDLER.control_out(&req, &[]), OutDecision::Forward(Command::EnableAlarm));
}

#[test]
fn answer_tells_whether_there_was_room() {
    assert_eq!(HANDLER.forwarded(true), OutResponse::Accepted);
    assert_eq!(HANDLER.forwarded(false), OutResponse::Rejected);
}

#[test]
fn greeting_is_given_to_those_who_ask() {
    let mut buf = [9u8; 7];
    let req = vendor(101, 201);
    assert_eq!(HANDLER.decide_in(&req), InDecision::Accepted(5));
    assert_eq!(HANDLER.control_in(&req, &mut buf), InDecision::Accepted(5));
    assert_eq!(&buf, b"hello\x09\x09");
}

#[test]
fn other_questions_are_refused() {
    let refused = [
        vendor(101, 200),
        vendor(100, 201),
        vendor(10, 0),
        Request { length: 4, ..vendor(101, 201) },
    ];
    for req in refused {
        let mut buf = [9u8; 2];
        assert_eq!(HANDLER.control_in(&req, &mut buf), InDecision::Rejected);
        assert_eq!(buf, [9, 9]);
    }
    let req = Request { index: 4, ..vendor(101, 201) };
    assert_eq!(HANDLER.control_in(&req, &mut [0; 5]), InDecision::Unhandled);
}
