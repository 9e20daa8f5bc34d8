//! Control requests from a USB host.

use crate::command::Command;
use crate::text::{Text, TEXT_CAPACITY};
use vstd::prelude::*;

verus! {

/// Who defined a request.
#[derive(Copy, Clone, PartialEq, Eq, Structural, Debug)]
pub enum RequestType {
    Standard,
    Class,
    Vendor,
    Reserved,
}

/// Whom a request is for.
#[derive(Copy, Clone, PartialEq, Eq, Structural, Debug)]
pub enum Recipient {
    Device,
    Interface,
    Endpoint,
    Other,
    Reserved,
}

/// A control request.
#[derive(Copy, Clone, PartialEq, Eq, Structural, Debug)]
pub struct Request {
    pub request_type: RequestType,
    pub recipient: Recipient,
    pub request: u8,
    pub value: u16,
    pub index: u16,
    pub length: u16,
}

/// The requests that the clock knows.
#[derive(Copy, Clone, PartialEq, Eq, Structural, Debug)]
pub enum UsbRequest {
    SetClock,
    SetDate,
    SetAlarm,
    GetClock,
    GetDate,
    GetAlarm,
    EnableAlarm,
    DisableAlarm,
    IsAlarmEnabled,
    Display,
}

impl UsbRequest {
    /// The code of a request.
    pub open spec fn code(self) -> u8 {
        match self {
            UsbRequest::SetClock => 0,
            UsbRequest::SetDate => 1,
            UsbRequest::SetAlarm => 2,
            UsbRequest::GetClock => 10,
            UsbRequest::GetDate => 11,
            UsbRequest::GetAlarm => 12,
            UsbRequest::EnableAlarm => 20,
            UsbRequest::DisableAlarm => 21,
            UsbRequest::IsAlarmEnabled => 22,
            UsbRequest::Display => 30,
        }
    }

    /// The code of a request.
    pub fn to_code(self) -> (r: u8)
        ensures
            r == self.code(),
    {
        match self {
            UsbRequest::SetClock => 0,
            UsbRequest::SetDate => 1,
            UsbRequest::SetAlarm => 2,
            UsbRequest::GetClock => 10,
            UsbRequest::GetDate => 11,
            UsbRequest::GetAlarm => 12,
            UsbRequest::EnableAlarm => 20,
            UsbRequest::DisableAlarm => 21,
            UsbRequest::IsAlarmEnabled => 22,
            UsbRequest::Display => 30,
        }
    }

    /// The request with a code, if there is one.
    pub open spec fn with_code(code: u8) -> Result<UsbRequest, ()> {
        match code {
            0 => Ok(UsbRequest::SetClock),
            1 => Ok(UsbRequest::SetDate),
            2 => Ok(UsbRequest::SetAlarm),
            10 => Ok(UsbRequest::GetClock),
            11 => Ok(UsbRequest::GetDate),
            12 => Ok(UsbRequest::GetAlarm),
            20 => Ok(UsbRequest::EnableAlarm),
            21 => Ok(UsbRequest::DisableAlarm),
            22 => Ok(UsbRequest::IsAlarmEnabled),
            30 => Ok(UsbRequest::Display),
            _ => Err(()),
        }
    }
}

impl TryFrom<u8> for UsbRequest {
    type Error = ();

    fn try_from(value: u8) -> (r: Result<Self, Self::Error>) {
        match value {
            0 => Ok(UsbRequest::SetClock),
            1 => Ok(UsbRequest::SetDate),
            2 => Ok(UsbRequest::SetAlarm),
            10 => Ok(UsbRequest::GetClock),
            11 => Ok(UsbRequest::GetDate),
            12 => Ok(UsbRequest::GetAlarm),
            20 => Ok(UsbRequest::EnableAlarm),
            21 => Ok(UsbRequest::DisableAlarm),
            22 => Ok(UsbRequest::IsAlarmEnabled),
            30 => Ok(UsbRequest::Display),
            _ => Err(()),
        }
    }
}

impl vstd::std_specs::convert::TryFromSpecImpl<u8> for UsbRequest {
    open spec fn obeys_try_from_spec() -> bool {
        true
    }

    open spec fn try_from_spec(value: u8) -> Result<Self, ()> {
        UsbRequest::with_code(value)
    }
}

/// Codes and requests belong to each other one to one.
pub proof fn codes_are_unique(code: u8, request: UsbRequest)
    ensures
        UsbRequest::with_code(code) == Ok::<UsbRequest, ()>(request) <==> code == request.code(),
{
}

/// What to do about a request that sends data to the clock.
#[derive(Debug, PartialEq, Eq)]
pub enum OutDecision {
    /// Leave it to others.
    Unhandled,
    /// Refuse it.
    Rejected,
    /// Pass the command on, and answer by whether that worked.
    Forward(Command),
}

/// What to do about a request that asks the clock for data.
#[derive(Copy, Clone, PartialEq, Eq, Structural, Debug)]
pub enum InDecision {
    /// Leave it to others.
    Unhandled,
    /// Refuse it.
    Rejected,
    /// Answer with so many bytes from the beginning of the buffer.
    Accepted(usize),
}

/// The answer to a request that sends data to the clock.
#[derive(Copy, Clone, PartialEq, Eq, Structural, Debug)]
pub enum OutResponse {
    Accepted,
    Rejected,
}

impl Request {
    /// The request is a vendor's own, to an interface.
    pub open spec fn for_vendor_interface(self) -> bool {
        self.request_type == RequestType::Vendor && self.recipient == Recipient::Interface
    }

    /// The upper byte of the value.
    pub open spec fn high(self) -> u8 {
        (self.value / 256) as u8
    }

    /// The lower byte of the value.
    pub open spec fn low(self) -> u8 {
        (self.value % 256) as u8
    }

    /// The request asks for the greeting.
    pub open spec fn asks_greeting(self) -> bool {
        self.request == 101 && self.value == 201 && self.length == 5
    }
}

/// The decision is the one that is due for a request with the given data. A text that is too
/// long is left unhandled; what only asks for data is refused here.
pub open spec fn out_decision_due(req: Request, data: Seq<u8>, decision: OutDecision) -> bool {
    if !req.for_vendor_interface() {
        decision == OutDecision::Unhandled
    } else {
        match UsbRequest::with_code(req.request) {
            Err(()) => decision == OutDecision::Unhandled,
            Ok(UsbRequest::SetClock) => decision == OutDecision::Forward(
                Command::SetClock(req.high(), req.low()),
            ),
            Ok(UsbRequest::SetDate) => decision == OutDecision::Forward(
                Command::SetDate(req.high(), req.low()),
            ),
            Ok(UsbRequest::SetAlarm) => decision == OutDecision::Forward(
                Command::SetAlarm(req.high(), req.low()),
            ),
            Ok(UsbRequest::EnableAlarm) => decision == OutDecision::Forward(Command::EnableAlarm),
            Ok(UsbRequest::DisableAlarm) => decision == OutDecision::Forward(Command::DisableAlarm),
            Ok(UsbRequest::Display) => if data.len() <= TEXT_CAPACITY {
                decision matches OutDecision::Forward(Command::Display(text)) && text@ == data
            } else {
                decision == OutDecision::Unhandled
            },
            Ok(
                UsbRequest::GetClock
                | UsbRequest::GetDate
                | UsbRequest::GetAlarm
                | UsbRequest::IsAlarmEnabled,
            ) => decision == OutDecision::Rejected,
        }
    }
}

/// The answer to a request whose command was passed on, by whether there was room for it.
pub open spec fn response(delivered: bool) -> OutResponse {
    if delivered {
        OutResponse::Accepted
    } else {
        OutResponse::Rejected
    }
}

/// The greeting: `hello`.
pub open spec fn greeting() -> Seq<u8> {
    seq!['h' as u8, 'e' as u8, 'l' as u8, 'l' as u8, 'o' as u8]
}

/// Handles the control requests to one interface.
#[derive(Copy, Clone, PartialEq, Eq, Structural, Debug)]
pub struct ControlHandler {
    pub if_num: u8,
}

impl ControlHandler {
    /// What is due for a request that asks the clock for data. Those to other interfaces are
    /// left unhandled.
    pub open spec fn in_decision(self, req: Request) -> InDecision {
        if !req.for_vendor_interface() || req.index != self.if_num {
            InDecision::Unhandled
        } else if req.asks_greeting() {
            InDecision::Accepted(5)
        } else {
            InDecision::Rejected
        }
    }

    /// Decides about a request that sends data to the clock.
    pub fn control_out(&self, req: &Request, data: &[u8]) -> (r: OutDecision)
        ensures
            out_decision_due(*req, data@, r),
    {
        if req.request_type != RequestType::Vendor || req.recipient != Recipient::Interface {
            return OutDecision::Unhandled;
        }
        let value: u16 = req.value;
        assert(value >> 8u16 == value / 256) by (bit_vector);
        assert(value & 0xff == value % 256) by (bit_vector);
        let high: u8 = (value >> 8u16) as u8;
        let low: u8 = (value & 0xff) as u8;
        let known: Result<UsbRequest, ()> = UsbRequest::try_from(req.request);
        match known {
            Ok(UsbRequest::SetClock) => OutDecision::Forward(Command::SetClock(high, low)),
            Ok(UsbRequest::SetDate) => OutDecision::Forward(Command::SetDate(high, low)),
            Ok(UsbRequest::SetAlarm) => OutDecision::Forward(Command::SetAlarm(high, low)),
            Ok(UsbRequest::EnableAlarm) => OutDecision::Forward(Command::EnableAlarm),
            Ok(UsbRequest::DisableAlarm) => OutDecision::Forward(Command::DisableAlarm),
            Ok(UsbRequest::Display) => match Text::from_slice(data) {
                Some(text) => OutDecision::Forward(Command::Display(text)),
                None => OutDecision::Unhandled,
            },
            Ok(_) => OutDecision::Rejected,
            Err(()) => OutDecision::Unhandled,
        }
    }

    /// The answer to a request whose command was passed on, by whether there was room for it.
    pub fn forwarded(&self, delivered: bool) -> (r: OutResponse)
        ensures
            r == response(delivered),
    {
        if delivered {
            OutResponse::Accepted
        } else {
            OutResponse::Rejected
        }
    }

    /// Decides about a request that asks the clock for data.
    pub fn decide_in(&self, req: &Request) -> (r: InDecision)
        ensures
            r == self.in_decision(*req),
    {
        if req.request_type != RequestType::Vendor || req.recipient != Recipient::Interface {
            return InDecision::Unhandled;
        }
        if req.index != self.if_num as u16 {
            return InDecision::Unhandled;
        }
        if req.request == 101 && req.value == 201 && req.length == 5 {
            InDecision::Accepted(5)
        } else {
            InDecision::Rejected
        }
    }

    /// Decides about a request that asks the clock for data, and puts the data at the beginning
    /// of the buffer: a greeting to those who ask for it. The buffer has to have room for it.
    pub fn control_in(&self, req: &Request, buf: &mut [u8]) -> (r: InDecision)
        requires
            self.in_decision(*req) is Accepted ==> old(buf)@.len() >= 5,
        ensures
            r == self.in_decision(*req),
            final(buf)@ == (if r is Accepted {
                greeting() + old(buf)@.skip(5)
            } else {
                old(buf)@
            }),
    {
        let decision = self.decide_in(req);
        if let InDecision::Accepted(_) = decision {
            buf[0] = 'h' as u8;
            buf[1] = 'e' as u8;
            buf[2] = 'l' as u8;
            buf[3] = 'l' as u8;
            buf[4] = 'o' as u8;
        }
        decision
    }
}

/// The two bytes of a request's value are its own: every pair of bytes is sent by one value.
pub proof fn value_holds_two_bytes(req: Request)
    ensures
        req.value == req.high() * 256 + req.low(),
{
}

/// A request that sends data is answered by its own fields: the code says what it is, the upper
/// and the lower byte of the value are what it sets, and the data is the text. Nothing else that
/// the request holds matters.
pub proof fn host_requests_mean_what_they_say(req: Request, data: Seq<u8>, decision: OutDecision)
    requires
        out_decision_due(req, data, decision),
    ensures
        ({
            let ours = req.request_type == RequestType::Vendor && req.recipient
                == Recipient::Interface;
            let code = req.request;
            let upper = req.value as int / 256;
            let lower = req.value as int % 256;
            &&& !ours ==> decision == OutDecision::Unhandled
            &&& ours && code == 0 ==> (decision matches OutDecision::Forward(
                Command::SetClock(hour, minute),
            ) && hour == upper && minute == lower)
            &&& ours && code == 1 ==> (decision matches OutDecision::Forward(
                Command::SetDate(month, day),
            ) && month == upper && day == lower)
            &&& ours && code == 2 ==> (decision matches OutDecision::Forward(
                Command::SetAlarm(hour, minute),
            ) && hour == upper && minute == lower)
            &&& ours && code == 20 ==> decision == OutDecision::Forward(Command::EnableAlarm)
            &&& ours && code == 21 ==> decision == OutDecision::Forward(Command::DisableAlarm)
            &&& ours && code == 30 && data.len() <= 64 ==> (decision matches OutDecision::Forward(
                Command::Display(text),
            ) && text@ == data)
            &&& ours && code == 30 && data.len() > 64 ==> decision == OutDecision::Unhandled
            &&& ours && (code == 10 || code == 11 || code == 12 || code == 22) ==> decision
                == OutDecision::Rejected
            &&& ours && !(code <= 2 || 10 <= code <= 12 || 20 <= code <= 22 || code == 30)
                ==> decision == OutDecision::Unhandled
        }),
{
}

/// The codes stand in three groups of three, and a text has its own: what sets, what asks, what
/// concerns the alarm, and what is shown.
pub proof fn codes_stand_in_groups()
    ensures
        UsbRequest::SetClock.code() == 0,
        UsbRequest::SetDate.code() == 1,
        UsbRequest::SetAlarm.code() == 2,
        UsbRequest::GetClock.code() == 10,
        UsbRequest::GetDate.code() == 11,
        UsbRequest::GetAlarm.code() == 12,
        UsbRequest::EnableAlarm.code() == 20,
        UsbRequest::DisableAlarm.code() == 21,
        UsbRequest::IsAlarmEnabled.code() == 22,
        UsbRequest::Display.code() == 30,
{
}

/// The request with a code is there exactly for the codes of the ten requests.
pub proof fn codes_find_their_requests(code: u8)
    ensures
        UsbRequest::with_code(code) is Ok <==> code <= 2 || 10 <= code <= 12 || 20 <= code <= 22
            || code == 30,
        UsbRequest::with_code(code) matches Ok(request) ==> request.code() == code,
{
}

/// Who asks this interface, as a vendor, for request 101 with value 201 and five bytes is greeted;
/// who asks it anything else is refused; who asks another is left to others.
pub proof fn greeting_is_for_those_who_ask(handler: ControlHandler, req: Request)
    ensures
        ({
            let ours = req.request_type == RequestType::Vendor && req.recipient
                == Recipient::Interface && req.index == handler.if_num;
            let asked = req.request == 101 && req.value == 201 && req.length == 5;
            &&& handler.in_decision(req) == InDecision::Unhandled <==> !ours
            &&& handler.in_decision(req) == InDecision::Accepted(5) <==> ours && asked
            &&& handler.in_decision(req) == InDecision::Rejected <==> ours && !asked
        }),
        greeting() == seq![104u8, 101u8, 108u8, 108u8, 111u8],
{
    assert(greeting() =~= seq![104u8, 101u8, 108u8, 108u8, 111u8]);
}

/// A command that was passed on is accepted, and one that was not is refused.
pub proof fn answers_tell_what_became(delivered: bool)
    ensures
        response(delivered) == OutResponse::Accepted <==> delivered,
        response(delivered) == OutResponse::Rejected <==> !delivered,
{
}

} // verus!
