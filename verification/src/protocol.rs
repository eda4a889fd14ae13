//! Wire protocol carried over the tracker's response characteristic.
//!
//! A message is a little-endian 16-bit type code followed by at least one
//! byte of type-specific payload.

use crate::gatt::ble_uuid;
use crate::gatt::response_uuid;
use crate::gatt::RESPONSE_CHARACTERISTIC;
use vstd::prelude::*;
use vstd::slice::slice_subrange;
use vstd::slice::slice_to_vec;

verus! {

/// Type code of a heart-rate sample.
pub const HEART_RATE_TYPE: u16 = 0xa002;

/// Type code of a button press.
pub const BUTTON_TYPE: u16 = 0x0107;

/// Shortest message the tracker can send: the type code and one payload byte.
pub const MIN_MESSAGE_LEN: usize = 3;

/// A message of the tracker, as the contracts speak of it.
pub enum Message {
    /// A heart-rate sample, in beats per minute.
    HeartRate(u8),
    /// The tracker's button was pressed.
    ButtonPress,
    /// A message of a type this bridge does not act on: its type code and payload.
    Unknown(u16, Seq<u8>),
}

/// A decoded message of the tracker.
#[derive(Debug, Clone, PartialEq, Eq)]
pub enum Event {
    /// A heart-rate sample, in beats per minute.
    HeartRate(u8),
    /// The tracker's button was pressed.
    ButtonPress,
    /// A message of a type this bridge does not act on, kept for logging.
    Unknown { type_code: u16, payload: Vec<u8> },
}

impl View for Event {
    type V = Message;

    open spec fn view(&self) -> Message {
        match *self {
            Event::HeartRate(rate) => Message::HeartRate(rate),
            Event::ButtonPress => Message::ButtonPress,
            Event::Unknown { type_code, payload } => Message::Unknown(type_code, payload@),
        }
    }
}

/// Why a notification was discarded without being decoded.
#[derive(Debug, Clone, Copy, PartialEq, Eq)]
pub enum Diagnostic {
    /// The notification came from a characteristic other than the response characteristic.
    UnrecognizedSource,
    /// The payload is too short to hold a type code and a payload byte.
    InvalidPayload,
}

/// One notification, as the platform delivers it.
#[derive(Debug, Clone, PartialEq, Eq)]
pub struct Notification {
    /// UUID of the characteristic that sent the notification, as a 128-bit number.
    pub uuid: u128,
    /// The bytes that were sent.
    pub value: Vec<u8>,
}

/// The little-endian 16-bit number whose bytes are `lo`, `hi`.
pub open spec fn le_u16(lo: u8, hi: u8) -> u16 {
    (lo as int + 256 * (hi as int)) as u16
}

/// The type code of a message: its first two bytes, little-endian.
pub open spec fn type_code(data: Seq<u8>) -> u16
    recommends
        data.len() >= 2,
{
    le_u16(data[0], data[1])
}

/// The type-specific payload of a message: everything after the type code.
pub open spec fn payload(data: Seq<u8>) -> Seq<u8>
    recommends
        data.len() >= 2,
{
    data.subrange(2, data.len() as int)
}

/// What a message decodes to; `None` for a message shorter than [`MIN_MESSAGE_LEN`].
pub open spec fn parse(data: Seq<u8>) -> Option<Message> {
    if data.len() < MIN_MESSAGE_LEN {
        None
    } else if type_code(data) == HEART_RATE_TYPE {
        Some(Message::HeartRate(payload(data).last()))
    } else if type_code(data) == BUTTON_TYPE {
        Some(Message::ButtonPress)
    } else {
        Some(Message::Unknown(type_code(data), payload(data)))
    }
}

/// The bytes of a message with the given type code and payload.
pub open spec fn frame(code: u16, body: Seq<u8>) -> Seq<u8> {
    seq![(code % 256) as u8, (code / 256) as u8] + body
}

/// What a notification decodes to: a message if it comes from the response
/// characteristic and is long enough, else the reason it is discarded.
pub open spec fn decode_spec(source: u128, data: Seq<u8>) -> Result<Message, Diagnostic> {
    if source != ble_uuid(RESPONSE_CHARACTERISTIC) {
        Err(Diagnostic::UnrecognizedSource)
    } else {
        match parse(data) {
            Some(message) => Ok(message),
            None => Err(Diagnostic::InvalidPayload),
        }
    }
}

/// Reads two bytes as an unsigned little-endian 16-bit number.
pub fn read_le_u16(lo: u8, hi: u8) -> (code: u16)
    ensures
        code == le_u16(lo, hi),
{
    (lo as u16) + 256 * (hi as u16)
}

/// Decodes the payload of one notification of the response characteristic.
///
/// A payload of fewer than three bytes is rejected as
/// [`Diagnostic::InvalidPayload`]; every other payload decodes.
pub fn decode_payload(data: &[u8]) -> (decoded: Result<Event, Diagnostic>)
    ensures
        match parse(data@) {
            Some(message) => decoded matches Ok(event) && event@ == message,
            None => decoded == Err::<Event, Diagnostic>(Diagnostic::InvalidPayload),
        },
{
    let len = data.len();
    if len < MIN_MESSAGE_LEN {
        return Err(Diagnostic::InvalidPayload);
    }
    let code = read_le_u16(data[0], data[1]);
    if code == HEART_RATE_TYPE {
        Ok(Event::HeartRate(data[len - 1]))
    } else if code == BUTTON_TYPE {
        Ok(Event::ButtonPress)
    } else {
        let body = slice_to_vec(slice_subrange(data, 2, len));
        Ok(Event::Unknown { type_code: code, payload: body })
    }
}

/// Decodes one notification.
///
/// A notification from any characteristic but the response characteristic is
/// rejected as [`Diagnostic::UnrecognizedSource`], whatever it carries; one
/// from the response characteristic decodes as its payload does.
pub fn decode(notification: &Notification) -> (decoded: Result<Event, Diagnostic>)
    ensures
        match decode_spec(notification.uuid, notification.value@) {
            Ok(message) => decoded matches Ok(event) && event@ == message,
            Err(diagnostic) => decoded == Err::<Event, Diagnostic>(diagnostic),
        },
{
    if notification.uuid != response_uuid() {
        return Err(Diagnostic::UnrecognizedSource);
    }
    decode_payload(notification.value.as_slice())
}

/// A payload of fewer than three bytes decodes to no message, and every
/// longer one decodes to a message.
pub proof fn short_payload_has_no_message(data: Seq<u8>)
    ensures
        data.len() < 3 <==> parse(data) is None,
{
}

/// A heart-rate message carries the last byte of the payload as its rate,
/// however long the payload is.
pub proof fn heart_rate_is_last_byte(data: Seq<u8>)
    requires
        data.len() >= 3,
        type_code(data) == 0xa002,
    ensures
        parse(data) == Some(Message::HeartRate(data[data.len() - 1])),
{
}

/// A button message decodes to a button press, whatever follows the type code.
pub proof fn button_press_ignores_payload(data: Seq<u8>)
    requires
        data.len() >= 3,
        type_code(data) == 0x0107,
    ensures
        parse(data) == Some(Message::ButtonPress),
{
}

/// A message of any other type decodes to `Unknown` with the type code and
/// the payload as sent: framing the two again gives the message back.
pub proof fn unknown_round_trips(data: Seq<u8>)
    requires
        data.len() >= 3,
        type_code(data) != 0xa002,
        type_code(data) != 0x0107,
    ensures
        parse(data) == Some(Message::Unknown(type_code(data), payload(data))),
        frame(type_code(data), payload(data)) == data,
{
    assert(frame(type_code(data), payload(data)) =~= data);
}

/// The type code read from a framed message is the one it was framed with,
/// and so is the payload.
pub proof fn frame_is_read_back(code: u16, body: Seq<u8>)
    ensures
        type_code(frame(code, body)) == code,
        payload(frame(code, body)) == body,
{
    assert(payload(frame(code, body)) =~= body);
}

} // verus!
