//! Choosing the message type from a frame's identifier, and choosing the
//! payload and identifier of an outgoing frame.

use vstd::prelude::*;

use embedded_can::ExtendedId;

use crate::codec::{
    decode_motor_cmd, decode_motor_cmd_result, decode_telemetry, decode_telemetry_result,
    encode_motor_cmd, encode_telemetry, encode_telemetry_result, motor_cmd_bytes, CodecError,
    MotorCmd, Telemetry,
};

verus! {

/// The largest raw value of an extended (29-bit) CAN identifier.
pub const EXTENDED_ID_MAX: u32 = 0x1FFF_FFFF;

#[verifier::external_type_specification]
#[verifier::external_body]
pub struct ExExtendedId(ExtendedId);

/// Relies on `embedded_can::ExtendedId::new`: it succeeds exactly on raw
/// values of at most 29 bits.
pub assume_specification[ ExtendedId::new ](raw: u32) -> (r: Option<ExtendedId>)
    ensures
        r is Some <==> raw <= 0x1FFF_FFFF,
;

/// A message carried by a CAN frame.
#[derive(Clone, Copy, Debug, PartialEq, Eq, Structural)]
pub enum Message {
    Telemetry(Telemetry),
    MotorCmd(MotorCmd),
    /// The frame's identifier is neither the command's nor the telemetry's.
    Unsupported,
}

/// The identifier of a received frame, in its standard (11-bit) or extended
/// (29-bit) form.
#[derive(Clone, Copy, Debug, PartialEq, Eq, Structural)]
pub enum FrameId {
    Standard(u16),
    Extended(u32),
}

/// The identifiers that a deployment assigns to commands and to telemetry.
#[derive(Clone, Copy, Debug, PartialEq, Eq, Structural)]
pub struct Dispatcher {
    pub cmd_id: u32,
    pub telem_id: u32,
    /// Whether frames with a standard identifier are looked up too; when not,
    /// they are all unsupported.
    pub route_standard: bool,
}

/// What classifying a payload under raw identifier `id` gives: the command
/// identifier is tried first, then the telemetry identifier.
pub open spec fn classify_result(d: Dispatcher, id: u32, payload: Seq<u8>) -> Result<
    Message,
    CodecError,
> {
    if id == d.cmd_id {
        match decode_motor_cmd_result(payload) {
            Ok(m) => Ok(Message::MotorCmd(m)),
            Err(e) => Err(e),
        }
    } else if id == d.telem_id {
        match decode_telemetry_result(payload) {
            Ok(t) => Ok(Message::Telemetry(t)),
            Err(e) => Err(e),
        }
    } else {
        Ok(Message::Unsupported)
    }
}

/// What classifying a payload under a standard or extended identifier gives.
pub open spec fn classify_frame_result(d: Dispatcher, id: FrameId, payload: Seq<u8>) -> Result<
    Message,
    CodecError,
> {
    match id {
        FrameId::Extended(raw) => classify_result(d, raw, payload),
        FrameId::Standard(raw) => if d.route_standard {
            classify_result(d, raw as u32, payload)
        } else {
            Ok(Message::Unsupported)
        },
    }
}

/// The identifier and payload of the frame that carries `msg` under
/// `can_id`; `None` for a message that is not sent.
pub open spec fn frame_result(msg: Message, can_id: u32) -> Result<
    Option<(u32, Seq<u8>)>,
    CodecError,
> {
    match msg {
        Message::Unsupported => Ok(None),
        Message::MotorCmd(m) => if can_id > EXTENDED_ID_MAX {
            Err(CodecError::InvalidIdentifier)
        } else {
            Ok(Some((can_id, motor_cmd_bytes(m))))
        },
        Message::Telemetry(t) => if can_id > EXTENDED_ID_MAX {
            Err(CodecError::InvalidIdentifier)
        } else {
            match encode_telemetry_result(t) {
                Ok(b) => Ok(Some((can_id, b))),
                Err(e) => Err(e),
            }
        },
    }
}

/// The view of a framed result, with the payload as a sequence.
pub open spec fn frame_view(r: Result<Option<(u32, Vec<u8>)>, CodecError>) -> Result<
    Option<(u32, Seq<u8>)>,
    CodecError,
> {
    match r {
        Ok(Some((id, b))) => Ok(Some((id, b@))),
        Ok(None) => Ok(None),
        Err(e) => Err(e),
    }
}

/// Whether a raw value is a valid extended identifier, as `embedded_can`
/// judges it.
fn is_extended_id(raw: u32) -> (r: bool)
    ensures
        r <==> raw <= EXTENDED_ID_MAX,
{
    match ExtendedId::new(raw) {
        Some(_) => true,
        None => false,
    }
}

impl Dispatcher {
    /// A dispatcher for extended identifiers only; either identifier wider
    /// than 29 bits is rejected.
    pub fn new(cmd_id: u32, telem_id: u32) -> (r: Result<Self, CodecError>)
        ensures
            cmd_id <= EXTENDED_ID_MAX && telem_id <= EXTENDED_ID_MAX ==> r == Ok::<
                Dispatcher,
                CodecError,
            >(Dispatcher { cmd_id, telem_id, route_standard: false }),
            !(cmd_id <= EXTENDED_ID_MAX && telem_id <= EXTENDED_ID_MAX) ==> r == Err::<
                Dispatcher,
                CodecError,
            >(CodecError::InvalidIdentifier),
    {
        if is_extended_id(cmd_id) && is_extended_id(telem_id) {
            Ok(Dispatcher { cmd_id, telem_id, route_standard: false })
        } else {
            Err(CodecError::InvalidIdentifier)
        }
    }

    /// The same dispatcher, looking up standard identifiers too or not.
    pub fn with_standard_routing(self, route_standard: bool) -> (r: Self)
        ensures
            r == (Dispatcher { route_standard, ..self }),
    {
        Dispatcher { route_standard, ..self }
    }

    /// Decodes a payload received under the extended identifier `identifier`:
    /// a command, a telemetry report, or `Unsupported` for any other
    /// identifier. A payload too short for its type is an error.
    pub fn classify(&self, identifier: u32, payload: &[u8]) -> (r: Result<Message, CodecError>)
        ensures
            r == classify_result(*self, identifier, payload@),
    {
        if identifier == self.cmd_id {
            match decode_motor_cmd(payload) {
                Ok(m) => Ok(Message::MotorCmd(m)),
                Err(e) => Err(e),
            }
        } else if identifier == self.telem_id {
            match decode_telemetry(payload) {
                Ok(t) => Ok(Message::Telemetry(t)),
                Err(e) => Err(e),
            }
        } else {
            Ok(Message::Unsupported)
        }
    }

    /// Decodes a payload received under a standard or extended identifier;
    /// standard identifiers are unsupported unless routing them is on.
    pub fn classify_frame(&self, id: FrameId, payload: &[u8]) -> (r: Result<Message, CodecError>)
        ensures
            r == classify_frame_result(*self, id, payload@),
    {
        match id {
            FrameId::Extended(raw) => self.classify(raw, payload),
            FrameId::Standard(raw) => {
                if self.route_standard {
                    self.classify(raw as u32, payload)
                } else {
                    Ok(Message::Unsupported)
                }
            },
        }
    }
}

impl Message {
    /// The identifier and payload of the frame that sends this message under
    /// `can_id`: `None` for `Unsupported`, an error for an identifier wider
    /// than 29 bits or a telemetry field out of range.
    pub fn framify(&self, can_id: u32) -> (r: Result<Option<(u32, Vec<u8>)>, CodecError>)
        ensures
            frame_view(r) == frame_result(*self, can_id),
    {
        match self {
            Message::Unsupported => Ok(None),
            Message::MotorCmd(m) => {
                if !is_extended_id(can_id) {
                    return Err(CodecError::InvalidIdentifier);
                }
                Ok(Some((can_id, encode_motor_cmd(m))))
            },
            Message::Telemetry(t) => {
                if !is_extended_id(can_id) {
                    return Err(CodecError::InvalidIdentifier);
                }
                match encode_telemetry(t) {
                    Ok(b) => Ok(Some((can_id, b))),
                    Err(e) => Err(e),
                }
            },
        }
    }
}

/// An identifier that is neither the command's nor the telemetry's is
/// unsupported, whatever the payload.
pub proof fn lemma_unknown_id_unsupported(d: Dispatcher, id: u32, payload: Seq<u8>)
    requires
        id != d.cmd_id,
        id != d.telem_id,
    ensures
        classify_result(d, id, payload) == Ok::<Message, CodecError>(Message::Unsupported),
{
}

/// A framed motor command, classified under the identifier it was framed
/// with, gives back the command.
pub proof fn lemma_motor_cmd_frame_round_trip(d: Dispatcher, m: MotorCmd)
    requires
        d.cmd_id <= EXTENDED_ID_MAX,
    ensures
        frame_result(Message::MotorCmd(m), d.cmd_id) == Ok::<
            Option<(u32, Seq<u8>)>,
            CodecError,
        >(Some((d.cmd_id, motor_cmd_bytes(m)))),
        classify_result(d, d.cmd_id, motor_cmd_bytes(m)) == Ok::<Message, CodecError>(
            Message::MotorCmd(m),
        ),
{
    crate::codec::lemma_motor_cmd_round_trip(m);
}

/// A framed telemetry report whose fields fit their widths, classified under
/// the identifier it was framed with, gives back the report, provided that
/// identifier is not also the command's.
pub proof fn lemma_telemetry_frame_round_trip(d: Dispatcher, t: Telemetry)
    requires
        d.telem_id <= EXTENDED_ID_MAX,
        d.telem_id != d.cmd_id,
        t.encodable(),
    ensures
        frame_result(Message::Telemetry(t), d.telem_id) == Ok::<
            Option<(u32, Seq<u8>)>,
            CodecError,
        >(Some((d.telem_id, crate::codec::telemetry_bytes(t)))),
        classify_result(d, d.telem_id, crate::codec::telemetry_bytes(t)) == Ok::<
            Message,
            CodecError,
        >(Message::Telemetry(t)),
{
    crate::codec::lemma_telemetry_round_trip(t);
}

} // verus!
