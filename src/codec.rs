//! Whole payloads: a motor command in two bytes and a telemetry report in
//! eight, every multi-byte field least significant byte first.

use vstd::prelude::*;

use crate::field::{
    decode_temp, decode_u24, encode_temp, encode_u24, temp_byte, temp_in_range, temp_value,
    u24_bytes, u24_value, TEMP_MAX, TEMP_MIN, U24_MAX,
};

verus! {

/// The length of a motor command payload.
pub const MOTOR_CMD_LEN: usize = 2;

/// The length of a telemetry payload.
pub const TELEMETRY_LEN: usize = 8;

/// A report from the motor: a 24-bit status word, position, current and a
/// temperature in the range `-50..=205`.
#[derive(Clone, Copy, Debug, PartialEq, Eq, Structural)]
pub struct Telemetry {
    pub status: u32,
    pub position: u16,
    pub current: u16,
    pub temp: i16,
}

/// A command to the motor: one 16-bit setpoint.
#[derive(Clone, Copy, Debug, PartialEq, Eq, Structural)]
pub struct MotorCmd {
    pub cmd_value: u16,
}

/// Why a payload could not be encoded, decoded or framed.
#[derive(Clone, Copy, Debug, PartialEq, Eq, Structural)]
pub enum CodecError {
    /// The payload holds `found` bytes where the message needs `needed`.
    PayloadTooShort { needed: usize, found: usize },
    /// A telemetry status does not fit in 24 bits.
    StatusOutOfRange,
    /// A telemetry temperature lies outside `-50..=205`.
    TempOutOfRange,
    /// An identifier does not fit in the 29 bits of an extended CAN identifier.
    InvalidIdentifier,
}

impl Telemetry {
    /// Whether every field fits its wire width.
    pub open spec fn encodable(self) -> bool {
        &&& self.status <= U24_MAX
        &&& temp_in_range(self.temp)
    }

    /// Builds a report from its four fields, as given.
    pub fn new(status: u32, position: u16, current: u16, temp: i16) -> (r: Self)
        ensures
            r == (Telemetry { status, position, current, temp }),
    {
        Self { status, position, current, temp }
    }
}

impl MotorCmd {
    /// Builds a command with the given setpoint.
    pub fn new(cmd_value: u16) -> (r: Self)
        ensures
            r.cmd_value == cmd_value,
    {
        Self { cmd_value }
    }
}

/// The little-endian encoding of a 16-bit value.
pub open spec fn le16_bytes(v: u16) -> Seq<u8> {
    seq![(v % 256) as u8, (v / 256) as u8]
}

/// The 16-bit value of two bytes read least significant first.
pub open spec fn le16_value(b0: u8, b1: u8) -> u16 {
    (b0 + 256 * b1) as u16
}

/// The payload of a motor command.
pub open spec fn motor_cmd_bytes(m: MotorCmd) -> Seq<u8> {
    le16_bytes(m.cmd_value)
}

/// The payload of a telemetry report whose fields fit their widths.
pub open spec fn telemetry_bytes(t: Telemetry) -> Seq<u8> {
    u24_bytes(t.status as nat) + le16_bytes(t.position) + le16_bytes(t.current) + seq![
        temp_byte(t.temp),
    ]
}

/// The motor command read from the first two bytes of a payload.
pub open spec fn motor_cmd_of(b: Seq<u8>) -> MotorCmd {
    MotorCmd { cmd_value: le16_value(b[0], b[1]) }
}

/// The telemetry report read from the first eight bytes of a payload.
pub open spec fn telemetry_of(b: Seq<u8>) -> Telemetry {
    Telemetry {
        status: u24_value(b[0], b[1], b[2]) as u32,
        position: le16_value(b[3], b[4]),
        current: le16_value(b[5], b[6]),
        temp: temp_value(b[7]),
    }
}

/// What decoding a motor command from `b` gives.
pub open spec fn decode_motor_cmd_result(b: Seq<u8>) -> Result<MotorCmd, CodecError> {
    if b.len() < MOTOR_CMD_LEN {
        Err(CodecError::PayloadTooShort { needed: MOTOR_CMD_LEN, found: b.len() as usize })
    } else {
        Ok(motor_cmd_of(b))
    }
}

/// What decoding a telemetry report from `b` gives.
pub open spec fn decode_telemetry_result(b: Seq<u8>) -> Result<Telemetry, CodecError> {
    if b.len() < TELEMETRY_LEN {
        Err(CodecError::PayloadTooShort { needed: TELEMETRY_LEN, found: b.len() as usize })
    } else {
        Ok(telemetry_of(b))
    }
}

/// What encoding a telemetry report gives: the first field out of range is
/// reported, else the eight payload bytes.
pub open spec fn encode_telemetry_result(t: Telemetry) -> Result<Seq<u8>, CodecError> {
    if t.status > U24_MAX {
        Err(CodecError::StatusOutOfRange)
    } else if !temp_in_range(t.temp) {
        Err(CodecError::TempOutOfRange)
    } else {
        Ok(telemetry_bytes(t))
    }
}

/// The two bytes of a 16-bit value, least significant first.
fn le16_split(v: u16) -> (r: (u8, u8))
    ensures
        seq![r.0, r.1] == le16_bytes(v),
        le16_value(r.0, r.1) == v,
{
    ((v % 256) as u8, (v / 256) as u8)
}

/// Encodes a motor command as its two payload bytes.
pub fn encode_motor_cmd(m: &MotorCmd) -> (r: Vec<u8>)
    ensures
        r@ == motor_cmd_bytes(*m),
{
    let (b0, b1) = le16_split(m.cmd_value);
    let r = vec![b0, b1];
    assert(r@ =~= motor_cmd_bytes(*m));
    r
}

/// Encodes a telemetry report as its eight payload bytes; a status wider
/// than 24 bits or a temperature outside `-50..=205` is rejected, not
/// truncated.
pub fn encode_telemetry(t: &Telemetry) -> (r: Result<Vec<u8>, CodecError>)
    ensures
        match r {
            Ok(b) => encode_telemetry_result(*t) == Ok::<Seq<u8>, CodecError>(b@),
            Err(e) => encode_telemetry_result(*t) == Err::<Seq<u8>, CodecError>(e),
        },
{
    if t.status > U24_MAX {
        return Err(CodecError::StatusOutOfRange);
    }
    if t.temp < TEMP_MIN || t.temp > TEMP_MAX {
        return Err(CodecError::TempOutOfRange);
    }
    let s = encode_u24(t.status);
    let (p0, p1) = le16_split(t.position);
    let (c0, c1) = le16_split(t.current);
    let tb = encode_temp(t.temp);
    let r = vec![s[0], s[1], s[2], p0, p1, c0, c1, tb];
    assert(r@ =~= telemetry_bytes(*t));
    Ok(r)
}

/// Decodes a motor command from the first two bytes of a payload; bytes
/// after them are ignored.
pub fn decode_motor_cmd(bytes: &[u8]) -> (r: Result<MotorCmd, CodecError>)
    ensures
        r == decode_motor_cmd_result(bytes@),
{
    if bytes.len() < MOTOR_CMD_LEN {
        return Err(CodecError::PayloadTooShort { needed: MOTOR_CMD_LEN, found: bytes.len() });
    }
    let cmd_value = bytes[0] as u16 + (bytes[1] as u16) * 256;
    Ok(MotorCmd { cmd_value })
}

/// Decodes a telemetry report from the first eight bytes of a payload; bytes
/// after them are ignored. Every eight-byte pattern gives a report whose
/// fields fit their widths.
pub fn decode_telemetry(bytes: &[u8]) -> (r: Result<Telemetry, CodecError>)
    ensures
        r == decode_telemetry_result(bytes@),
        r is Ok ==> r->Ok_0.encodable(),
{
    if bytes.len() < TELEMETRY_LEN {
        return Err(CodecError::PayloadTooShort { needed: TELEMETRY_LEN, found: bytes.len() });
    }
    let status = decode_u24([bytes[0], bytes[1], bytes[2]]);
    let position = bytes[3] as u16 + (bytes[4] as u16) * 256;
    let current = bytes[5] as u16 + (bytes[6] as u16) * 256;
    let temp = decode_temp(bytes[7]);
    Ok(Telemetry { status, position, current, temp })
}

/// Decoding the payload of a motor command gives back the command.
pub proof fn lemma_motor_cmd_round_trip(m: MotorCmd)
    ensures
        decode_motor_cmd_result(motor_cmd_bytes(m)) == Ok::<MotorCmd, CodecError>(m),
{
}

/// Decoding the payload of a telemetry report whose fields fit their widths
/// gives back the report, field for field.
pub proof fn lemma_telemetry_round_trip(t: Telemetry)
    requires
        t.encodable(),
    ensures
        encode_telemetry_result(t) == Ok::<Seq<u8>, CodecError>(telemetry_bytes(t)),
        decode_telemetry_result(telemetry_bytes(t)) == Ok::<Telemetry, CodecError>(t),
{
    let v = t.status;
    assert(v == v % 256 + 256 * ((v / 256) % 256) + 65536 * ((v / 65536) % 256)) by (nonlinear_arith)
        requires
            v <= 0xFF_FFFF,
    ;
}

/// Encoding the report decoded from an eight-byte payload gives back the
/// same eight bytes.
pub proof fn lemma_telemetry_payload_round_trip(b: Seq<u8>)
    requires
        b.len() == TELEMETRY_LEN,
    ensures
        decode_telemetry_result(b) == Ok::<Telemetry, CodecError>(telemetry_of(b)),
        telemetry_of(b).encodable(),
        encode_telemetry_result(telemetry_of(b)) == Ok::<Seq<u8>, CodecError>(b),
{
    let t = telemetry_of(b);
    let (b0, b1, b2) = (b[0], b[1], b[2]);
    let v: int = b0 + 256 * b1 + 65536 * b2;
    assert(v % 256 == b0 && (v / 256) % 256 == b1 && (v / 65536) % 256 == b2) by (nonlinear_arith)
        requires
            v == b0 + 256 * b1 + 65536 * b2,
            0 <= b0 < 256,
            0 <= b1 < 256,
            0 <= b2 < 256,
    ;
    assert(telemetry_bytes(t) =~= b);
}

} // verus!
