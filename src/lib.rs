//! A codec between CAN frames and the typed messages of a motor controller.
//!
//! The library has three layers: `field` converts single fields to and from
//! their wire bytes, `codec` lays out whole payloads, and `dispatch` picks the
//! message type from a frame's identifier.

pub mod codec;
pub mod dispatch;
pub mod field;

pub use codec::{CodecError, MotorCmd, Telemetry};
pub use dispatch::{Dispatcher, FrameId, Message};
pub use field::{decode_temp, decode_u24, encode_temp, encode_u24};
