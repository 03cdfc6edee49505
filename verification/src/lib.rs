//! Register conversions and protocol decisions for Feetech (FT-SCS) serial servos.
//!
//! The library part holds what can be stated and proved without a serial
//! port: the control-table register encodings of the STS/SM families, the
//! range errors that their encoders report, the communication error kinds
//! with their messages, and the decisions that the protocol handler takes
//! around the bytes it exchanges with the bus.

pub mod feetech_protocol;
pub mod servo;
mod text;

pub use feetech_protocol::{CommunicationErrorKind, FeetechProtocolHandler};
