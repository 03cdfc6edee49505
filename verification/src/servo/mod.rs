//! Servo register conversions.

pub mod conversion;
pub mod feetech;
