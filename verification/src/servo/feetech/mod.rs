//! Feetech STS/SM servos.

pub mod conversion;
