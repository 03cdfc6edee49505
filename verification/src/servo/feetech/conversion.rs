//! FeeTech STS/SM register decodings.
//!
//! These conversions turn the FeeTech control table's encodings
//! (BIT15 direction flags, BIT10 direction flags, 4-segment sign-magnitude
//! offsets) into plain signed integers in the documented physical ranges.
//! A raw register value is a `u16`, a decoded value an `i32`.

use vstd::prelude::*;

use crate::servo::conversion::{Conversion, ConversionRangeError};

verus! {

/// The range error that an encoder of register `what` reports for `value`
/// when its accepted range is `[min, max]`.
pub open spec fn range_error(what: &'static str, value: i32, min: i64, max: i64) -> ConversionRangeError {
    ConversionRangeError { what, value: value as i64, min, max }
}

/// Present Position decoding (register 0x38).
///
/// The 16-bit raw value's BIT15 is a direction flag (not a sign bit) and the
/// physical encoder is 12-bit: the low 12 bits are the in-rotation encoder
/// count in `[0, 4095]` covering 0°–360°.
///
/// `to_raw` is provided for symmetry but the register is read-only on real
/// hardware; values outside `[0, 4095]` are rejected.
pub struct Position;

impl Conversion for Position {
    type RegisterType = u16;
    type UsiType = i32;

    open spec fn spec_from_raw(raw: u16) -> i32 {
        (raw % 4096) as i32
    }

    open spec fn spec_to_raw(value: i32) -> Result<u16, ConversionRangeError> {
        if 0 <= value <= 4095 {
            Ok(value as u16)
        } else {
            Err(range_error("present_position", value, 0i64, 4095i64))
        }
    }

    fn from_raw(raw: u16) -> (value: i32)
        ensures
            0 <= value <= 4095,
            value == raw & 0x0FFF,
            (raw - value) % 4096 == 0,
    {
        let low: u16 = raw & 0x0FFF;
        assert(raw & 0x0FFF == raw % 4096) by (bit_vector);
        low as i32
    }

    fn to_raw(value: i32) -> (raw: Result<u16, ConversionRangeError>)
        ensures
            raw is Err <==> !(0 <= value <= 4095),
            0 <= value <= 4095 ==> raw == Ok::<u16, ConversionRangeError>(value as u16),
    {
        if !(0 <= value && value <= 4095) {
            return Err(ConversionRangeError { what: "present_position", value: value as i64, min: 0, max: 4095 });
        }
        Ok(value as u16)
    }
}

/// FeeTech 4-segment sign-magnitude encoding used by Position Offset (0x1F)
/// and Min/Max Angle Limit (0x09 / 0x0B).
///
/// Raw 16-bit register layout:
///
/// ```text
///     0..=2047    →     0..=+2047
///  2048..=4095    →     0..=-2047
///  4096..=6143    →  +2048..=+4095
///  6144..=8191    →  -2048..=-4095
/// ```
///
/// Raw values above the documented table decode as their low 12 bits.
/// The decoded range is therefore `[-4095, +4095]`.
pub struct Offset;

impl Conversion for Offset {
    type RegisterType = u16;
    type UsiType = i32;

    open spec fn spec_from_raw(raw: u16) -> i32 {
        (if raw <= 2047 {
            raw as int
        } else if raw <= 4095 {
            -(raw - 2048)
        } else if raw <= 6143 {
            raw - 4096 + 2048
        } else if raw <= 8191 {
            -(raw - 6144 + 2048)
        } else {
            (raw % 4096) as int
        }) as i32
    }

    open spec fn spec_to_raw(value: i32) -> Result<u16, ConversionRangeError> {
        if -4095 <= value <= 4095 {
            let abs: int = if value < 0 { -value } else { value as int };
            Ok((if value >= 0 {
                if abs <= 2047 { abs } else { 4096 + (abs - 2048) }
            } else if abs <= 2047 {
                2048 + abs
            } else {
                6144 + (abs - 2048)
            }) as u16)
        } else {
            Err(range_error("offset", value, -4095i64, 4095i64))
        }
    }

    fn from_raw(raw: u16) -> (value: i32)
        ensures
            -4095 <= value <= 4095,
            raw <= 2047 ==> value == raw,
            2048 <= raw <= 4095 ==> value == 2048 - raw,
            4096 <= raw <= 6143 ==> value == raw - 2048,
            6144 <= raw <= 8191 ==> value == 4096 - raw,
            8192 <= raw ==> value == raw & 0x0FFF,
    {
        match raw {
            0..=2047 => raw as i32,
            2048..=4095 => -((raw - 2048) as i32),
            4096..=6143 => (raw - 4096 + 2048) as i32,
            6144..=8191 => -((raw - 6144 + 2048) as i32),
            _ => {
                // upper bits beyond the documented table: fall back to the low 12 bits
                let low: u16 = raw & 0x0FFF;
                assert(raw & 0x0FFF == raw % 4096) by (bit_vector);
                low as i32
            },
        }
    }

    fn to_raw(value: i32) -> (raw: Result<u16, ConversionRangeError>)
        ensures
            raw is Err <==> !(-4095 <= value <= 4095),
            0 <= value <= 2047 ==> raw == Ok::<u16, ConversionRangeError>(value as u16),
            -2047 <= value < 0 ==> raw == Ok::<u16, ConversionRangeError>((2048 - value) as u16),
            2048 <= value <= 4095 ==> raw == Ok::<u16, ConversionRangeError>((value + 2048) as u16),
            -4095 <= value <= -2048 ==> raw == Ok::<u16, ConversionRangeError>((4096 - value) as u16),
    {
        if !(-4095 <= value && value <= 4095) {
            return Err(ConversionRangeError { what: "offset", value: value as i64, min: -4095, max: 4095 });
        }
        let abs: u16 = if value < 0 { (-value) as u16 } else { value as u16 };
        let raw: u16 = if value >= 0 {
            if abs <= 2047 { abs } else { 4096 + (abs - 2048) }
        } else if abs <= 2047 {
            2048 + abs
        } else {
            6144 + (abs - 2048)
        };
        Ok(raw)
    }
}

/// Present Speed decoding (register 0x3A).
///
/// BIT15 is the sign bit (sign-magnitude, not two's complement). The low 15
/// bits are the magnitude. The decoded value stays in the register's native
/// units (0.0146 RPM or 0.732 RPM depending on the `phase` register's step
/// setting).
pub struct SignedSpeed;

impl Conversion for SignedSpeed {
    type RegisterType = u16;
    type UsiType = i32;

    open spec fn spec_from_raw(raw: u16) -> i32 {
        let magnitude: int = (raw % 32768) as int;
        (if raw >= 32768 { -magnitude } else { magnitude }) as i32
    }

    open spec fn spec_to_raw(value: i32) -> Result<u16, ConversionRangeError> {
        if -32767 <= value <= 32767 {
            Ok((if value < 0 { -value + 32768 } else { value as int }) as u16)
        } else {
            Err(range_error("present_speed", value, -32767i64, 32767i64))
        }
    }

    fn from_raw(raw: u16) -> (value: i32)
        ensures
            -32767 <= value <= 32767,
            raw & 0x8000 == 0 ==> value == raw & 0x7FFF,
            raw & 0x8000 != 0 ==> value == -((raw & 0x7FFF) as int),
            raw < 0x8000 ==> value == raw,
            raw >= 0x8000 ==> value == 0x8000 - raw,
    {
        let magnitude: i32 = (raw & 0x7FFF) as i32;
        assert(raw & 0x7FFF == raw % 32768 && ((raw & 0x8000 != 0) == (raw >= 32768))) by (bit_vector);
        if raw & 0x8000 != 0 {
            -magnitude
        } else {
            magnitude
        }
    }

    fn to_raw(value: i32) -> (raw: Result<u16, ConversionRangeError>)
        ensures
            raw is Err <==> !(-32767 <= value <= 32767),
            0 <= value <= 32767 ==> raw == Ok::<u16, ConversionRangeError>(value as u16),
            -32767 <= value < 0 ==> raw == Ok::<u16, ConversionRangeError>((0x8000 - value) as u16),
    {
        if !(-32767 <= value && value <= 32767) {
            return Err(ConversionRangeError { what: "present_speed", value: value as i64, min: -32767, max: 32767 });
        }
        let magnitude: u16 = if value < 0 { (-value) as u16 } else { value as u16 };
        assert(magnitude < 0x8000 ==> magnitude | 0x8000 == magnitude + 0x8000) by (bit_vector);
        Ok(if value < 0 {
            magnitude | 0x8000
        } else {
            magnitude
        })
    }
}

/// Present Load decoding (register 0x3C).
///
/// BIT10 is the sign bit (not BIT15) and the low 10 bits are the magnitude;
/// the bits above BIT10 are ignored. The decoded value is `[-1023, +1023]`
/// in 0.1% steps of duty cycle.
pub struct SignedLoad;

impl Conversion for SignedLoad {
    type RegisterType = u16;
    type UsiType = i32;

    open spec fn spec_from_raw(raw: u16) -> i32 {
        let magnitude: int = (raw % 1024) as int;
        (if (raw / 1024) % 2 == 1 { -magnitude } else { magnitude }) as i32
    }

    open spec fn spec_to_raw(value: i32) -> Result<u16, ConversionRangeError> {
        if -1023 <= value <= 1023 {
            Ok((if value < 0 { -value + 1024 } else { value as int }) as u16)
        } else {
            Err(range_error("present_load", value, -1023i64, 1023i64))
        }
    }

    fn from_raw(raw: u16) -> (value: i32)
        ensures
            -1023 <= value <= 1023,
            raw & 0x0400 == 0 ==> value == raw & 0x03FF,
            raw & 0x0400 != 0 ==> value == -((raw & 0x03FF) as int),
            raw % 2048 < 1024 ==> value == raw % 2048,
            raw % 2048 >= 1024 ==> value == 1024 - raw % 2048,
    {
        let magnitude: i32 = (raw & 0x03FF) as i32;
        assert(raw & 0x03FF == raw % 1024 && ((raw & 0x0400 != 0) == ((raw / 1024) % 2 == 1))) by (bit_vector);
        if raw & 0x0400 != 0 {
            -magnitude
        } else {
            magnitude
        }
    }

    fn to_raw(value: i32) -> (raw: Result<u16, ConversionRangeError>)
        ensures
            raw is Err <==> !(-1023 <= value <= 1023),
            0 <= value <= 1023 ==> raw == Ok::<u16, ConversionRangeError>(value as u16),
            -1023 <= value < 0 ==> raw == Ok::<u16, ConversionRangeError>((1024 - value) as u16),
    {
        if !(-1023 <= value && value <= 1023) {
            return Err(ConversionRangeError { what: "present_load", value: value as i64, min: -1023, max: 1023 });
        }
        let magnitude: u16 = if value < 0 { (-value) as u16 } else { value as u16 };
        assert(magnitude < 0x0400 ==> magnitude | 0x0400 == magnitude + 0x0400) by (bit_vector);
        Ok(if value < 0 {
            magnitude | 0x0400
        } else {
            magnitude
        })
    }
}

/// Angular velocity encoding used for goal_speed (FeeTech STS/SM).
///
/// The writable goal_speed register uses radians per second as its unit and
/// the FeeTech "sign bit = direction" encoding on the wire: BIT15 carries the
/// direction and the low 15 bits the magnitude, as in [`SignedSpeed`].
/// The scaling between radians per second and register steps is floating
/// point and stands outside this library; the bit layout of the register is
/// [`SignedSpeed::from_raw`] on the way in and [`Velocity::raw_from_magnitude`]
/// on the way out.
pub struct Velocity;

impl Velocity {
    /// The raw goal_speed register content for a step `magnitude` and a
    /// direction: BIT15 is set for a negative direction.
    pub fn raw_from_magnitude(magnitude: u16, negative: bool) -> (raw: u16)
        ensures
            raw == (if negative && magnitude < 32768 { magnitude + 32768 } else { magnitude as int }),
    {
        assert(magnitude < 0x8000 ==> magnitude | 0x8000 == magnitude + 0x8000) by (bit_vector);
        assert(magnitude >= 0x8000 ==> magnitude | 0x8000 == magnitude) by (bit_vector);
        if negative {
            magnitude | 0x8000
        } else {
            magnitude
        }
    }
}

/// A position in `[0, 4095]`, encoded and decoded again, is the same position.
pub proof fn lemma_position_roundtrip(value: i32)
    requires
        0 <= value <= 4095,
    ensures
        Position::spec_to_raw(value) is Ok,
        Position::spec_from_raw(Position::spec_to_raw(value)->Ok_0) == value,
{
}

/// A raw position in `[0, 4095]`, decoded and encoded again, is the same raw
/// value. (A raw value with bits above BIT11 decodes to the same position as
/// its low 12 bits and is not given back.)
pub proof fn lemma_position_raw_roundtrip(raw: u16)
    requires
        raw <= 4095,
    ensures
        Position::spec_to_raw(Position::spec_from_raw(raw)) == Ok::<u16, ConversionRangeError>(raw),
{
}

/// An offset in `[-4095, 4095]`, encoded and decoded again, is the same offset.
pub proof fn lemma_offset_roundtrip(value: i32)
    requires
        -4095 <= value <= 4095,
    ensures
        Offset::spec_to_raw(value) is Ok,
        Offset::spec_from_raw(Offset::spec_to_raw(value)->Ok_0) == value,
{
}

/// A raw offset of the documented table (`[0, 8191]`), decoded and encoded
/// again, is the same raw value, except `2048` ("minus zero"), which decodes
/// to `0` and is written back as `0`.
pub proof fn lemma_offset_raw_roundtrip(raw: u16)
    requires
        raw <= 8191,
        raw != 2048,
    ensures
        Offset::spec_to_raw(Offset::spec_from_raw(raw)) == Ok::<u16, ConversionRangeError>(raw),
{
}

/// A speed in `[-32767, 32767]`, encoded and decoded again, is the same speed.
pub proof fn lemma_signed_speed_roundtrip(value: i32)
    requires
        -32767 <= value <= 32767,
    ensures
        SignedSpeed::spec_to_raw(value) is Ok,
        SignedSpeed::spec_from_raw(SignedSpeed::spec_to_raw(value)->Ok_0) == value,
{
}

/// A raw speed, decoded and encoded again, is the same raw value, except
/// `0x8000` ("minus zero"), which decodes to `0` and is written back as `0`.
pub proof fn lemma_signed_speed_raw_roundtrip(raw: u16)
    requires
        raw != 0x8000,
    ensures
        SignedSpeed::spec_to_raw(SignedSpeed::spec_from_raw(raw)) == Ok::<u16, ConversionRangeError>(raw),
{
}

/// A load in `[-1023, 1023]`, encoded and decoded again, is the same load.
pub proof fn lemma_signed_load_roundtrip(value: i32)
    requires
        -1023 <= value <= 1023,
    ensures
        SignedLoad::spec_to_raw(value) is Ok,
        SignedLoad::spec_from_raw(SignedLoad::spec_to_raw(value)->Ok_0) == value,
{
}

/// A raw load within the sign and magnitude bits (`[0, 0x07FF]`), decoded and
/// encoded again, is the same raw value, except `0x0400` ("minus zero"),
/// which decodes to `0` and is written back as `0`.
pub proof fn lemma_signed_load_raw_roundtrip(raw: u16)
    requires
        raw <= 0x07FF,
        raw != 0x0400,
    ensures
        SignedLoad::spec_to_raw(SignedLoad::spec_from_raw(raw)) == Ok::<u16, ConversionRangeError>(raw),
{
}

/// Present position reads the low 12 bits of the register: the position is
/// `raw & 0x0FFF`, the one count in `[0, 4095]` that differs from `raw` by a
/// whole number of turns; a position in `[0, 4095]` is written as itself.
pub proof fn lemma_position_law(raw: u16, value: i32)
    ensures
        Position::spec_from_raw(raw) == (raw & 0x0FFF) as i32,
        0 <= Position::spec_from_raw(raw) <= 4095,
        (raw - Position::spec_from_raw(raw)) % 4096 == 0,
        0 <= value <= 4095 ==> Position::spec_to_raw(value) == Ok::<u16, ConversionRangeError>(value as u16),
        !(0 <= value <= 4095) ==> Position::spec_to_raw(value) is Err,
{
    assert(raw & 0x0FFF == raw % 4096) by (bit_vector);
}

/// The offset table, segment by segment: `0..=2047` reads `raw`,
/// `2048..=4095` reads `2048 - raw`, `4096..=6143` reads `raw - 2048`,
/// `6144..=8191` reads `4096 - raw`, and anything above reads its low 12
/// bits. Writing goes the other way: `0..=2047` as itself, `-2047..=-1` as
/// `2048 - value`, `2048..=4095` as `value + 2048`, `-4095..=-2048` as
/// `4096 - value`.
pub proof fn lemma_offset_law(raw: u16, value: i32)
    ensures
        raw <= 2047 ==> Offset::spec_from_raw(raw) == raw,
        2048 <= raw <= 4095 ==> Offset::spec_from_raw(raw) == 2048 - raw,
        4096 <= raw <= 6143 ==> Offset::spec_from_raw(raw) == raw - 2048,
        6144 <= raw <= 8191 ==> Offset::spec_from_raw(raw) == 4096 - raw,
        8192 <= raw ==> Offset::spec_from_raw(raw) == (raw & 0x0FFF) as i32,
        0 <= value <= 2047 ==> Offset::spec_to_raw(value) == Ok::<u16, ConversionRangeError>(value as u16),
        -2047 <= value < 0 ==> Offset::spec_to_raw(value) == Ok::<u16, ConversionRangeError>((2048 - value) as u16),
        2048 <= value <= 4095 ==> Offset::spec_to_raw(value) == Ok::<u16, ConversionRangeError>((value + 2048) as u16),
        -4095 <= value <= -2048 ==> Offset::spec_to_raw(value) == Ok::<u16, ConversionRangeError>((4096 - value) as u16),
{
    assert(raw & 0x0FFF == raw % 4096) by (bit_vector);
}

/// Present speed is sign-magnitude on BIT15: its absolute value is the low
/// 15 bits, it is non-negative when BIT15 is clear and non-positive when it
/// is set. A non-negative speed is written as itself, a negative one as
/// `0x8000 + |value|`.
pub proof fn lemma_signed_speed_law(raw: u16, value: i32)
    ensures
        raw & 0x8000 == 0 ==> SignedSpeed::spec_from_raw(raw) == raw & 0x7FFF,
        raw & 0x8000 != 0 ==> SignedSpeed::spec_from_raw(raw) == -((raw & 0x7FFF) as int),
        raw < 0x8000 ==> SignedSpeed::spec_from_raw(raw) == raw,
        raw >= 0x8000 ==> SignedSpeed::spec_from_raw(raw) == 0x8000 - raw,
        0 <= value <= 32767 ==> SignedSpeed::spec_to_raw(value) == Ok::<u16, ConversionRangeError>(value as u16),
        -32767 <= value < 0 ==> SignedSpeed::spec_to_raw(value) == Ok::<u16, ConversionRangeError>((0x8000 - value) as u16),
{
    assert(raw & 0x7FFF == raw % 32768 && ((raw & 0x8000 != 0) == (raw >= 32768))) by (bit_vector);
}

/// Present load is sign-magnitude on BIT10, with the bits above ignored: its
/// absolute value is the low 10 bits, it is non-negative when BIT10 is clear
/// and non-positive when it is set. A non-negative load is written as
/// itself, a negative one as `0x0400 + |value|`.
pub proof fn lemma_signed_load_law(raw: u16, value: i32)
    ensures
        raw & 0x0400 == 0 ==> SignedLoad::spec_from_raw(raw) == raw & 0x03FF,
        raw & 0x0400 != 0 ==> SignedLoad::spec_from_raw(raw) == -((raw & 0x03FF) as int),
        raw % 2048 < 1024 ==> SignedLoad::spec_from_raw(raw) == raw % 2048,
        raw % 2048 >= 1024 ==> SignedLoad::spec_from_raw(raw) == 1024 - raw % 2048,
        0 <= value <= 1023 ==> SignedLoad::spec_to_raw(value) == Ok::<u16, ConversionRangeError>(value as u16),
        -1023 <= value < 0 ==> SignedLoad::spec_to_raw(value) == Ok::<u16, ConversionRangeError>((1024 - value) as u16),
{
    assert(raw & 0x03FF == raw % 1024 && ((raw & 0x0400 != 0) == ((raw / 1024) % 2 == 1))) by (bit_vector);
}

} // verus!
