use servocom::servo::conversion::Conversion;
use servocom::servo::feetech::conversion::{Offset, Position, SignedLoad, SignedSpeed, Velocity};

#[test]
fn position_decodes_low_12_bits() {
    assert_eq!(Position::from_raw(0x0000), 0);
    assert_eq!(Position::from_raw(0x0FFF), 4095);
    // BIT15 set is a direction flag, not part of the count.
    assert_eq!(Position::from_raw(0x8000), 0);
    assert_eq!(Position::from_raw(0x8123), 0x123);
    // Upper nibble bits above BIT11 should be masked off too.
    assert_eq!(Position::from_raw(0xF123), 0x123);
}

#[test]
fn position_to_raw_rejects_out_of_range() {
    assert!(Position::to_raw(-1).is_err());
    assert!(Position::to_raw(4096).is_err());
    assert_eq!(Position::to_raw(0).unwrap(), 0);
    assert_eq!(Position::to_raw(4095).unwrap(), 4095);
}

#[test]
fn offset_decodes_all_four_segments() {
    // Segment 1: 0..=2047 → 0..=+2047
    assert_eq!(Offset::from_raw(0), 0);
    assert_eq!(Offset::from_raw(2047), 2047);
    // Segment 2: 2048..=4095 → 0..=-2047
    assert_eq!(Offset::from_raw(2048), 0);
    assert_eq!(Offset::from_raw(4095), -2047);
    // Segment 3: 4096..=6143 → +2048..=+4095
    assert_eq!(Offset::from_raw(4096), 2048);
    assert_eq!(Offset::from_raw(6143), 4095);
    // Segment 4: 6144..=8191 → -2048..=-4095
    assert_eq!(Offset::from_raw(6144), -2048);
    assert_eq!(Offset::from_raw(8191), -4095);
}

#[test]
fn offset_roundtrips() {
    for v in [-4095, -2048, -2047, -1, 0, 1, 2047, 2048, 4095] {
        let raw = Offset::to_raw(v).unwrap();
        assert_eq!(Offset::from_raw(raw), v, "round-trip failed for {v}");
    }
}

#[test]
fn offset_to_raw_rejects_out_of_range() {
    assert!(Offset::to_raw(-4096).is_err());
    assert!(Offset::to_raw(4096).is_err());
}

#[test]
fn signed_speed_decodes_bit15() {
    assert_eq!(SignedSpeed::from_raw(0), 0);
    assert_eq!(SignedSpeed::from_raw(0x7FFF), 32767);
    assert_eq!(SignedSpeed::from_raw(0x8000), 0);
    assert_eq!(SignedSpeed::from_raw(0xFFFF), -32767);
    assert_eq!(SignedSpeed::from_raw(0x8001), -1);
}

#[test]
fn signed_speed_roundtrips() {
    for v in [-32767, -1, 0, 1, 32767] {
        let raw = SignedSpeed::to_raw(v).unwrap();
        assert_eq!(SignedSpeed::from_raw(raw), v);
    }
}

#[test]
fn signed_speed_to_raw_rejects_out_of_range() {
    assert!(SignedSpeed::to_raw(-32768).is_err());
    assert!(SignedSpeed::to_raw(32768).is_err());
}

#[test]
fn signed_load_decodes_bit10() {
    assert_eq!(SignedLoad::from_raw(0), 0);
    assert_eq!(SignedLoad::from_raw(0x03FF), 1023);
    assert_eq!(SignedLoad::from_raw(0x0400), 0);
    assert_eq!(SignedLoad::from_raw(0x07FF), -1023);
    assert_eq!(SignedLoad::from_raw(0x0401), -1);
}

#[test]
fn signed_load_roundtrips() {
    for v in [-1023, -1, 0, 1, 1023] {
        let raw = SignedLoad::to_raw(v).unwrap();
        assert_eq!(SignedLoad::from_raw(raw), v);
    }
}

#[test]
fn signed_load_to_raw_rejects_out_of_range() {
    assert!(SignedLoad::to_raw(-1024).is_err());
    assert!(SignedLoad::to_raw(1024).is_err());
}

#[test]
fn offset_encodes_exact_raw_values() {
    assert_eq!(Offset::to_raw(0).unwrap(), 0);
    assert_eq!(Offset::to_raw(2047).unwrap(), 2047);
    assert_eq!(Offset::to_raw(-1).unwrap(), 2049);
    assert_eq!(Offset::to_raw(-2047).unwrap(), 4095);
    assert_eq!(Offset::to_raw(2048).unwrap(), 4096);
    assert_eq!(Offset::to_raw(4095).unwrap(), 6143);
    assert_eq!(Offset::to_raw(-2048).unwrap(), 6144);
    assert_eq!(Offset::to_raw(-4095).unwrap(), 8191);
}

#[test]
fn offset_above_table_decodes_low_12_bits() {
    assert_eq!(Offset::from_raw(8192), 0);
    assert_eq!(Offset::from_raw(0x2123), 0x123);
    assert_eq!(Offset::from_raw(0xFFFF), 4095);
}

#[test]
fn signed_encoders_set_the_sign_bit() {
    assert_eq!(SignedSpeed::to_raw(-1).unwrap(), 0x8001);
    assert_eq!(SignedSpeed::to_raw(-32767).unwrap(), 0xFFFF);
    assert_eq!(SignedSpeed::to_raw(100).unwrap(), 100);
    assert_eq!(SignedLoad::to_raw(-1).unwrap(), 0x0401);
    assert_eq!(SignedLoad::to_raw(-1023).unwrap(), 0x07FF);
    assert_eq!(SignedLoad::to_raw(1023).unwrap(), 0x03FF);
}

#[test]
fn signed_load_ignores_bits_above_bit10() {
    assert_eq!(SignedLoad::from_raw(0x0C01), -1);
    assert_eq!(SignedLoad::from_raw(0xF801), 1);
}

#[test]
fn every_encoded_value_decodes_back() {
    for v in 0..=4095 {
        assert_eq!(Position::from_raw(Position::to_raw(v).unwrap()), v);
    }
    for v in -4095..=4095 {
        assert_eq!(Offset::from_raw(Offset::to_raw(v).unwrap()), v);
    }
    for v in -32767..=32767 {
        assert_eq!(SignedSpeed::from_raw(SignedSpeed::to_raw(v).unwrap()), v);
    }
    for v in -1023..=1023 {
        assert_eq!(SignedLoad::from_raw(SignedLoad::to_raw(v).unwrap()), v);
    }
}

#[test]
fn canonical_raw_values_encode_back() {
    for raw in 0u16..=4095 {
        assert_eq!(Position::to_raw(Position::from_raw(raw)).unwrap(), raw);
    }
    for raw in 0u16..=8191 {
        if raw != 2048 {
            assert_eq!(Offset::to_raw(Offset::from_raw(raw)).unwrap(), raw);
        }
    }
    assert_eq!(Offset::to_raw(Offset::from_raw(2048)).unwrap(), 0);
    for raw in 0u16..=0xFFFF {
        if raw != 0x8000 {
            assert_eq!(SignedSpeed::to_raw(SignedSpeed::from_raw(raw)).unwrap(), raw);
        }
    }
    for raw in 0u16..=0x07FF {
        if raw != 0x0400 {
            assert_eq!(SignedLoad::to_raw(SignedLoad::from_raw(raw)).unwrap(), raw);
        }
    }
}

#[test]
fn decoded_values_stay_in_documented_ranges() {
    for raw in 0u16..=0xFFFF {
        let p = Position::from_raw(raw);
        assert!((0..=4095).contains(&p));
        let o = Offset::from_raw(raw);
        assert!((-4095..=4095).contains(&o));
        let s = SignedSpeed::from_raw(raw);
        assert!((-32767..=32767).contains(&s));
        let l = SignedLoad::from_raw(raw);
        assert!((-1023..=1023).contains(&l));
    }
}

#[test]
fn range_errors_name_register_and_bounds() {
    let e = Position::to_raw(4096).unwrap_err();
    assert_eq!((e.what, e.value, e.min, e.max), ("present_position", 4096, 0, 4095));
    let e = Offset::to_raw(-4096).unwrap_err();
    assert_eq!((e.what, e.value, e.min, e.max), ("offset", -4096, -4095, 4095));
    let e = SignedSpeed::to_raw(32768).unwrap_err();
    assert_eq!((e.what, e.value, e.min, e.max), ("present_speed", 32768, -32767, 32767));
    let e = SignedLoad::to_raw(-1024).unwrap_err();
    assert_eq!((e.what, e.value, e.min, e.max), ("present_load", -1024, -1023, 1023));
}

#[test]
fn range_error_message() {
    let e = Offset::to_raw(-4096).unwrap_err();
    assert_eq!(e.message(), "offset value -4096 out of range [-4095, 4095]");
    let e = Position::to_raw(4096).unwrap_err();
    assert_eq!(e.message(), "present_position value 4096 out of range [0, 4095]");
    let e = servocom::servo::conversion::ConversionRangeError {
        what: "goal_speed",
        value: i64::MIN,
        min: -0x7FFF,
        max: 0x7FFF,
    };
    assert_eq!(
        e.message(),
        "goal_speed value -9223372036854775808 out of range [-32767, 32767]"
    );
}

#[test]
fn bool_register() {
    assert!(!bool::from_raw(0));
    assert!(bool::from_raw(1));
    assert!(bool::from_raw(0xFF));
    assert_eq!(bool::to_raw(true).unwrap(), 1);
    assert_eq!(bool::to_raw(false).unwrap(), 0);
    assert!(bool::from_raw(bool::to_raw(true).unwrap()));
    assert!(!bool::from_raw(bool::to_raw(false).unwrap()));
}

#[test]
fn velocity_sign_bit() {
    assert_eq!(Velocity::raw_from_magnitude(100, false), 100);
    assert_eq!(Velocity::raw_from_magnitude(100, true), 0x8064);
    assert_eq!(Velocity::raw_from_magnitude(0, true), 0x8000);
    assert_eq!(Velocity::raw_from_magnitude(0x7FFF, true), 0xFFFF);
    assert_eq!(Velocity::raw_from_magnitude(0x8001, true), 0x8001);
}
