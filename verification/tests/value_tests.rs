use drbug::float_bits::promote_f32;
use drbug::reg_catalog::{register_info_by_id, RegisterId};
use drbug::reg_value::RegisterValue;
use drbug::registers::widen;
use drbug::error::DrbugError;

#[test]
fn value_sizes_follow_the_variant() {
    assert_eq!(RegisterValue::U8(0).size(), 1);
    assert_eq!(RegisterValue::U16(0).size(), 2);
    assert_eq!(RegisterValue::U32(0).size(), 4);
    assert_eq!(RegisterValue::U64(0).size(), 8);
    assert_eq!(RegisterValue::I8(0).size(), 1);
    assert_eq!(RegisterValue::I64(0).size(), 8);
    assert_eq!(RegisterValue::F32(0).size(), 4);
    assert_eq!(RegisterValue::F64(0).size(), 8);
    assert_eq!(RegisterValue::B64([0; 8]).size(), 8);
    assert_eq!(RegisterValue::B128([0; 16]).size(), 16);
}

#[test]
fn byte_image_is_little_endian_zero_padded() {
    let img = RegisterValue::U32(0x11223344).to_bytes128();
    assert_eq!(
        img,
        vec![0x44, 0x33, 0x22, 0x11, 0, 0, 0, 0, 0, 0, 0, 0, 0, 0, 0, 0]
    );
    let img = RegisterValue::I8(-1).to_bytes128();
    assert_eq!(img[0], 0xff);
    assert!(img[1..].iter().all(|b| *b == 0));
}

#[test]
fn equality_compares_the_padded_images() {
    // a U64 equals the B64 with the same little-endian bytes
    assert_eq!(
        RegisterValue::U64(0xba5eba11),
        RegisterValue::B64([0x11, 0xba, 0x5e, 0xba, 0, 0, 0, 0])
    );
    // a double equals the B128 holding its bit pattern
    let bits = 64.125f64.to_bits();
    let mut raw = [0u8; 16];
    raw[..8].copy_from_slice(&bits.to_le_bytes());
    assert_eq!(RegisterValue::F64(bits), RegisterValue::B128(raw));
    assert_ne!(RegisterValue::U8(1), RegisterValue::U8(2));
}

#[test]
fn widen_copies_raw_images_for_uint_values() {
    let rsi = register_info_by_id(&RegisterId::rsi);
    let w = widen(&RegisterValue::U64(0xcafecafe), &rsi).unwrap();
    assert_eq!(w[..4], [0xfe, 0xca, 0xfe, 0xca]);
    assert!(w[4..].iter().all(|b| *b == 0));
}

#[test]
fn widen_sign_extends_signed_values_to_the_slot() {
    let esi = register_info_by_id(&RegisterId::esi); // 4-byte uint slot
    let w = widen(&RegisterValue::I8(-1), &esi).unwrap();
    assert_eq!(w[..4], [0xff, 0xff, 0xff, 0xff]);
    assert!(w[4..].iter().all(|b| *b == 0));

    let si = register_info_by_id(&RegisterId::si); // 2-byte uint slot
    let w = widen(&RegisterValue::I8(-2), &si).unwrap();
    assert_eq!(w[..2], [0xfe, 0xff]);
    assert!(w[2..].iter().all(|b| *b == 0));
}

#[test]
fn widen_rejects_values_wider_than_the_register() {
    let al = register_info_by_id(&RegisterId::al); // 1-byte slot
    assert!(matches!(
        widen(&RegisterValue::U16(0x1234), &al),
        Err(DrbugError::InvalidRegisterValue(_))
    ));
}

#[test]
fn widen_refuses_floats_for_long_double_slots() {
    let st0 = register_info_by_id(&RegisterId::st0);
    assert!(matches!(
        widen(&RegisterValue::F64(42.24f64.to_bits()), &st0),
        Err(DrbugError::LongDoubleUnsupported)
    ));
}

#[test]
fn float_promotion_matches_the_hardware_conversion() {
    let samples: [f32; 12] = [
        0.0,
        -0.0,
        1.0,
        -2.5,
        42.24,
        64.125,
        f32::MIN_POSITIVE,            // smallest normal
        f32::from_bits(1),            // smallest subnormal
        f32::from_bits(0x0000_7fff),  // wider subnormal
        f32::MAX,
        f32::INFINITY,
        f32::NEG_INFINITY,
    ];
    for s in samples {
        assert_eq!(
            promote_f32(s.to_bits()),
            (s as f64).to_bits(),
            "promoting {s:?}"
        );
    }
    // a quiet NaN keeps its payload bits, shifted into the wider fraction
    let nan = f32::NAN;
    assert_eq!(promote_f32(nan.to_bits()), (nan as f64).to_bits());
}
