use drbug::error::DrbugError;
use drbug::parse::{parse_bytes, parse_uint, parse_vector};
use drbug::reg_value::RegisterValue;

#[test]
fn parse_uint_accepts_each_radix_prefix() {
    assert_eq!(parse_uint("0x2a", 1).unwrap(), RegisterValue::U8(42));
    assert_eq!(parse_uint(" 0x2a  ", 1).unwrap(), RegisterValue::U8(42));
    assert_eq!(parse_uint("0o52", 1).unwrap(), RegisterValue::U8(42));
    assert_eq!(parse_uint("0b00101010", 1).unwrap(), RegisterValue::U8(42));
    assert_eq!(parse_uint("42", 1).unwrap(), RegisterValue::U8(42));
    assert_eq!(parse_uint("0X2A", 1).unwrap(), RegisterValue::U8(42));
}

#[test]
fn parse_uint_matches_the_register_width() {
    assert_eq!(parse_uint("0x2a2a", 2).unwrap(), RegisterValue::U16(10794));
    assert_eq!(
        parse_uint("0x2a2a2a2a", 4).unwrap(),
        RegisterValue::U32(707406378)
    );
    assert_eq!(
        parse_uint("0x2a2a2a2a2a2a2a2a", 8).unwrap(),
        RegisterValue::U64(3038287259199220266)
    );
}

#[test]
fn parse_uint_rejects_bad_literals() {
    assert!(parse_uint("0x2a2a", 1).is_err()); // too wide for one byte
    assert!(parse_uint("0x", 1).is_err()); // no digits
    assert!(parse_uint("0xzzzz", 1).is_err()); // not hex digits
    assert!(matches!(
        parse_uint("0x2a", 5),
        Err(DrbugError::InvalidRegisterSize(5))
    ));
    assert!(parse_uint("", 8).is_err());
    assert!(parse_uint("0x10000000000000000", 8).is_err()); // past 64 bits
}

#[test]
fn parse_vector_reads_bracketed_byte_lists() {
    assert_eq!(
        parse_vector("[0, 0b1, 2, 3, 0o4, 0x5, 6, 7]", 8).unwrap(),
        RegisterValue::B64([0, 1, 2, 3, 4, 5, 6, 7])
    );
    assert_eq!(
        parse_vector("[0, 0b1, 2, 3, 0o4, 0x5, 6, 7, 8, 9, 0x0a, 11, 12, 13, 14, 15]", 16)
            .unwrap(),
        RegisterValue::B128([0, 1, 2, 3, 4, 5, 6, 7, 8, 9, 10, 11, 12, 13, 14, 15])
    );
}

#[test]
fn parse_vector_rejects_malformed_literals() {
    assert!(parse_vector("0, 1, 2, 3, 4, 5, 6, 7", 8).is_err()); // no brackets
    assert!(parse_vector("[0, 1, 2]", 8).is_err()); // wrong element count
    assert!(parse_vector("[0, 1, 2, 3, 4, 5, 6, 999]", 8).is_err()); // not a byte
    assert!(parse_vector("[0, 1, 2, 3, 4, 5, 6, 7]", 4).is_err()); // bad width
    assert!(parse_vector("[]", 8).is_err());
}

#[test]
fn parse_bytes_reads_bare_byte_lists() {
    assert_eq!(parse_bytes("0xde, 0xad, 12").unwrap(), vec![0xde, 0xad, 12]);
    assert!(parse_bytes("0xde,,12").is_err());
    assert!(parse_bytes("").is_err());
}
