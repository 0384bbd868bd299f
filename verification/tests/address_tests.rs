use drbug::address::VirtAddr;
use drbug::error::DrbugError;

#[test]
fn address_add_moves_up() {
    let a = VirtAddr(0x1000);
    assert_eq!(a.add(0x20), VirtAddr(0x1020));
}

#[test]
fn address_decrement_steps_down() {
    let mut a = VirtAddr(0x1000);
    a.decrement();
    assert_eq!(a, VirtAddr(0xfff));
}

#[test]
fn address_delta_is_distance_or_none() {
    assert_eq!(VirtAddr(0x1008).delta(VirtAddr(0x1000)), Some(8));
    assert_eq!(VirtAddr(0x1000).delta(VirtAddr(0x1000)), Some(0));
    assert_eq!(VirtAddr(0x1000).delta(VirtAddr(0x1001)), None);
}

#[test]
fn address_parses_hex_with_and_without_prefix() {
    assert_eq!(VirtAddr::from_hex_str("0x2a").unwrap(), VirtAddr(42));
    assert_eq!(VirtAddr::from_hex_str("2a").unwrap(), VirtAddr(42));
    assert_eq!(
        VirtAddr::from_hex_str("0xffffffffffffffff").unwrap(),
        VirtAddr(u64::MAX)
    );
    assert_eq!(
        VirtAddr::from_hex_str("0x00000000000000000001").unwrap(),
        VirtAddr(1)
    );
}

#[test]
fn address_parse_rejects_bad_input() {
    assert!(matches!(
        VirtAddr::from_hex_str("0x"),
        Err(DrbugError::Parse(_))
    ));
    assert!(matches!(
        VirtAddr::from_hex_str(""),
        Err(DrbugError::Parse(_))
    ));
    assert!(matches!(
        VirtAddr::from_hex_str("0xzz"),
        Err(DrbugError::Parse(_))
    ));
    // one hex digit past the 64-bit range
    assert!(matches!(
        VirtAddr::from_hex_str("0x10000000000000000"),
        Err(DrbugError::Parse(_))
    ));
}

#[test]
fn address_formats_as_sixteen_hex_digits() {
    assert_eq!(VirtAddr(0xff).to_hex_string(), "0x00000000000000ff");
    assert_eq!(
        VirtAddr(0xdeadbeef_00c0ffee).to_hex_string(),
        "0xdeadbeef00c0ffee"
    );
    assert_eq!(VirtAddr(0).to_hex_string(), "0x0000000000000000");
}
