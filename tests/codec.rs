use dap_bridge::parse_hex;

#[test]
fn parses_mixed_case_digits() {
    assert_eq!(parse_hex("0x1A"), Ok(26));
    assert_eq!(parse_hex("0x1a"), Ok(26));
    assert_eq!(parse_hex("0xdeadBEEF"), Ok(0xDEAD_BEEF));
}

#[test]
fn rejects_missing_prefix() {
    assert_eq!(parse_hex("1A"), Err(()));
    assert_eq!(parse_hex("0X1A"), Err(()));
    assert_eq!(parse_hex("x1A"), Err(()));
    assert_eq!(parse_hex(""), Err(()));
}

#[test]
fn accepts_largest_value() {
    assert_eq!(parse_hex("0xFFFFFFFF"), Ok(4294967295));
    assert_eq!(parse_hex("0xffffffff"), Ok(u32::MAX));
}

#[test]
fn rejects_overflow() {
    assert_eq!(parse_hex("0x100000000"), Err(()));
    assert_eq!(parse_hex("0xFFFFFFFFF"), Err(()));
    assert_eq!(parse_hex("0x123456789ABCDEF0123"), Err(()));
}

#[test]
fn rejects_prefix_without_digits() {
    assert_eq!(parse_hex("0x"), Err(()));
    assert_eq!(parse_hex("0"), Err(()));
}

#[test]
fn rejects_non_hex_characters() {
    assert_eq!(parse_hex("0x1G"), Err(()));
    assert_eq!(parse_hex("0x+1A"), Err(()));
    assert_eq!(parse_hex("0x-1"), Err(()));
    assert_eq!(parse_hex("0x 1"), Err(()));
    assert_eq!(parse_hex("0x1A "), Err(()));
    assert_eq!(parse_hex("0x0x1"), Err(()));
    assert_eq!(parse_hex("0x1é"), Err(()));
}

#[test]
fn keeps_leading_zeros_value() {
    assert_eq!(parse_hex("0x0"), Ok(0));
    assert_eq!(parse_hex("0x00000000001"), Ok(1));
    assert_eq!(parse_hex("0x0000FFFFFFFF"), Ok(u32::MAX));
}

#[test]
fn every_short_literal_parses_to_its_value() {
    for v in [0u32, 1, 0xF, 0x10, 0xABC, 0x1000, 0x7FFF_FFFF, 0x8000_0000, u32::MAX] {
        assert_eq!(parse_hex(&format!("0x{:x}", v)), Ok(v));
        assert_eq!(parse_hex(&format!("0x{:X}", v)), Ok(v));
        assert_eq!(parse_hex(&format!("0x{:08x}", v)), Ok(v));
    }
}

#[test]
fn every_unprefixed_or_oversized_literal_fails() {
    for v in [0u64, 26, 0xFFFF_FFFF, 0x1_0000_0000, 0xFFFF_FFFF_FFFF] {
        assert_eq!(parse_hex(&format!("{:x}", v)), Err(()));
        if v > u32::MAX as u64 {
            assert_eq!(parse_hex(&format!("0x{:x}", v)), Err(()));
        }
    }
}
