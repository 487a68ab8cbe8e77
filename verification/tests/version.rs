use cursor_api::version::{image_in_order, Version};
use std::num::IntErrorKind;

fn v(major: u16, minor: u16, patch: u16) -> Version {
    Version { major, minor, patch }
}

#[test]
fn default_version_is_2_5_0() {
    assert_eq!(Version::default(), v(2, 5, 0));
    assert_eq!(Version::default().to_string(), "2.5.0");
}

#[test]
fn version_to_string_writes_dotted_decimals() {
    assert_eq!(v(1, 2, 3).to_string(), "1.2.3");
    assert_eq!(v(0, 0, 0).to_string(), "0.0.0");
    assert_eq!(v(65535, 10, 100).to_string(), "65535.10.100");
}

#[test]
fn version_parses_three_components() {
    assert_eq!(Version::from_str("1.2.3").unwrap(), v(1, 2, 3));
    assert_eq!(Version::from_str("2.6.0").unwrap(), v(2, 6, 0));
}

#[test]
fn version_missing_components_are_zero() {
    assert_eq!(Version::from_str("7").unwrap(), v(7, 0, 0));
    assert_eq!(Version::from_str("7.8").unwrap(), v(7, 8, 0));
}

#[test]
fn version_pieces_after_the_third_are_not_read() {
    assert_eq!(Version::from_str("1.2.3.4").unwrap(), v(1, 2, 3));
    assert_eq!(Version::from_str("1.2.3.beta").unwrap(), v(1, 2, 3));
}

#[test]
fn version_accepts_plus_sign_and_leading_zeros() {
    assert_eq!(Version::from_str("+1.02.003").unwrap(), v(1, 2, 3));
}

#[test]
fn version_rejects_bad_components() {
    assert!(Version::from_str("").is_err());
    assert!(Version::from_str("a.b.c").is_err());
    assert!(Version::from_str("1..3").is_err());
    assert!(Version::from_str("1.2.x").is_err());
    assert!(Version::from_str("70000.0.0").is_err());
    assert!(Version::from_str("-1.0.0").is_err());
    assert!(Version::from_str("1.2.3 ").is_err());
}

#[test]
fn version_text_roundtrip() {
    for ver in [v(0, 0, 0), v(2, 5, 0), v(1, 23, 456), v(65535, 65535, 65535), v(10, 0, 9)] {
        assert_eq!(Version::from_str(&ver.to_string()).unwrap(), ver);
        assert_eq!(ver.to_string().parse::<Version>().unwrap(), ver);
    }
}

#[test]
fn version_bytes_are_native_order() {
    let ver = v(0x0102, 0x0304, 0x0506);
    let expected = if u16::from_ne_bytes([1, 0]) == 1 {
        [0x02, 0x01, 0x04, 0x03, 0x06, 0x05]
    } else {
        [0x01, 0x02, 0x03, 0x04, 0x05, 0x06]
    };
    assert_eq!(ver.to_bytes(), expected);
    let d = Version::default().to_bytes();
    let mut native = Vec::new();
    native.extend_from_slice(&2u16.to_ne_bytes());
    native.extend_from_slice(&5u16.to_ne_bytes());
    native.extend_from_slice(&0u16.to_ne_bytes());
    assert_eq!(d.to_vec(), native);
}

#[test]
fn version_error_is_that_of_the_first_bad_piece() {
    assert_eq!(Version::from_str("1..x").unwrap_err().kind(), &IntErrorKind::Empty);
    assert_eq!(Version::from_str("1.x.").unwrap_err().kind(), &IntErrorKind::InvalidDigit);
    assert_eq!(Version::from_str("99999.x").unwrap_err().kind(), &IntErrorKind::PosOverflow);
}

#[test]
fn image_in_order_follows_the_probe() {
    let ver = v(0x0102, 0x0304, 0x0506);
    assert_eq!(image_in_order(ver, [1, 0]), [0x02, 0x01, 0x04, 0x03, 0x06, 0x05]);
    assert_eq!(image_in_order(ver, [0, 1]), [0x01, 0x02, 0x03, 0x04, 0x05, 0x06]);
}
