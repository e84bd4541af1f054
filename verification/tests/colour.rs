use bottomless_pit::colour::{hex_components, split_colour_value};

#[test]
fn reads_hex_codes() {
    assert_eq!(hex_components("805E4E").unwrap(), (0x80, 0x5E, 0x4E));
    assert_eq!(hex_components("#805E4E").unwrap(), (0x80, 0x5E, 0x4E));
    assert_eq!(hex_components("ffffff").unwrap(), (255, 255, 255));
    assert_eq!(hex_components("0").unwrap(), (0, 0, 0));
}

#[test]
fn rejects_bad_codes() {
    assert!(hex_components("").is_err());
    assert!(hex_components("#").is_err());
    assert!(hex_components("#GG0000").is_err());
    assert!(hex_components("##123456").is_err());
    assert!(hex_components("FFFFFFFFF").is_err());
}

#[test]
fn splits_values() {
    assert_eq!(split_colour_value(0x123456), (0x12, 0x34, 0x56));
    assert_eq!(split_colour_value(-300), (0, -1, -44));
}
