use webgpu_scene::text::{
    background_color_channels, background_color_text, decimal_text, parse_color_value,
    parse_hex_u32, str_equal,
};

#[test]
fn equal_strings() {
    assert!(str_equal("abc", "abc"));
    assert!(!str_equal("abc", "abd"));
    assert!(!str_equal("abc", "ab"));
    assert!(str_equal("", ""));
}

#[test]
fn decimal_text_matches_to_string() {
    for n in [0usize, 7, 10, 1234, 9999, 100000, usize::MAX] {
        assert_eq!(decimal_text(n), n.to_string());
    }
}

#[test]
fn background_color_text_is_unpadded_upper_hex() {
    assert_eq!(background_color_text([255, 0, 16]), "#FF010");
    assert_eq!(background_color_text([0, 0, 0]), "#000");
    for rgb in [[12u32, 200, 255], [1, 2, 3], [171, 205, 239]] {
        let expected = format!("#{:X}{:X}{:X}", rgb[0], rgb[1], rgb[2]);
        assert_eq!(background_color_text(rgb), expected);
    }
}

#[test]
fn hex_parsing_matches_from_str_radix() {
    let cases = [
        "ff", "FF", "+1A", "", "+", "-", "-1", "100000000", "FFFFFFFF", "0g", "00000000000ff",
        "336699", "+-1", "12 ", "aBc",
    ];
    for case in cases {
        assert_eq!(parse_hex_u32(case), u32::from_str_radix(case, 16).ok(), "{}", case);
    }
}

#[test]
fn color_value_skips_every_leading_hash() {
    assert_eq!(parse_color_value("#336699"), Some(0x336699));
    assert_eq!(parse_color_value("##1"), Some(1));
    assert_eq!(parse_color_value("#"), None);
    assert_eq!(parse_color_value("#zz"), None);
}

#[test]
fn background_color_channels_are_the_low_bytes() {
    assert_eq!(background_color_channels("#336699"), [0x33, 0x66, 0x99]);
    assert_eq!(background_color_channels("#ff"), [0, 0, 255]);
    assert_eq!(background_color_channels("#12345678"), [0x34, 0x56, 0x78]);
}
