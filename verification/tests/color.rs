use brengin::color::{Color, ColorParseError};
use std::str::FromStr;

#[test]
fn test_color_parse() {
    assert_eq!(
        Color::from_str("#aaff00").unwrap(),
        Color::from_rgb(0xaaff00)
    );
    assert_eq!(
        Color::from_str("#aaff00cc").unwrap(),
        Color::from_rgba(0xaaff00cc)
    );

    assert_eq!(Color::from_str("#abc").unwrap(), Color::from_rgb(0xaabbcc));
    assert_eq!(
        Color::from_str("#abcd").unwrap(),
        Color::from_rgba(0xaabbccdd)
    );
}

#[test]
fn test_color_rgb_ctor() {
    assert_eq!(Color::from_rgb(0xaaff00), Color::from_rgba(0xaaff00ff));
}

#[test]
fn color_parse_errors() {
    assert_eq!(Color::from_str("aaff00"), Err(ColorParseError::MissingHash));
    assert_eq!(Color::from_str(""), Err(ColorParseError::MissingHash));
    assert_eq!(Color::from_str("#aaff0"), Err(ColorParseError::BadLength(6)));
    assert_eq!(Color::from_str("#"), Err(ColorParseError::BadLength(1)));
    assert_eq!(
        Color::from_str("#aaxf00"),
        Err(ColorParseError::InvalidCharacter('x'))
    );
    // uppercase digits are read as lowercase, and so is the reported character
    assert_eq!(Color::from_str("#AAFF00"), Ok(Color::from_rgb(0xaaff00)));
    assert_eq!(
        Color::from_str("#AAXF00"),
        Err(ColorParseError::InvalidCharacter('x'))
    );
    // a character whose code ends in the byte of a digit is no digit
    assert_eq!(
        Color::from_str("#\u{161}bc"),
        Err(ColorParseError::InvalidCharacter('\u{161}'))
    );
    // every digit counts towards the length
    assert_eq!(
        Color::from_str("#aaff00cc1"),
        Err(ColorParseError::BadLength(10))
    );
    assert_eq!(
        Color::from_str("#aaff00cc12"),
        Err(ColorParseError::BadLength(11))
    );
}

#[test]
fn color_single_channel_is_splatted() {
    // a single byte is copied into red, green and blue
    assert_eq!(Color::from_slice(&[0x12]), Color::from_rgba(0x121212ff));
    // three bytes are red, green and blue, also when green and blue are zero
    assert_eq!(Color::from_slice(&[0xff, 0, 0]), Color::from_rgba(0xff0000ff));
    assert_eq!(Color::from_slice(&[0xff, 0, 0, 0x80]), Color::from_rgba(0xff000080));
    assert_eq!(Color::from_str("#ff0000"), Ok(Color::red()));
    assert_eq!(Color::from_str("#f00"), Ok(Color::red()));
    assert_eq!(Color::from_slice(&[1, 2, 3, 4]), Color::from_rgba(0x01020304));
    assert_eq!(Color::from_slice(&[]), Color::from_rgba(0x000000ff));
}

#[test]
fn color_constructors() {
    assert_eq!(Color::splat_rgb(0x7f), Color::from_rgba(0x7f7f7fff));
    assert_eq!(Color::default(), Color::black());
    assert_eq!(Color::from(0x11223344u32), Color::from_rgba(0x11223344));
    assert_eq!(Color::from_rgb(0xff123456), Color::from_rgba(0x123456ff));
    let bytes = Color::from_rgba(0x11223344).as_rgba();
    assert!(bytes == [0x11, 0x22, 0x33, 0x44] || bytes == [0x44, 0x33, 0x22, 0x11]);
    assert_eq!(bytes, 0x11223344u32.to_ne_bytes());
    let rgb = Color::from_rgba(0x11223344).as_rgb();
    assert_eq!(rgb, [bytes[0], bytes[1], bytes[2]]);
    assert_eq!(Color::red(), Color::from_rgb(0xff0000));
    assert_eq!(Color::transparent(), Color::from_rgba(0));
}
