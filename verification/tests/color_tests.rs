use charts::color::Color;

#[test]
fn color_hex() {
    let mut c: Color = Color::rgb(200, 200, 200);
    assert_eq!("#C8C8C8", c.hex());

    c = Color::rgb(51, 51, 51);
    assert_eq!("#333333", c.hex());
}

#[test]
fn color_rgba() {
    let mut c: Color = Color::rgb(200, 200, 200);
    assert_eq!("rgba(200,200,200,1.0)", c.rgba());
    c = Color::new(51, 51, 51, 51);
    assert_eq!("rgba(51,51,51,0.2)", c.rgba());
}

#[test]
fn color_opacity_tenths() {
    let mut c: Color = Color::rgb(200, 200, 200);
    assert_eq!(10, c.opacity_tenths());
    c = Color::new(51, 51, 51, 51);
    assert_eq!(2, c.opacity_tenths());
}

#[test]
fn color_is_zero() {
    let mut c: Color = Color::rgb(200, 200, 200);
    assert!(!c.is_zero());
    c = Color::new(0, 0, 0, 0);
    assert!(c.is_zero());
}

#[test]
fn color_is_transparent() {
    let mut c: Color = Color::rgb(200, 200, 200);
    assert!(!c.is_transparent());
    assert!(c.is_nontransparent());
    c = Color::new(200, 200, 200, 0);
    assert!(c.is_transparent());
    c = Color::new(200, 200, 200, 100);
    assert!(!c.is_nontransparent());
}

#[test]
fn color_static() {
    assert_eq!("rgba(255,255,255,1.0)", Color::white().rgba());
    assert_eq!("rgba(0,0,0,1.0)", Color::black().rgba());
}

#[test]
fn color_with_alpha() {
    let mut c = Color::white();
    assert_eq!("rgba(255,255,255,1.0)", c.rgba());
    c = c.with_alpha(51);
    assert_eq!("rgba(255,255,255,0.2)", c.rgba());
}

#[test]
fn color_parse_long_form() {
    let c = Color::parse("#C8C8C8");
    assert_eq!((c.r, c.g, c.b, c.a), (200, 200, 200, 255));
    let c = Color::parse("#5470C6");
    assert_eq!((c.r, c.g, c.b, c.a), (0x54, 0x70, 0xC6, 255));
}

#[test]
fn color_parse_short_form() {
    // One hex digit per channel, not doubled.
    let c = Color::parse("#FA8");
    assert_eq!((c.r, c.g, c.b, c.a), (15, 10, 8, 255));
}

#[test]
fn color_parse_without_hash_is_transparent_black() {
    let c = Color::parse("C8C8C8");
    assert_eq!((c.r, c.g, c.b, c.a), (0, 0, 0, 0));
    let c = Color::parse("");
    assert_eq!((c.r, c.g, c.b, c.a), (0, 0, 0, 0));
}

#[test]
fn color_parse_malformed_digits_default_to_zero() {
    let c = Color::parse("#ZZ70C6");
    assert_eq!((c.r, c.g, c.b, c.a), (0, 0x70, 0xC6, 255));
}

#[test]
fn color_hex_round_trip() {
    // Parsing the hex text of an opaque color returns its channels.
    for &(r, g, b) in [(0u8, 0u8, 0u8), (7, 64, 255), (0x54, 0x70, 0xC6)].iter() {
        let c = Color::rgb(r, g, b);
        let back = Color::parse(&c.hex());
        assert_eq!((back.r, back.g, back.b), (r, g, b));
    }
}

#[test]
fn parse_hex_groups() {
    assert_eq!(charts::color::parse_hex("ff"), 255);
    assert_eq!(charts::color::parse_hex("C8"), 200);
    assert_eq!(charts::color::parse_hex("8"), 8);
    assert_eq!(charts::color::parse_hex(""), 0);
    assert_eq!(charts::color::parse_hex("xy"), 0);
    assert_eq!(charts::color::parse_hex("fff"), 0);
}
