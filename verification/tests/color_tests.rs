use volt::color::{hex_digit, parse_hex_str, Color, InvalidColorFormat, Rgba8};

#[test]
fn hex_six_digits_resolve() {
    assert_eq!(Color::Hex("#313244").into(), Ok(Rgba8 { r: 0x31, g: 0x32, b: 0x44, a: 255 }));
}

#[test]
fn hex_without_hash_resolves() {
    assert_eq!(Color::Hex("f38ba8").into(), Ok(Rgba8 { r: 0xf3, g: 0x8b, b: 0xa8, a: 255 }));
}

#[test]
fn hex_three_digits_double_each_digit() {
    assert_eq!(Color::Hex("#1af").into(), Ok(Rgba8 { r: 0x11, g: 0xaa, b: 0xff, a: 255 }));
}

#[test]
fn hex_eight_digits_carry_alpha() {
    assert_eq!(Color::Hex("#1e1d2d64").into(), Ok(Rgba8 { r: 30, g: 29, b: 45, a: 100 }));
}

#[test]
fn hex_upper_case_digits_resolve() {
    assert_eq!(Color::Hex("#CDD6F4").into(), Ok(Rgba8 { r: 0xcd, g: 0xd6, b: 0xf4, a: 255 }));
}

#[test]
fn hex_of_wrong_length_is_rejected() {
    assert_eq!(Color::Hex("#12").into(), Err(InvalidColorFormat::Length));
    assert_eq!(Color::Hex("").into(), Err(InvalidColorFormat::Length));
    assert_eq!(Color::Hex("#").into(), Err(InvalidColorFormat::Length));
    assert_eq!(Color::Hex("#1234567").into(), Err(InvalidColorFormat::Length));
    assert_eq!(Color::Hex("#123456789").into(), Err(InvalidColorFormat::Length));
}

#[test]
fn hex_with_a_foreign_character_is_rejected() {
    assert_eq!(Color::Hex("#12345g").into(), Err(InvalidColorFormat::Digit));
    assert_eq!(Color::Hex("#+f+f+f").into(), Err(InvalidColorFormat::Digit));
    assert_eq!(Color::Hex("##12345").into(), Err(InvalidColorFormat::Digit));
    assert_eq!(Color::Hex("é12").into(), Err(InvalidColorFormat::Digit));
}

#[test]
fn only_one_hash_is_stripped() {
    assert_eq!(Color::Hex("##12").into(), Err(InvalidColorFormat::Digit));
    assert_eq!(parse_hex_str("#abc"), parse_hex_str("abc"));
}

#[test]
fn tuples_always_resolve() {
    assert_eq!(Color::Rgb(1, 2, 3).into(), Ok(Rgba8 { r: 1, g: 2, b: 3, a: 255 }));
    assert_eq!(Color::Rgba(1, 2, 3, 4).into(), Ok(Rgba8 { r: 1, g: 2, b: 3, a: 4 }));
}

#[test]
fn the_three_defaults_name_the_same_colour() {
    let hex = Color::default_hex().into().unwrap();
    let rgb = Color::default_rgb().into().unwrap();
    let rgba = Color::default_rgba().into().unwrap();
    assert_eq!(hex, Rgba8 { r: 30, g: 29, b: 45, a: 255 });
    assert_eq!(rgb, hex);
    assert_eq!(rgba, Rgba8 { r: 30, g: 29, b: 45, a: 100 });
}

#[test]
fn default_descriptors_are_as_documented() {
    assert!(matches!(Color::default_hex(), Color::Hex("#1e1d2d")));
    assert!(matches!(Color::default_rgb(), Color::Rgb(30, 29, 45)));
    assert!(matches!(Color::default_rgba(), Color::Rgba(30, 29, 45, 100)));
}

#[test]
fn hex_digit_values() {
    assert_eq!(hex_digit('0'), Some(0));
    assert_eq!(hex_digit('9'), Some(9));
    assert_eq!(hex_digit('a'), Some(10));
    assert_eq!(hex_digit('f'), Some(15));
    assert_eq!(hex_digit('A'), Some(10));
    assert_eq!(hex_digit('F'), Some(15));
    assert_eq!(hex_digit('g'), None);
    assert_eq!(hex_digit('G'), None);
    assert_eq!(hex_digit('/'), None);
    assert_eq!(hex_digit(':'), None);
    assert_eq!(hex_digit('@'), None);
    assert_eq!(hex_digit('`'), None);
    assert_eq!(hex_digit('#'), None);
}
