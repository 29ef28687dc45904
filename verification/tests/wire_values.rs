use plotly::wire::{json_dec, json_i64, json_string, json_u64};
use plotly::{Color, DecNum, NamedColor};

#[test]
fn unsigned_number_tokens() {
    assert_eq!(json_u64(0), "0");
    assert_eq!(json_u64(7), "7");
    assert_eq!(json_u64(1024), "1024");
    assert_eq!(json_u64(u64::MAX), "18446744073709551615");
}

#[test]
fn signed_number_tokens() {
    assert_eq!(json_i64(0), "0");
    assert_eq!(json_i64(-1), "-1");
    assert_eq!(json_i64(i64::MAX), "9223372036854775807");
    assert_eq!(json_i64(i64::MIN), "-9223372036854775808");
}

#[test]
fn decimal_tokens() {
    assert_eq!(json_dec(&DecNum::new(false, 2, 1)), "0.2");
    assert_eq!(json_dec(&DecNum::new(true, 205, 2)), "-2.05");
    assert_eq!(json_dec(&DecNum::new(false, 5, 2)), "0.05");
    assert_eq!(json_dec(&DecNum::new(false, 30, 1)), "3.0");
    assert_eq!(json_dec(&DecNum::new(false, 1500, 0)), "1500");
    assert_eq!(json_dec(&DecNum::from_i64(-7)), "-7");
    assert_eq!(json_dec(&DecNum::from_i64(42)), "42");
}

#[test]
fn decimal_tokens_parse_as_json_numbers() {
    let t = json_dec(&DecNum::new(true, 205, 2));
    let v: serde_json::Value = serde_json::from_str(&t).unwrap();
    assert!(v.is_number());
    assert_eq!(v.as_f64().unwrap(), -2.05);
}

#[test]
fn string_tokens_escape_specials() {
    assert_eq!(json_string("plain"), "\"plain\"");
    assert_eq!(json_string("a\"b"), "\"a\\\"b\"");
    assert_eq!(json_string("a\\b"), "\"a\\\\b\"");
    assert_eq!(json_string("a\nb\tc\rd"), "\"a\\nb\\tc\\rd\"");
    assert_eq!(json_string("a\u{01}b\u{1f}c"), "\"a\\u0001b\\u001fc\"");
    let v: serde_json::Value = serde_json::from_str(&json_string("a\"b\\c\nd")).unwrap();
    assert_eq!(v.as_str().unwrap(), "a\"b\\c\nd");
}

#[test]
fn color_named_form() {
    assert_eq!(Color::Named(NamedColor::Gray).to_wire(), "gray");
    assert_eq!(Color::Named(NamedColor::Blue).to_wire(), "blue");
    assert_eq!(Color::Named(NamedColor::Transparent).to_wire(), "transparent");
}

#[test]
fn color_rgb_form() {
    assert_eq!(Color::Rgb(255, 0, 127).to_wire(), "rgb(255, 0, 127)");
    assert_eq!(Color::Rgb(0, 0, 0).to_wire(), "rgb(0, 0, 0)");
}

#[test]
fn color_rgba_form() {
    let c = Color::Rgba(16, 32, 64, DecNum::new(false, 5, 1));
    assert_eq!(c.to_wire(), "rgba(16, 32, 64, 0.5)");
}

#[test]
fn color_raw_form_passes_through() {
    assert_eq!(Color::Raw("#AABBCC".to_string()).to_wire(), "#AABBCC");
    assert_eq!(Color::Raw("hsl(120, 50%, 50%)".to_string()).to_wire(), "hsl(120, 50%, 50%)");
}

#[test]
fn color_fragment_is_quoted() {
    assert_eq!(Color::Rgb(1, 2, 3).to_frag(), "\"rgb(1, 2, 3)\"");
}
