//! The scalar codecs: boolean tokens, position tokens and attribute-value
//! integers.
use timespinner_map::error::LoadError;
use timespinner_map::parse_bool;
use timespinner_map::parse_position;
use timespinner_map::text::parse_i32_str;
use timespinner_map::text::parse_u32_str;
use timespinner_map::text::parse_u8_str;
use timespinner_map::Position;

#[test]
fn bool_codec_accepts_exactly_the_two_tokens() {
    assert_eq!(parse_bool("True"), Ok(true));
    assert_eq!(parse_bool("False"), Ok(false));
    assert_eq!(parse_bool("true"), Err(LoadError::Schema));
    assert_eq!(parse_bool("TRUE"), Err(LoadError::Schema));
    assert_eq!(parse_bool("False "), Err(LoadError::Schema));
    assert_eq!(parse_bool(""), Err(LoadError::Schema));
    assert_eq!(parse_bool("1"), Err(LoadError::Schema));
}

#[test]
fn position_codec_decodes_exactly() {
    assert_eq!(parse_position("{X:0 Y:1}"), Ok(Position { x: 0, y: 1 }));
    assert_eq!(parse_position("{X:123 Y:456}"), Ok(Position { x: 123, y: 456 }));
    assert_eq!(
        parse_position("{X:2147483647 Y:0}"),
        Ok(Position { x: 2147483647, y: 0 })
    );
    // leading zeros are digits too
    assert_eq!(parse_position("{X:007 Y:010}"), Ok(Position { x: 7, y: 10 }));
}

#[test]
fn position_codec_round_trips() {
    for &(x, y) in &[(0, 0), (1, 2), (25, 20), (4096, 31), (2147483647, 2147483646)] {
        let token = format!("{{X:{} Y:{}}}", x, y);
        assert_eq!(parse_position(&token), Ok(Position { x, y }));
    }
}

#[test]
fn position_codec_rejects_malformed_tokens() {
    assert_eq!(parse_position("X:0 Y:1}"), Err(LoadError::Schema));
    assert_eq!(parse_position("{X:0 Y:1"), Err(LoadError::Schema));
    assert_eq!(parse_position("{X: Y:1}"), Err(LoadError::Schema));
    assert_eq!(parse_position("{X:0 Y:}"), Err(LoadError::Schema));
    assert_eq!(parse_position("{X:-3 Y:1}"), Err(LoadError::Schema));
    assert_eq!(parse_position("{X:0 Y:1} "), Err(LoadError::Schema));
    assert_eq!(parse_position("{X:0  Y:1}"), Err(LoadError::Schema));
    assert_eq!(parse_position("{Y:0 X:1}"), Err(LoadError::Schema));
    assert_eq!(parse_position(""), Err(LoadError::Schema));
    // components beyond the i32 range fail rather than wrap
    assert_eq!(parse_position("{X:2147483648 Y:0}"), Err(LoadError::Schema));
    assert_eq!(parse_position("{X:99999999999999 Y:0}"), Err(LoadError::Schema));
}

#[test]
fn integer_grammar_matches_attribute_values() {
    assert_eq!(parse_i32_str("0"), Some(0));
    assert_eq!(parse_i32_str("-17"), Some(-17));
    assert_eq!(parse_i32_str("+17"), Some(17));
    assert_eq!(parse_i32_str("2147483647"), Some(2147483647));
    assert_eq!(parse_i32_str("-2147483648"), Some(-2147483648));
    assert_eq!(parse_i32_str("2147483648"), None);
    assert_eq!(parse_i32_str("-2147483649"), None);
    assert_eq!(parse_i32_str(""), None);
    assert_eq!(parse_i32_str("-"), None);
    assert_eq!(parse_i32_str("12a"), None);
    assert_eq!(parse_i32_str(" 1"), None);

    assert_eq!(parse_u32_str("4294967295"), Some(4294967295));
    assert_eq!(parse_u32_str("4294967296"), None);
    assert_eq!(parse_u32_str("-1"), None);
    assert_eq!(parse_u32_str("+8"), Some(8));

    assert_eq!(parse_u8_str("255"), Some(255));
    assert_eq!(parse_u8_str("256"), None);
    assert_eq!(parse_u8_str("007"), Some(7));
}
