use flappy::color::Color;
use flappy::query::{
    background_override, find_option, find_value_end, hex_digit, parse_bg_color, parse_color,
    wants_uncapped,
};

const SKY: Color = Color { r: 92, g: 184, b: 235, a: 255 };

#[test]
fn background_is_read_from_six_hex_digits() {
    assert_eq!(parse_bg_color("?bg=ff8000"), Color { r: 255, g: 128, b: 0, a: 255 });
    assert_eq!(parse_bg_color("?bg=000000"), Color { r: 0, g: 0, b: 0, a: 255 });
    assert_eq!(parse_bg_color("?bg=FFFFFF"), Color { r: 255, g: 255, b: 255, a: 255 });
    assert_eq!(parse_bg_color("?x=1&bg=0A0b0C&y=2"), Color { r: 10, g: 11, b: 12, a: 255 });
    assert_eq!(parse_bg_color("bg=123456"), Color { r: 0x12, g: 0x34, b: 0x56, a: 255 });
    assert_eq!(parse_bg_color("?uncapped=1&bg=abcdef"), Color { r: 0xab, g: 0xcd, b: 0xef, a: 255 });
    assert_eq!(parse_bg_color("?bg=102030&"), Color { r: 0x10, g: 0x20, b: 0x30, a: 255 });
    assert_eq!(parse_bg_color("?dbg=000000&bg=102030"), Color { r: 0x10, g: 0x20, b: 0x30, a: 255 });
    assert_eq!(parse_bg_color("?bg=102030&bg=zzzzzz"), Color { r: 0x10, g: 0x20, b: 0x30, a: 255 });
}

#[test]
fn bad_background_values_fall_back_to_the_default() {
    assert_eq!(parse_bg_color(""), SKY);
    assert_eq!(parse_bg_color("?"), SKY);
    assert_eq!(parse_bg_color("?uncapped=1"), SKY);
    assert_eq!(parse_bg_color("?bg="), SKY);
    assert_eq!(parse_bg_color("?bg"), SKY);
    assert_eq!(parse_bg_color("?bg=12345"), SKY);
    assert_eq!(parse_bg_color("?bg=12345&x=1"), SKY);
    assert_eq!(parse_bg_color("?bg=gg0000"), SKY);
    assert_eq!(parse_bg_color("?bg=00000g"), SKY);
    assert_eq!(parse_bg_color("?bg=+f0000"), SKY);
    assert_eq!(parse_bg_color("?bg=+f+f+f"), SKY);
    assert_eq!(parse_bg_color("?bg=ff 000"), SKY);
    assert_eq!(parse_bg_color("?bg=ff00001"), SKY);
    assert_eq!(parse_bg_color("?bg=abcdef99"), SKY);
    assert_eq!(parse_bg_color("?bg=abcdefzz"), SKY);
    assert_eq!(parse_bg_color("?bg=\u{e9}\u{e9}\u{e9}"), SKY);
    assert_eq!(parse_bg_color("?bg=zzzzzz&bg=ffffff"), SKY);
    assert_eq!(parse_bg_color("?BG=ffffff"), SKY);
    assert_eq!(parse_bg_color("?b=ffffff"), SKY);
    assert_eq!(parse_bg_color("?dbg=ffffff"), SKY);
    assert_eq!(parse_bg_color("?xbg=102030"), SKY);
    assert_eq!(parse_bg_color("??bg=102030"), SKY);
    assert_eq!(parse_bg_color("?a=?bg=102030"), SKY);
    assert_eq!(parse_bg_color("?a=bg=102030"), SKY);
}

#[test]
fn background_override_is_none_without_a_colour() {
    assert_eq!(background_override("?bg=ff8000"), Some(Color { r: 255, g: 128, b: 0, a: 255 }));
    assert_eq!(background_override("?bg=ff800"), None);
    assert_eq!(background_override("?bg=ff80000"), None);
    assert_eq!(background_override("?dbg=ff8000"), None);
    assert_eq!(background_override("?uncapped=1"), None);
    assert_eq!(background_override(""), None);
}

#[test]
fn uncapped_is_asked_for_by_its_key_and_value() {
    assert!(wants_uncapped("?uncapped=1"));
    assert!(wants_uncapped("uncapped=1"));
    assert!(wants_uncapped("?bg=ffffff&uncapped=1"));
    assert!(wants_uncapped("?uncapped=1&bg=ffffff"));
    assert!(wants_uncapped("?uncapped=1&uncapped=0"));
    assert!(!wants_uncapped("?uncapped=12"));
    assert!(!wants_uncapped("?uncapped=0"));
    assert!(!wants_uncapped("?uncapped=0&uncapped=1"));
    assert!(!wants_uncapped("?uncapped="));
    assert!(!wants_uncapped("?uncapped"));
    assert!(!wants_uncapped("?xuncapped=1"));
    assert!(!wants_uncapped("?a=uncapped=1"));
    assert!(!wants_uncapped(""));
    assert!(!wants_uncapped("?Uncapped=1"));
}

#[test]
fn options_are_found_where_they_begin() {
    assert_eq!(find_option(b"bg=1", b"bg="), Some(0));
    assert_eq!(find_option(b"?bg=1", b"bg="), Some(1));
    assert_eq!(find_option(b"?a=1&bg=1", b"bg="), Some(5));
    assert_eq!(find_option(b"?abg=1&bg=2&bg=3", b"bg="), Some(7));
    assert_eq!(find_option(b"?abg=1", b"bg="), None);
    assert_eq!(find_option(b"x?bg=1", b"bg="), None);
    assert_eq!(find_option(b"&bg=1", b"bg="), Some(1));
    assert_eq!(find_option(b"", b"bg="), None);
    assert_eq!(find_option(b"bg", b"bg="), None);
    assert_eq!(find_option(b"", b""), Some(0));
    assert_eq!(find_option(b"?a", b""), Some(0));
    assert_eq!(find_value_end(b"?bg=123&x", 4), 7);
    assert_eq!(find_value_end(b"?bg=123", 4), 7);
    assert_eq!(find_value_end(b"?bg=&x", 4), 4);
    assert_eq!(find_value_end(b"?bg=", 4), 4);
    assert_eq!(find_value_end(b"", 0), 0);
}

#[test]
fn hex_digits_have_their_values() {
    assert_eq!(hex_digit(b'0'), Some(0));
    assert_eq!(hex_digit(b'9'), Some(9));
    assert_eq!(hex_digit(b'a'), Some(10));
    assert_eq!(hex_digit(b'f'), Some(15));
    assert_eq!(hex_digit(b'A'), Some(10));
    assert_eq!(hex_digit(b'F'), Some(15));
    assert_eq!(hex_digit(b'g'), None);
    assert_eq!(hex_digit(b'G'), None);
    assert_eq!(hex_digit(b'/'), None);
    assert_eq!(hex_digit(b':'), None);
    assert_eq!(hex_digit(b'@'), None);
    assert_eq!(hex_digit(b'`'), None);
    assert_eq!(hex_digit(b'+'), None);
    assert_eq!(parse_color(b"xx102030", 2), Some(Color { r: 16, g: 32, b: 48, a: 255 }));
    assert_eq!(parse_color(b"xx102030", 3), None);
    assert_eq!(parse_color(b"xx102030", 100), None);
    assert_eq!(parse_color(b"102030", usize::MAX), None);
}
