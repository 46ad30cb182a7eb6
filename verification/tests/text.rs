use z13helper::number::{parse_i32, parse_i64, parse_number, parse_u64};
use z13helper::text::{
    blank, contains_text, decimal_text, ends_with, insert_text, join, lowered, lowers_to,
    only_digits, path_below, signed_decimal_text, split, stands_before, starts_with, to_lower,
    trim, trim_end, white_space,
};
use z13helper::text_map::TextMap;

#[test]
fn white_space_agrees_with_the_standard_library() {
    for code in 0..=0x10ffff {
        if let Some(c) = char::from_u32(code) {
            assert_eq!(white_space(c), c.is_whitespace(), "{code:x}");
            assert_eq!(to_lower(c), c.to_ascii_lowercase(), "{code:x}");
        }
    }
}

#[test]
fn trimming_agrees_with_the_standard_library() {
    for text in [
        "",
        " ",
        "a",
        " a ",
        "\t\u{a0}word\u{2003}",
        "\u{3000}\u{e9}t\u{e9} \n",
        "no space",
    ] {
        assert_eq!(trim(text), text.trim());
        assert_eq!(trim_end(text), text.trim_end());
        assert_eq!(blank(text), text.trim().is_empty());
        assert_eq!(lowered(text), text.to_ascii_lowercase());
    }
    assert_eq!(lowered("Gamescope-\u{c9}"), "gamescope-\u{c9}");
    assert!(lowers_to("KDE", "kde"));
    assert!(!lowers_to("KDE", "KDE"));
}

#[test]
fn numbers_agree_with_the_standard_library() {
    for text in [
        "",
        "+",
        "-",
        "0",
        "-0",
        "+7",
        "12",
        "-12",
        "1x",
        " 1",
        "18446744073709551615",
        "18446744073709551616",
        "99999999999999999999999999",
        "9223372036854775807",
        "-9223372036854775808",
        "-9223372036854775809",
        "2147483647",
        "2147483648",
        "-2147483648",
        "-2147483649",
        "00000000000000000000000000000001",
    ] {
        let wanted = text.parse::<u64>().map_err(|error| error.to_string());
        let found = parse_u64(text).map_err(|error| error.message().to_owned());
        assert_eq!(found, wanted, "{text:?}");
        let wanted = text.parse::<i64>().map_err(|error| error.to_string());
        let found = parse_i64(text).map_err(|error| error.message().to_owned());
        assert_eq!(found, wanted, "{text:?}");
        let wanted = text.parse::<i32>().map_err(|error| error.to_string());
        let found = parse_i32(text).map_err(|error| error.message().to_owned());
        assert_eq!(found, wanted, "{text:?}");
    }
    assert_eq!(parse_number("255", 0, 255), Ok(255));
    assert!(parse_number("256", 0, 255).is_err());
}

#[test]
fn numbers_are_written_in_decimal() {
    for value in [0, 1, 9, 10, 105, u64::MAX as u128, u128::MAX] {
        assert_eq!(decimal_text(value), value.to_string());
    }
    for value in [0, -1, 7, i64::MIN, i64::MAX] {
        assert_eq!(signed_decimal_text(value), value.to_string());
    }
}

#[test]
fn parts_are_found_where_they_stand() {
    assert!(contains_text("Tctl sensor", "sensor"));
    assert!(contains_text("x", ""));
    assert!(!contains_text("", "x"));
    assert!(starts_with("gamescope-0", "gamescope-"));
    assert!(!starts_with("game", "gamescope-"));
    assert!(ends_with("fan1_input", "_input"));
    assert!(!ends_with("fan1", "_input"));
    assert!(only_digits("012"));
    assert!(only_digits(""));
    assert!(!only_digits("1a"));
}

#[test]
fn splitting_and_joining_undo_each_other() {
    for text in ["", ":", "a", "a:b", ":a::b:"] {
        let parts = split(text, ':');
        let wanted: Vec<String> = text.split(':').map(str::to_owned).collect();
        assert_eq!(parts, wanted);
        assert_eq!(join(&parts, ":"), text);
    }
    assert_eq!(path_below("/run", "x.sock"), "/run/x.sock");
}

#[test]
fn texts_are_kept_in_order() {
    let words = ["fan2", "fan10", "", "fan1", "\u{e9}", "fan1"];
    for a in words {
        for b in words {
            assert_eq!(stands_before(a, b), a < b, "{a:?} {b:?}");
        }
    }
    let mut sorted: Vec<String> = Vec::new();
    for word in words {
        insert_text(&mut sorted, word);
    }
    let mut wanted: Vec<String> = words.iter().map(|word| (*word).to_owned()).collect();
    wanted.sort();
    wanted.dedup();
    assert_eq!(sorted, wanted);
}

#[test]
fn counters_are_kept_by_name() {
    let mut map = TextMap::new();
    assert_eq!(map.get("a"), None);
    map.insert("a", 1);
    map.insert("b", 2);
    map.insert("a", 3);
    assert_eq!(map.get("a"), Some(3));
    assert_eq!(map.get("b"), Some(2));
    map.remove("a");
    map.remove("missing");
    assert_eq!(map.get("a"), None);
    assert_eq!(map.get("b"), Some(2));
}
