use pico_weather::scan::{
    extract_string_after, find_bytes, matching_bracket, parse_rounded_at, parse_u32_at,
};

#[test]
fn find_bytes_returns_the_first_match_from_the_start() {
    let d = b"abcabc";
    assert_eq!(find_bytes(d, b"bc", 0), Some(1));
    assert_eq!(find_bytes(d, b"bc", 2), Some(4));
    assert_eq!(find_bytes(d, b"bc", 5), None);
    assert_eq!(find_bytes(d, b"", 0), None);
    assert_eq!(find_bytes(d, b"abcabcx", 0), None);
}

#[test]
fn unsigned_numbers_after_blanks() {
    assert_eq!(parse_u32_at(b": \t1770940800,", 1), Some((1_770_940_800, 13)));
    assert_eq!(parse_u32_at(b"x", 0), None);
    assert_eq!(parse_u32_at(b"  ", 0), None);
}

#[test]
fn decimal_numbers_rounded_to_integers() {
    assert_eq!(parse_rounded_at(b"12.5,", 0), Some((13, 4)));
    assert_eq!(parse_rounded_at(b"-12.5}", 0), Some((-13, 5)));
    assert_eq!(parse_rounded_at(b" 0.49", 0), Some((0, 5)));
    assert_eq!(parse_rounded_at(b"-0.51", 0), Some((-1, 5)));
    assert_eq!(parse_rounded_at(b"7.", 0), Some((7, 2)));
    assert_eq!(parse_rounded_at(b".5", 0), Some((1, 2)));
    assert_eq!(parse_rounded_at(b"-", 0), None);
    assert_eq!(parse_rounded_at(b"abc", 0), None);
}

#[test]
fn quoted_value_after_a_key() {
    let d = br#"{"icon" : "10d","x":1}"#;
    assert_eq!(extract_string_after(d, b"\"icon\"", 0), Some((11, 14, 15)));
    assert_eq!(extract_string_after(d, b"\"nope\"", 0), None);
}

#[test]
fn bracket_matching_counts_depth() {
    assert_eq!(matching_bracket(b"[[][]]x", 0), Some(5));
    assert_eq!(matching_bracket(b"[[]", 0), None);
}
