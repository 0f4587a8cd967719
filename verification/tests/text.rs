use pico_weather::hangul::{same_text, weather_to_korean, weekday_korean};
use pico_weather::text::{decimal_len, push_decimal, push_signed, push_zero_padded, signed_len};

#[test]
fn decimal_formatting() {
    let mut s = String::new();
    push_decimal(&mut s, 0);
    s.push(' ');
    push_decimal(&mut s, 4_294_967_295);
    assert_eq!(s, "0 4294967295");
    assert_eq!(decimal_len(0), 1);
    assert_eq!(decimal_len(10), 2);
    assert_eq!(decimal_len(u32::MAX), 10);
}

#[test]
fn zero_padding_like_format_width() {
    let mut s = String::new();
    push_zero_padded(&mut s, 7, 2);
    s.push('|');
    push_zero_padded(&mut s, 2026, 4);
    s.push('|');
    push_zero_padded(&mut s, 123, 2);
    s.push('|');
    push_zero_padded(&mut s, 5, 0);
    assert_eq!(s, "07|2026|123|5");
}

#[test]
fn signed_formatting() {
    let mut s = String::new();
    push_signed(&mut s, -42);
    s.push(' ');
    push_signed(&mut s, i32::MIN);
    s.push(' ');
    push_signed(&mut s, 0);
    assert_eq!(s, "-42 -2147483648 0");
    assert_eq!(signed_len(-42), 3);
    assert_eq!(signed_len(i32::MIN), 11);
    assert_eq!(signed_len(7), 1);
}

#[test]
fn korean_weekdays() {
    let names: Vec<&str> = (0..8).map(weekday_korean).collect();
    assert_eq!(names, vec!["일", "월", "화", "수", "목", "금", "토", "?"]);
}

#[test]
fn korean_weather_words() {
    let cases = [
        ("Clear", "맑음"),
        ("Clouds", "흐림"),
        ("Rain", "비"),
        ("Snow", "눈"),
        ("Mist", "박무"),
        ("Fog", "안개"),
        ("Haze", "연무"),
        ("Drizzle", "이슬비"),
        ("Thunderstorm", "뇌우"),
        ("Smoke", "Smoke"),
        ("clear", "clear"),
        ("", ""),
    ];
    for (en, kr) in cases {
        assert_eq!(weather_to_korean(en), kr);
    }
    assert!(same_text("Haze", "Haze"));
    assert!(!same_text("Haze", "Hazy"));
}
