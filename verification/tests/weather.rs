use pico_weather::weather::{find_list_bounds, parse_forecast, parse_today, WeatherData};

const KST: i32 = 9 * 3600;
const ICONS: [&str; 9] = ["01d", "02d", "03d", "04n", "09d", "10n", "11d", "13d", "50n"];

/// A forecast reply of `n` 3-hour entries from 2026-02-13 15:00 KST.
fn forecast_reply(n: usize) -> String {
    let start: u64 = 1_770_940_800 - 9 * 3600 + 5 * 3 * 3600;
    let mut parts = Vec::new();
    for k in 0..n {
        let dt = start + (k as u64) * 3 * 3600;
        let t = ((k * 7) % 23) as f64 - 6.0 + (k % 3) as f64 * 0.5;
        parts.push(format!(
            "{{\"dt\":{},\"main\":{{\"temp\":{:?},\"feels_like\":1.0,\"humidity\":50}},\"weather\":[{{\"id\":800,\"main\":\"Clear\",\"description\":\"x\",\"icon\":\"{}\"}}],\"dt_txt\":\"x\"}}",
            dt,
            t,
            ICONS[k % ICONS.len()]
        ));
    }
    format!(
        "{{\"cod\":\"200\",\"message\":0,\"cnt\":{},\"list\":[{}],\"city\":{{\"name\":\"Seoul\",\"coord\":{{\"lat\":37.5,\"lon\":127.0}}}}}}",
        n,
        parts.join(",")
    )
}

#[test]
fn today_forecast_takes_the_next_eight_entries() {
    let json = forecast_reply(40);
    let f = parse_today(json.as_bytes(), KST).unwrap();
    assert_eq!(f.count, 8);
    let got: Vec<(u8, i16, String)> =
        f.entries.iter().map(|e| (e.hour, e.temp, e.icon_code.as_str().to_string())).collect();
    let want: Vec<(u8, i16, String)> = vec![
        (15, -6, "01d"),
        (18, 2, "02d"),
        (21, 9, "03d"),
        (0, 15, "04n"),
        (3, -1, "09d"),
        (6, 7, "10n"),
        (9, 13, "11d"),
        (12, -3, "13d"),
    ]
    .into_iter()
    .map(|(h, t, i)| (h, t, i.to_string()))
    .collect();
    assert_eq!(got, want);
}

#[test]
fn today_forecast_with_fewer_entries_leaves_the_rest_empty() {
    let json = forecast_reply(3);
    let f = parse_today(json.as_bytes(), 0).unwrap();
    assert_eq!(f.count, 3);
    assert_eq!((f.entries[0].hour, f.entries[0].temp), (6, -6));
    for e in &f.entries[3..] {
        assert_eq!((e.hour, e.temp, e.icon_code.as_str()), (0, 0, ""));
    }
}

#[test]
fn temperatures_round_half_away_from_zero() {
    let json = br#"{"list":[{"dt":0,"main":{"temp":-0.4},"weather":[{"icon":"01d"}]},{"dt":10800,"main":{"temp":-2.5},"weather":[{"icon":"01d"}]},{"dt":21600,"main":{"temp": 4.49},"weather":[{"icon":"01d"}]},{"dt":32400,"main":{"temp":27},"weather":[{"icon":"01d"}]}]}"#;
    let f = parse_today(json, 0).unwrap();
    assert_eq!(f.count, 4);
    let temps: Vec<i16> = f.entries[..4].iter().map(|e| e.temp).collect();
    assert_eq!(temps, vec![0, -3, 4, 27]);
}

#[test]
fn reply_without_a_list_is_refused() {
    assert!(parse_today(b"{\"cod\":\"401\"}", 0).is_err());
    assert!(parse_forecast(b"{\"cod\":\"401\"}", 0).is_err());
    // An unterminated list.
    assert!(parse_today(b"{\"list\":[{\"dt\":1}", 0).is_err());
    assert!(parse_forecast(b"{\"list\":[{\"dt\":1}", 0).is_err());
}

#[test]
fn list_bounds_match_nested_brackets() {
    let json = b"{\"list\":[[1],[2,[3]]],\"x\":[]}";
    assert_eq!(find_list_bounds(json), Some((8, 20)));
    assert_eq!(find_list_bounds(b"{\"list\":[[]"), None);
}

#[test]
fn five_day_forecast_skips_today_and_summarises_each_day() {
    let json = forecast_reply(40);
    let f = parse_forecast(json.as_bytes(), KST).unwrap();
    assert_eq!(f.count, 5);
    let got: Vec<(u8, u8, u8, i16, i16, String)> = f
        .days
        .iter()
        .map(|d| (d.weekday, d.month, d.day, d.temp_min, d.temp_max, d.icon_code.as_str().to_string()))
        .collect();
    let want: Vec<(u8, u8, u8, i16, i16, String)> = vec![
        (6, 2, 14, -5, 15, "13d"),
        (0, 2, 15, -1, 17, "11d"),
        (1, 2, 16, -5, 16, "10n"),
        (2, 2, 17, -5, 14, "09d"),
        (3, 2, 18, 1, 16, "04n"),
    ]
    .into_iter()
    .map(|(w, m, d, lo, hi, i)| (w, m, d, lo, hi, i.to_string()))
    .collect();
    assert_eq!(got, want);
}

#[test]
fn five_day_forecast_of_a_short_list_keeps_every_day() {
    // 6 entries: 15:00, 18:00, 21:00 on the 13th, 00:00 .. 06:00 on the 14th.
    let json = forecast_reply(6);
    let f = parse_forecast(json.as_bytes(), KST).unwrap();
    assert_eq!(f.count, 2);
    assert_eq!((f.days[0].weekday, f.days[0].day, f.days[0].temp_min, f.days[0].temp_max), (5, 13, -6, 9));
    assert_eq!((f.days[1].day, f.days[1].temp_min, f.days[1].temp_max), (14, -1, 15));
    assert_eq!(f.days[0].icon_code.as_str(), "01d");
    assert_eq!((f.days[2].day, f.days[2].icon_code.as_str()), (0, ""));
}

#[test]
fn long_icon_codes_are_cut_to_eight_bytes_in_the_forecast() {
    let json = br#"{"list":[{"dt":43200,"main":{"temp":1.0},"weather":[{"icon":"0123456789"}]}]}"#;
    let f = parse_forecast(json, 0).unwrap();
    assert_eq!(f.count, 1);
    assert_eq!(f.days[0].icon_code.as_str(), "01234567");
}

#[test]
fn icon_codes_that_are_not_utf8_become_scattered_clouds() {
    let json = b"{\"list\":[{\"dt\":0,\"main\":{\"temp\":1},\"weather\":[{\"icon\":\"\xff\xfe\"}]}]}";
    let f = parse_today(json, 0).unwrap();
    assert_eq!(f.count, 1);
    assert_eq!(f.entries[0].icon_code.as_str(), "03d");
}

#[test]
fn current_weather_from_its_fields() {
    let w = WeatherData::from_fields("Clouds", "04d", -3, 81, 52);
    assert_eq!(w.description.as_str(), "Clouds");
    assert_eq!(w.icon_code.as_str(), "04d");
    assert_eq!((w.temp_int, w.humidity, w.wind_speed_10x), (-3, 81, 52));
}

#[test]
fn over_long_fields_are_left_empty() {
    let long = "x".repeat(33);
    let w = WeatherData::from_fields(&long, "123456789", 0, 0, 0);
    assert_eq!(w.description.as_str(), "");
    assert_eq!(w.icon_code.as_str(), "");
    let exact = "y".repeat(32);
    let w = WeatherData::from_fields(&exact, "12345678", 0, 0, 0);
    assert_eq!(w.description.as_str(), exact);
    assert_eq!(w.icon_code.as_str(), "12345678");
}

#[test]
fn over_long_icon_codes_are_dropped_in_the_today_forecast() {
    let json = br#"{"list":[{"dt":43200,"main":{"temp":1.0},"weather":[{"icon":"0123456789"}]}]}"#;
    let f = parse_today(json, 0).unwrap();
    assert_eq!(f.count, 1);
    assert_eq!((f.entries[0].hour, f.entries[0].icon_code.as_str()), (12, ""));
}
