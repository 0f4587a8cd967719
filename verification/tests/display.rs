use pico_weather::display::{render_boot, render_to_buffer, DisplayBuffer, BUF_SIZE};
use pico_weather::ntp::DateTime;
use pico_weather::scene::{FontSize, Scene, Shape};
use pico_weather::settings::Settings;
use pico_weather::weather::WeatherData;

#[test]
fn new_buffer_is_white() {
    let fb = DisplayBuffer::new();
    assert_eq!(fb.buffer().len(), BUF_SIZE);
    assert!(fb.buffer().iter().all(|&b| b == 0xFF));
    assert!(!fb.is_on(0, 0));
    assert!(!fb.is_on(295, 127));
}

#[test]
fn pixel_mapping_turns_the_image_a_quarter() {
    let mut fb = DisplayBuffer::new();
    fb.set_pixel(0, 0, true);
    // Screen (0, 0) is memory column 132 of row 0: byte 16, bit 4 from the left.
    assert_eq!(fb.buffer()[16], 0xF7);
    assert!(fb.is_on(0, 0));
    fb.set_pixel(295, 127, true);
    // Screen (295, 127) is memory column 5 of row 295: byte 295 * 17, bit 5.
    assert_eq!(fb.buffer()[295 * 17], 0xFB);
    assert!(fb.is_on(295, 127));
    let black: usize = fb.buffer().iter().map(|b| (!b).count_ones() as usize).sum();
    assert_eq!(black, 2);
}

#[test]
fn painting_a_pixel_white_again_restores_the_image() {
    let mut fb = DisplayBuffer::new();
    fb.set_pixel(100, 50, true);
    assert!(fb.is_on(100, 50));
    assert!(!fb.is_on(100, 51));
    assert!(!fb.is_on(101, 50));
    fb.set_pixel(100, 50, false);
    assert!(fb.buffer().iter().all(|&b| b == 0xFF));
}

#[test]
fn pixels_off_the_screen_are_ignored() {
    let mut fb = DisplayBuffer::new();
    for (x, y) in [(-1, 0), (0, -1), (296, 0), (0, 128), (i32::MIN, i32::MAX)] {
        fb.set_pixel(x, y, true);
    }
    assert!(fb.buffer().iter().all(|&b| b == 0xFF));
}

#[test]
fn inverting_flips_every_pixel_and_twice_restores() {
    let mut fb = DisplayBuffer::new();
    fb.set_pixel(10, 20, true);
    fb.invert();
    assert!(!fb.is_on(10, 20));
    assert!(fb.is_on(11, 20));
    assert_eq!(fb.buffer()[10 * 17 + (132 - 20) / 8], 0x80);
    fb.invert();
    assert!(fb.is_on(10, 20));
    assert!(!fb.is_on(11, 20));
}

#[test]
fn clearing_makes_the_screen_white() {
    let mut fb = DisplayBuffer::new();
    fb.invert();
    fb.clear();
    assert!(fb.buffer().iter().all(|&b| b == 0xFF));
}

fn texts(scene: &Scene) -> Vec<(String, i32, i32)> {
    scene
        .shapes
        .iter()
        .filter_map(|s| match s {
            Shape::Text { text, x, y, .. } => Some((text.clone(), *x, *y)),
            _ => None,
        })
        .collect()
}

fn hangul(scene: &Scene) -> Vec<(String, i32, i32)> {
    scene
        .shapes
        .iter()
        .filter_map(|s| match s {
            Shape::HangulText { text, x, y, .. } => Some((text.clone(), *x, *y)),
            _ => None,
        })
        .collect()
}

fn friday() -> DateTime {
    DateTime { year: 2026, month: 2, day: 13, hour: 9, minute: 5, second: 0, weekday: 5 }
}

fn clear_weather() -> WeatherData {
    WeatherData::from_fields("Clear", "01d", 8, 45, 25)
}

#[test]
fn boot_screen_shows_the_message() {
    let s = render_boot("Connecting WiFi...");
    assert!(!s.inverted);
    assert_eq!(texts(&s), vec![("Connecting WiFi...".to_string(), 8, 64)]);
}

#[test]
fn english_weather_screen_layout() {
    let mut settings = Settings::new_default();
    settings.language = 1;
    let w = clear_weather();
    let scene = render_to_buffer(Some(&friday()), Some(&w), &settings);
    assert!(!scene.inverted);
    let t = texts(&scene);
    assert_eq!(
        t,
        vec![
            ("2026.02.13 Fri".to_string(), 25, 14),
            ("09:05".to_string(), 39, 78),
            ("Seoul".to_string(), 56, 118),
            ("8".to_string(), 225, 42),
            ("Clear".to_string(), 206, 71),
            ("Hum 45%".to_string(), 175, 109),
            ("2.5m/s".to_string(), 239, 109),
        ]
    );
    assert!(matches!(
        scene.shapes[143],
        Shape::Line { x0: 148, y0: 8, x1: 148, y1: 120, stroke: 1 }
    ));
    // The sun's disc at the icon's box (187, 16) + (8, 8).
    assert!(matches!(scene.shapes[144], Shape::Disc { x: 195, y: 24, diameter: 16 }));
    assert!(scene.shapes.iter().any(|s| matches!(
        s,
        Shape::RingAfter { dx: 1, y: 18, diameter: 4, stroke: 1 }
    )));
    assert!(scene.shapes.iter().any(|s| matches!(
        s,
        Shape::TextAfter { text, dx: 8, y: 42, font: FontSize::Large } if text == "C"
    )));
    // The wind arrow after the humidity.
    assert!(scene.shapes.iter().any(|s| matches!(
        s,
        Shape::Line { x0: 225, y0: 103, x1: 235, y1: 103, stroke: 1 }
    )));
}

#[test]
fn korean_weather_screen_layout() {
    let settings = Settings::new_default();
    let w = clear_weather();
    let scene = render_to_buffer(Some(&friday()), Some(&w), &settings);
    assert_eq!(
        hangul(&scene),
        vec![("2026.02.13 (금)".to_string(), 20, 2), ("습도 45%".to_string(), 168, 96)]
    );
    assert!(scene.shapes.iter().any(|s| matches!(
        s,
        Shape::CenteredHangulText { text, left: 152, width: 144, y: 58, .. } if text == "맑음"
    )));
    let t = texts(&scene);
    assert!(t.contains(&("2.5m/s".to_string(), 246, 109)));
}

#[test]
fn twelve_hour_clock_and_fahrenheit() {
    let mut settings = Settings::new_default();
    settings.language = 1;
    settings.time_format = 1;
    settings.temp_unit = 1;
    let w = WeatherData::from_fields("Snow", "13n", -7, 90, 0);
    let mut t = friday();
    t.hour = 0;
    let scene = render_to_buffer(Some(&t), Some(&w), &settings);
    let tx = texts(&scene);
    assert!(tx.contains(&("12:05".to_string(), 31, 78)));
    assert!(tx.contains(&("AM".to_string(), 112, 78)));
    // -7 C is 20 F when divided as integers (-63 / 5 rounds toward zero).
    assert!(tx.contains(&("20".to_string(), 218, 42)));
    assert!(tx.contains(&("0.0m/s".to_string(), 239, 109)));
    t.hour = 13;
    let tx = texts(&render_to_buffer(Some(&t), Some(&w), &settings));
    assert!(tx.contains(&("01:05".to_string(), 31, 78)));
    assert!(tx.contains(&("PM".to_string(), 112, 78)));
    t.hour = 12;
    let tx = texts(&render_to_buffer(Some(&t), Some(&w), &settings));
    assert!(tx.contains(&("12:05".to_string(), 31, 78)));
    assert!(tx.contains(&("PM".to_string(), 112, 78)));
}

#[test]
fn screen_without_data_and_inverted() {
    let mut settings = Settings::new_default();
    settings.display_mode = 1;
    settings.city_index = 9;
    let scene = render_to_buffer(None, None, &settings);
    assert!(scene.inverted);
    assert_eq!(
        texts(&scene),
        vec![
            ("----.--.-- (--)".to_string(), 8, 14),
            ("--:--".to_string(), 39, 78),
            ("Los Angeles".to_string(), 35, 118),
            ("No data".to_string(), 185, 65),
        ]
    );
}

#[test]
fn unknown_conditions_keep_their_english_word_in_korean() {
    let settings = Settings::new_default();
    let w = WeatherData::from_fields("Tornado", "50d", 20, 10, 123);
    let scene = render_to_buffer(Some(&friday()), Some(&w), &settings);
    assert!(scene.shapes.iter().any(|s| matches!(
        s,
        Shape::CenteredHangulText { text, .. } if text == "Tornado"
    )));
    assert!(texts(&scene).iter().any(|(s, _, _)| s == "12.3m/s"));
}

#[test]
fn display_mode_only_sets_inversion() {
    let s0 = Settings::new_default();
    let mut s1 = s0;
    s1.display_mode = 1;
    let w = clear_weather();
    let a = render_to_buffer(Some(&friday()), Some(&w), &s0);
    let b = render_to_buffer(Some(&friday()), Some(&w), &s1);
    assert!(!a.inverted && b.inverted);
    assert_eq!(format!("{:?}", a.shapes), format!("{:?}", b.shapes));
    let mut fa = DisplayBuffer::new();
    fa.set_pixel(3, 4, true);
    let mut fb = DisplayBuffer::new();
    fb.set_pixel(3, 4, true);
    fb.invert();
    assert!(fa.buffer().iter().zip(fb.buffer()).all(|(x, y)| *x == !*y));
}

#[test]
fn gear_stands_before_the_city_name() {
    let scene = render_to_buffer(None, None, &Settings::new_default());
    // Date, clock, 140 gear dots, city name, divider, "No data".
    assert_eq!(scene.shapes.len(), 2 + 140 + 3);
    // "Seoul" starts at x = 56; the gear's box starts 20 pixels before it, at y = 103.
    assert!(matches!(scene.shapes[2], Shape::Dot { x: 44, y: 103 }));
    assert!(matches!(scene.shapes[141], Shape::Dot { x: 43, y: 118 }));
    assert!(matches!(&scene.shapes[142], Shape::Text { text, x: 56, y: 118, .. } if text == "Seoul"));
}
