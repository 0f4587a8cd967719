use pico_weather::menu::{offset_text, Menu, MenuAction, MenuScreen};
use pico_weather::scene::{FontSize, Scene, Shape};
use pico_weather::settings::Settings;
use pico_weather::touch::TouchPoint;

fn tp(x: u16, y: u16) -> TouchPoint {
    TouchPoint { x, y }
}

fn english() -> Settings {
    let mut s = Settings::new_default();
    s.language = 1;
    s
}

/// The ASCII texts of a scene with their positions.
fn texts(scene: &Scene) -> Vec<(String, i32, i32)> {
    scene
        .shapes
        .iter()
        .filter_map(|s| match s {
            Shape::Text { text, x, y, .. } => Some((text.clone(), *x, *y)),
            _ => None,
        })
        .collect()
}

fn hangul_texts(scene: &Scene) -> Vec<(String, i32, i32)> {
    scene
        .shapes
        .iter()
        .filter_map(|s| match s {
            Shape::HangulText { text, x, y, .. } => Some((text.clone(), *x, *y)),
            _ => None,
        })
        .collect()
}

#[test]
fn back_button_on_main_screen_leaves_the_menu() {
    let mut m = Menu::new(Settings::new_default());
    assert_eq!(m.handle_touch(tp(10, 10)), MenuAction::Exit);
    assert_eq!(m.settings, Settings::new_default());
}

#[test]
fn touching_the_language_row_toggles_it_twice_back() {
    let mut m = Menu::new(Settings::new_default());
    assert_eq!(m.handle_touch(tp(100, 30)), MenuAction::Redraw);
    assert_eq!(m.settings.language, 1);
    assert_eq!(m.handle_touch(tp(100, 30)), MenuAction::Redraw);
    assert_eq!(m.settings, Settings::new_default());
}

#[test]
fn scrolling_down_shows_the_second_page() {
    let mut m = Menu::new(Settings::new_default());
    assert_eq!(m.handle_touch(tp(270, 5)), MenuAction::Redraw);
    assert_eq!(m.screen, MenuScreen::Main { scroll: 4 });
    // First row of the second page is the time format.
    assert_eq!(m.handle_touch(tp(100, 30)), MenuAction::Redraw);
    assert_eq!(m.settings.time_format, 1);
    // Below the last item nothing happens.
    assert_eq!(m.handle_touch(tp(100, 110)), MenuAction::NoChange);
    assert_eq!(m.handle_touch(tp(240, 5)), MenuAction::Redraw);
    assert_eq!(m.screen, MenuScreen::Main { scroll: 0 });
}

#[test]
fn interval_cycles_through_the_table() {
    let mut m = Menu::new(Settings::new_default());
    m.handle_touch(tp(270, 5));
    let mut seen = Vec::new();
    for _ in 0..5 {
        // Second row of the second page: the interval.
        assert_eq!(m.handle_touch(tp(100, 22 + 26 + 5)), MenuAction::Redraw);
        seen.push(m.settings.interval_index);
    }
    assert_eq!(seen, vec![1, 2, 3, 4, 0]);
}

#[test]
fn timezone_editor_steps_and_clamps() {
    let mut m = Menu::new(Settings::new_default());
    assert_eq!(m.handle_touch(tp(100, 22 + 26 + 5)), MenuAction::Redraw);
    assert_eq!(m.screen, MenuScreen::EditTimezone);
    assert_eq!(m.handle_touch(tp(50, 100)), MenuAction::Redraw);
    assert_eq!(m.settings.utc_offset, 8);
    assert_eq!(m.handle_touch(tp(200, 100)), MenuAction::Redraw);
    assert_eq!(m.settings.utc_offset, 9);
    for _ in 0..10 {
        m.handle_touch(tp(200, 100));
    }
    assert_eq!(m.settings.utc_offset, 14);
    for _ in 0..40 {
        m.handle_touch(tp(50, 100));
    }
    assert_eq!(m.settings.utc_offset, -12);
    assert_eq!(m.handle_touch(tp(200, 50)), MenuAction::NoChange);
    assert_eq!(m.handle_touch(tp(5, 5)), MenuAction::Redraw);
    assert_eq!(m.screen, MenuScreen::Main { scroll: 0 });
}

#[test]
fn choosing_a_city_returns_to_the_main_list() {
    let mut m = Menu::new(Settings::new_default());
    assert_eq!(m.handle_touch(tp(100, 22 + 52 + 5)), MenuAction::Redraw);
    assert_eq!(m.screen, MenuScreen::EditCity { scroll: 0 });
    assert_eq!(m.handle_touch(tp(270, 5)), MenuAction::Redraw);
    assert_eq!(m.screen, MenuScreen::EditCity { scroll: 4 });
    assert_eq!(m.handle_touch(tp(270, 5)), MenuAction::Redraw);
    assert_eq!(m.screen, MenuScreen::EditCity { scroll: 8 });
    assert_eq!(m.handle_touch(tp(270, 5)), MenuAction::Redraw);
    assert_eq!(m.screen, MenuScreen::EditCity { scroll: 8 });
    // Rows past the last city do nothing.
    assert_eq!(m.handle_touch(tp(100, 22 + 52 + 5)), MenuAction::NoChange);
    assert_eq!(m.handle_touch(tp(100, 22 + 26 + 5)), MenuAction::Redraw);
    assert_eq!(m.settings.city_index, 9);
    assert_eq!(m.screen, MenuScreen::Main { scroll: 0 });
}

#[test]
fn value_texts_of_the_items() {
    let mut s = Settings::new_default();
    s.utc_offset = -5;
    s.city_index = 3;
    s.temp_unit = 1;
    s.interval_index = 2;
    s.display_mode = 1;
    let m = Menu::new(s);
    let values: Vec<String> = (0..8).map(|i| m.item_value_str(i)).collect();
    assert_eq!(values, vec!["Korean", "UTC-5", "London", "F", "24h", "3hr", "Inverted", ""]);
    assert_eq!(offset_text(0), "UTC+0");
    assert_eq!(offset_text(14), "UTC+14");
}

#[test]
fn korean_main_menu_drawing() {
    let scene = Menu::new(Settings::new_default()).render();
    assert!(!scene.inverted);
    assert!(matches!(scene.shapes[0], Shape::Rect { x: 0, y: 0, w: 20, h: 20, stroke: 1 }));
    let h = hangul_texts(&scene);
    assert_eq!(h[0], ("설정".to_string(), 24, 3));
    assert_eq!(h[1], ("언어".to_string(), 8, 27));
    assert_eq!(h[4], ("온도".to_string(), 8, 27 + 78));
    assert_eq!(h.len(), 5);
    let t = texts(&scene);
    assert_eq!(t[0], ("<".to_string(), 5, 15));
    assert!(t.contains(&("Korean".to_string(), 180, 41)));
    assert!(t.contains(&("Seoul".to_string(), 180, 41 + 52)));
    assert_eq!(t.last().unwrap(), &("1/2".to_string(), 264, 118));
}

#[test]
fn english_second_page_drawing() {
    let mut m = Menu::new(english());
    m.screen = MenuScreen::Main { scroll: 4 };
    let t = texts(&m.render());
    assert!(t.contains(&("Settings".to_string(), 24, 15)));
    assert!(t.contains(&("Time Fmt".to_string(), 8, 41)));
    assert!(t.contains(&("24h".to_string(), 180, 41)));
    assert!(t.contains(&("Interval".to_string(), 8, 67)));
    assert!(t.contains(&("1hr".to_string(), 180, 67)));
    assert!(t.contains(&("Display".to_string(), 8, 93)));
    assert!(t.contains(&("Normal".to_string(), 180, 93)));
    assert!(!t.iter().any(|(s, _, _)| s == "Language"));
    assert_eq!(t.last().unwrap(), &("2/2".to_string(), 264, 118));
}

#[test]
fn city_list_drawing_marks_the_chosen_city() {
    let mut s = english();
    s.city_index = 5;
    let mut m = Menu::new(s);
    m.screen = MenuScreen::EditCity { scroll: 4 };
    let t = texts(&m.render());
    assert!(t.contains(&("City".to_string(), 24, 15)));
    assert!(t.contains(&("  Paris".to_string(), 16, 41)));
    assert!(t.contains(&("> Sydney".to_string(), 16, 67)));
    assert!(t.contains(&("  Singapore".to_string(), 16, 119)));
    assert_eq!(t.last().unwrap(), &("2/3".to_string(), 264, 118));
    m.screen = MenuScreen::EditCity { scroll: 8 };
    let t = texts(&m.render());
    assert!(t.contains(&("  Los Angeles".to_string(), 16, 67)));
    assert_eq!(t.last().unwrap(), &("3/3".to_string(), 264, 118));
}

#[test]
fn timezone_screen_drawing() {
    let mut s = english();
    s.utc_offset = -5;
    let mut m = Menu::new(s);
    m.screen = MenuScreen::EditTimezone;
    let scene = m.render();
    let large: Vec<(String, i32, i32)> = scene
        .shapes
        .iter()
        .filter_map(|sh| match sh {
            Shape::Text { text, x, y, font: FontSize::Large } => Some((text.clone(), *x, *y)),
            _ => None,
        })
        .collect();
    assert_eq!(
        large,
        vec![("UTC-5".to_string(), 90, 60), ("-".to_string(), 60, 105), ("+".to_string(), 214, 105)]
    );
    assert!(scene
        .shapes
        .iter()
        .any(|sh| matches!(sh, Shape::Rect { x: 166, y: 75, w: 120, h: 45, stroke: 2 })));
}

#[test]
fn timezone_steps_by_one_within_range() {
    let mut m = Menu::new(Settings::new_default());
    m.screen = MenuScreen::EditTimezone;
    m.settings.utc_offset = 14;
    assert_eq!(m.handle_touch(tp(200, 75)), MenuAction::Redraw);
    assert_eq!(m.settings.utc_offset, 14);
    assert_eq!(m.handle_touch(tp(148, 125)), MenuAction::Redraw);
    assert_eq!(m.settings.utc_offset, 13);
    assert_eq!(m.handle_touch(tp(148, 126)), MenuAction::NoChange);
    assert_eq!(m.settings.utc_offset, 13);
}
