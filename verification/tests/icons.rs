use pico_weather::icons::{
    draw_degree_symbol, draw_settings_icon, draw_weather_icon, draw_wind_arrow, icon_kind, IconKind,
};
use pico_weather::scene::{Scene, Shape};

#[test]
fn icon_choice_by_code_prefix() {
    let cases = [
        ("01d", IconKind::Sun),
        ("01n", IconKind::Sun),
        ("02d", IconKind::PartialCloud),
        ("03n", IconKind::Cloud),
        ("04d", IconKind::Overcast),
        ("09d", IconKind::Rain),
        ("10n", IconKind::Rain),
        ("11d", IconKind::Thunder),
        ("13d", IconKind::Snow),
        ("50n", IconKind::Mist),
        ("99d", IconKind::Cloud),
        ("0", IconKind::Cloud),
        ("", IconKind::Cloud),
    ];
    for (code, kind) in cases {
        assert_eq!(icon_kind(code), kind, "{}", code);
    }
}

#[test]
fn sun_icon_shapes() {
    let mut s = Scene::new();
    draw_weather_icon(&mut s, 100, 10, "01d");
    assert_eq!(s.shapes.len(), 9);
    assert!(matches!(s.shapes[0], Shape::Disc { x: 108, y: 18, diameter: 16 }));
    assert!(matches!(s.shapes[1], Shape::Line { x0: 116, y0: 10, x1: 116, y1: 14, stroke: 2 }));
    assert!(matches!(s.shapes[8], Shape::Line { x0: 126, y0: 39, x1: 123, y1: 36, stroke: 2 }));
}

#[test]
fn overcast_icon_is_two_cloud_outlines() {
    let mut s = Scene::new();
    draw_weather_icon(&mut s, 0, 0, "04n");
    assert_eq!(s.shapes.len(), 8);
    assert!(matches!(s.shapes[0], Shape::Ring { x: 10, y: 8, diameter: 14, stroke: 2 }));
    assert!(matches!(s.shapes[4], Shape::Ring { x: 2, y: 16, diameter: 14, stroke: 2 }));
    assert!(matches!(s.shapes[7], Shape::Line { x0: 3, y0: 29, x1: 25, y1: 29, stroke: 2 }));
}

#[test]
fn rain_snow_thunder_and_mist_icons() {
    let mut s = Scene::new();
    draw_weather_icon(&mut s, 0, 0, "10d");
    assert_eq!(s.shapes.len(), 7);
    assert!(matches!(s.shapes[3], Shape::FilledRect { x: 4, y: 16, w: 24, h: 8 }));
    assert!(matches!(s.shapes[6], Shape::Line { x0: 22, y0: 26, x1: 20, y1: 31, stroke: 1 }));
    let mut s = Scene::new();
    draw_weather_icon(&mut s, 0, 0, "13d");
    assert!(matches!(s.shapes[5], Shape::Disc { x: 14, y: 29, diameter: 3 }));
    let mut s = Scene::new();
    draw_weather_icon(&mut s, 0, 0, "11d");
    assert!(matches!(s.shapes[6], Shape::Line { x0: 17, y0: 28, x1: 14, y1: 32, stroke: 2 }));
    let mut s = Scene::new();
    draw_weather_icon(&mut s, 0, 0, "50d");
    assert_eq!(s.shapes.len(), 4);
    assert!(matches!(s.shapes[1], Shape::Line { x0: 4, y0: 14, x1: 30, y1: 14, stroke: 2 }));
}

#[test]
fn partial_cloud_icon_has_a_sun_behind() {
    let mut s = Scene::new();
    draw_weather_icon(&mut s, 10, 10, "02d");
    assert_eq!(s.shapes.len(), 5);
    assert!(matches!(s.shapes[0], Shape::Disc { x: 26, y: 10, diameter: 14 }));
    assert!(matches!(s.shapes[1], Shape::Disc { x: 12, y: 24, diameter: 14 }));
}

#[test]
fn degree_sign_and_wind_arrow() {
    let mut s = Scene::new();
    draw_degree_symbol(&mut s, 5, 6);
    draw_wind_arrow(&mut s, 10, 20);
    assert_eq!(s.shapes.len(), 4);
    assert!(matches!(s.shapes[0], Shape::Ring { x: 5, y: 6, diameter: 4, stroke: 1 }));
    assert!(matches!(s.shapes[1], Shape::Line { x0: 10, y0: 24, x1: 20, y1: 24, stroke: 1 }));
    assert!(matches!(s.shapes[2], Shape::Line { x0: 17, y0: 21, x1: 20, y1: 24, stroke: 1 }));
    assert!(matches!(s.shapes[3], Shape::Line { x0: 17, y0: 27, x1: 20, y1: 24, stroke: 1 }));
}

#[test]
fn gear_has_one_dot_per_set_bit() {
    let mut s = Scene::new();
    draw_settings_icon(&mut s, 100, 50);
    assert_eq!(s.shapes.len(), 140);
    let dots: Vec<(i32, i32)> = s
        .shapes
        .iter()
        .map(|sh| match sh {
            Shape::Dot { x, y } => (*x, *y),
            _ => panic!("not a dot"),
        })
        .collect();
    assert_eq!(&dots[..4], &[(108, 50), (109, 50), (106, 50), (107, 50)]);
    // The full rows 7 and 8 of the gear.
    for row in [57, 58] {
        assert_eq!(dots.iter().filter(|d| d.1 == row).count(), 16);
    }
}
