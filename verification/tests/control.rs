use pico_weather::control::{wifi_step, WifiStep};
use pico_weather::control::{
    is_gear_touch, weather_ticks_of, wifi_retry_delay_secs, Command, Controller, Event,
    WIFI_MAX_RETRIES,
};
use pico_weather::menu::MenuScreen;
use pico_weather::settings::Settings;
use pico_weather::touch::TouchPoint;


fn touch(x: u16, y: u16) -> Event {
    Event::Touch(TouchPoint { x, y })
}

#[test]
fn wifi_backoff_delays() {
    assert_eq!(WIFI_MAX_RETRIES, 10);
    let delays: Vec<u64> = (0..WIFI_MAX_RETRIES).map(wifi_retry_delay_secs).collect();
    assert_eq!(delays, vec![5, 10, 30, 60, 60, 60, 60, 60, 60, 60]);
    assert_eq!(wifi_retry_delay_secs(255), 60);
}

#[test]
fn gear_area_is_the_lower_left() {
    assert!(is_gear_touch(0, 100));
    assert!(is_gear_touch(148, 127));
    assert!(!is_gear_touch(149, 127));
    assert!(!is_gear_touch(10, 99));
}

#[test]
fn weather_period_in_ticks() {
    let mut s = Settings::new_default();
    assert_eq!(weather_ticks_of(&s), 60);
    s.interval_index = 4;
    assert_eq!(weather_ticks_of(&s), 720);
}

#[test]
fn start_shows_the_weather_screen() {
    let c = Controller::new(Settings::new_default());
    assert_eq!(c.start(), vec![Command::FetchTime, Command::FetchWeather, Command::DrawMain, Command::FullRefresh, Command::PreparePartial]);
}

#[test]
fn weather_is_fetched_every_sixty_ticks_with_hourly_interval() {
    let mut c = Controller::new(Settings::new_default());
    for i in 1..60 {
        assert_eq!(c.on_event(Event::Tick), vec![Command::FetchTime, Command::DrawMain, Command::PartialRefresh], "tick {}", i);
        assert_eq!(c.minute_counter, i);
    }
    assert_eq!(
        c.on_event(Event::Tick),
        vec![Command::FetchTime, Command::FetchWeather, Command::DrawMain, Command::InitDisplay, Command::FullRefresh, Command::PreparePartial]
    );
    assert_eq!(c.minute_counter, 0);
    assert_eq!(c.on_event(Event::Tick), vec![Command::FetchTime, Command::DrawMain, Command::PartialRefresh]);
}

#[test]
fn gear_touch_opens_the_menu_and_other_touches_do_nothing() {
    let mut c = Controller::new(Settings::new_default());
    assert_eq!(c.on_event(touch(200, 50)), vec![]);
    assert!(!c.in_menu);
    assert_eq!(c.on_event(touch(50, 110)), vec![Command::DrawMenu, Command::InitDisplay, Command::FullRefresh]);
    assert!(c.in_menu);
    assert_eq!(c.menu.screen, MenuScreen::Main { scroll: 0 });
    // Ticks are not waited for in the menu.
    assert_eq!(c.on_event(Event::Tick), vec![]);
}

#[test]
fn leaving_the_menu_saves_and_refreshes_everything() {
    let mut c = Controller::new(Settings::new_default());
    c.on_event(Event::Tick);
    c.on_event(touch(50, 110));
    // Toggle the temperature unit (fourth row), then leave.
    assert_eq!(c.on_event(touch(100, 22 + 78 + 5)), vec![Command::DrawMenu, Command::FullRefresh]);
    assert_eq!(c.settings.temp_unit, 0);
    assert_eq!(c.on_event(touch(200, 10)), vec![]);
    assert_eq!(
        c.on_event(touch(5, 5)),
        vec![Command::SaveSettings, Command::FetchTime, Command::FetchWeather, Command::DrawMain, Command::InitDisplay, Command::FullRefresh, Command::PreparePartial]
    );
    assert!(!c.in_menu);
    assert_eq!(c.settings.temp_unit, 1);
    assert_eq!(c.minute_counter, 0);
}

#[test]
fn wifi_steps_after_each_attempt() {
    assert_eq!(wifi_step(0, true), WifiStep::Connected);
    assert_eq!(wifi_step(9, true), WifiStep::Connected);
    assert_eq!(wifi_step(0, false), WifiStep::Retry { wait_secs: 5 });
    assert_eq!(wifi_step(2, false), WifiStep::Retry { wait_secs: 30 });
    assert_eq!(wifi_step(8, false), WifiStep::Retry { wait_secs: 60 });
    assert_eq!(wifi_step(9, false), WifiStep::GiveUp { wait_secs: 60 });
}
