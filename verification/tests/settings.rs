use pico_weather::settings::{
    city_entry, interval_at, Settings, CITY_COUNT, MAGIC, SETTINGS_PAGE_LEN, SETTINGS_READ_LEN,
    SETTINGS_RECORD_LEN, VERSION,
};

#[test]
fn default_settings_are_korean_seoul_celsius() {
    let s = Settings::new_default();
    assert_eq!(s.magic, MAGIC);
    assert_eq!(s.version, VERSION);
    assert_eq!(s.language, 0);
    assert_eq!(s.utc_offset, 9);
    assert_eq!(s.city_index, 0);
    assert_eq!(s.temp_unit, 0);
    assert_eq!(s.time_format, 0);
    assert_eq!(s.interval_index, 0);
    assert_eq!(s.display_mode, 0);
    assert_eq!(s.city().name, "Seoul");
    assert_eq!(s.interval_secs(), 3600);
    assert_eq!(s.utc_offset_seconds(), 32_400);
}

#[test]
fn city_table_holds_ten_presets() {
    assert_eq!(CITY_COUNT, 10);
    let c = city_entry(2);
    assert_eq!((c.name, c.lat, c.lon, c.utc_offset), ("New York", "40.7128", "-74.0060", -5));
    let c = city_entry(9);
    assert_eq!((c.name, c.lat, c.lon, c.utc_offset), ("Los Angeles", "34.0522", "-118.2437", -8));
}

#[test]
fn out_of_range_indices_select_the_last_entry() {
    let mut s = Settings::new_default();
    s.city_index = 200;
    s.interval_index = 99;
    assert_eq!(s.city().name, "Los Angeles");
    assert_eq!(s.interval_secs(), 43_200);
    assert_eq!(interval_at(3), 21_600);
}

#[test]
fn negative_offset_in_seconds() {
    let mut s = Settings::new_default();
    s.utc_offset = -12;
    assert_eq!(s.utc_offset_seconds(), -43_200);
}

#[test]
fn record_image_layout() {
    let mut s = Settings::new_default();
    s.utc_offset = -5;
    s.city_index = 2;
    s.display_mode = 1;
    let b = s.to_bytes();
    assert_eq!(b.len(), SETTINGS_RECORD_LEN);
    assert_eq!(&b[..12], &[0x77, 0x5E, 0xD1, 0xE1, 1, 0, 0xFB, 2, 0, 0, 0, 1]);
    assert!(b[12..].iter().all(|&x| x == 0xFF));
}

#[test]
fn flash_page_is_the_record_then_erased_bytes() {
    let s = Settings::new_default();
    let page = s.flash_page();
    assert_eq!(page.len(), SETTINGS_PAGE_LEN);
    assert_eq!(&page[..32], &s.to_bytes()[..]);
    assert!(page[32..].iter().all(|&x| x == 0xFF));
}

#[test]
fn saved_settings_load_back_unchanged() {
    let mut s = Settings::new_default();
    s.language = 1;
    s.utc_offset = -3;
    s.city_index = 7;
    s.temp_unit = 1;
    s.time_format = 1;
    s.interval_index = 4;
    s.display_mode = 1;
    let page = s.flash_page();
    let back = Settings::from_stored_bytes(&page[..SETTINGS_READ_LEN]);
    assert_eq!(back, s);
}

#[test]
fn wrong_magic_or_version_loads_defaults() {
    let mut page = Settings::new_default().flash_page();
    page[5] = 1;
    page[0] ^= 1;
    assert_eq!(Settings::from_stored_bytes(&page[..32]), Settings::new_default());
    let mut page = Settings::new_default().flash_page();
    page[5] = 1;
    page[4] = 2;
    assert_eq!(Settings::from_stored_bytes(&page[..32]), Settings::new_default());
    let erased = [0xFFu8; 32];
    assert_eq!(Settings::from_stored_bytes(&erased), Settings::new_default());
}

#[test]
fn failed_flash_read_loads_defaults() {
    assert_eq!(Settings::from_flash_read(None), Settings::new_default());
    let mut s = Settings::new_default();
    s.temp_unit = 1;
    let page = s.flash_page();
    assert_eq!(Settings::from_flash_read(Some(&page[..32])), s);
}
