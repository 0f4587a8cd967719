use pico_weather::ntp::{
    datetime_from_ntp_response, ntp_request_packet, shift_by_offset, unix_to_datetime, DateTime,
    NTP_PACKET_LEN, NTP_TO_UNIX,
};

fn dt(year: u16, month: u8, day: u8, hour: u8, minute: u8, second: u8, weekday: u8) -> DateTime {
    DateTime { year, month, day, hour, minute, second, weekday }
}

#[test]
fn epoch_start_is_thursday_first_of_january_1970() {
    assert_eq!(unix_to_datetime(0), dt(1970, 1, 1, 0, 0, 0, 4));
}

#[test]
fn friday_the_thirteenth_2026() {
    assert_eq!(unix_to_datetime(1_770_940_800), dt(2026, 2, 13, 0, 0, 0, 5));
}

#[test]
fn leap_day_2024_with_time_of_day() {
    assert_eq!(unix_to_datetime(1_709_210_096), dt(2024, 2, 29, 12, 34, 56, 4));
}

#[test]
fn century_leap_year_2000() {
    assert_eq!(unix_to_datetime(946_684_800), dt(2000, 1, 1, 0, 0, 0, 6));
    // The day before: 1999-12-31 23:59:59, a Friday.
    assert_eq!(unix_to_datetime(946_684_799), dt(1999, 12, 31, 23, 59, 59, 5));
}

#[test]
fn last_second_of_u32_time() {
    assert_eq!(unix_to_datetime(u32::MAX), dt(2106, 2, 7, 6, 28, 15, 0));
}

#[test]
fn weekday_names() {
    let names = ["Sun", "Mon", "Tue", "Wed", "Thu", "Fri", "Sat"];
    for (w, name) in names.iter().enumerate() {
        assert_eq!(dt(2026, 1, 1, 0, 0, 0, w as u8).weekday_str(), *name);
    }
    assert_eq!(dt(2026, 1, 1, 0, 0, 0, 7).weekday_str(), "???");
}

#[test]
fn request_packet_is_client_mode_version_three() {
    let p = ntp_request_packet();
    assert_eq!(p.len(), NTP_PACKET_LEN);
    assert_eq!(p[0], 0x1B);
    assert!(p[1..].iter().all(|&b| b == 0));
}

#[test]
fn offset_shift_wraps_like_twos_complement() {
    assert_eq!(shift_by_offset(100, -3600), 100u32.wrapping_sub(3600));
    assert_eq!(shift_by_offset(1_000_000, 32_400), 1_032_400);
}

fn response_with(secs: u32) -> Vec<u8> {
    let mut r = vec![0u8; 48];
    r[40..44].copy_from_slice(&secs.to_be_bytes());
    r
}

#[test]
fn ntp_response_gives_local_time() {
    let r = response_with(NTP_TO_UNIX + 1_770_940_800);
    assert_eq!(datetime_from_ntp_response(&r, 9 * 3600), Ok(dt(2026, 2, 13, 9, 0, 0, 5)));
    assert_eq!(datetime_from_ntp_response(&r, -5 * 3600), Ok(dt(2026, 2, 12, 19, 0, 0, 4)));
}

#[test]
fn ntp_response_too_short_is_refused() {
    let r = response_with(NTP_TO_UNIX + 1_770_940_800);
    assert_eq!(datetime_from_ntp_response(&r[..47], 0), Err(()));
}

#[test]
fn ntp_timestamp_before_unix_epoch_is_refused() {
    let r = response_with(NTP_TO_UNIX - 1);
    assert_eq!(datetime_from_ntp_response(&r, 0), Err(()));
    let r = response_with(NTP_TO_UNIX);
    assert_eq!(datetime_from_ntp_response(&r, 0), Ok(dt(1970, 1, 1, 0, 0, 0, 4)));
}
