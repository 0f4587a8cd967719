use pico_weather::http::{
    after_read, api_request, endpoint_str, find_body_start, parse_status_code, reply_body_start,
    Endpoint, HttpError, ReadResult, ReadStep,
};

#[test]
fn weather_request_text() {
    let r = api_request(Endpoint::CurrentWeather, "37.5665", "126.9780", "KEY123").unwrap();
    assert_eq!(
        r.as_str(),
        "GET /data/2.5/weather?lat=37.5665&lon=126.9780&units=metric&appid=KEY123 HTTP/1.1\r\n\
         Host: api.openweathermap.org\r\n\
         Connection: close\r\n\
         \r\n"
    );
}

#[test]
fn forecast_request_text() {
    let r = api_request(Endpoint::Forecast, "-33.8688", "151.2093", "k").unwrap();
    assert!(r.as_str().starts_with("GET /data/2.5/forecast?lat=-33.8688&lon=151.2093&units=metric&appid=k HTTP/1.1\r\n"));
    assert_eq!(endpoint_str(Endpoint::Forecast), "/data/2.5/forecast");
}

#[test]
fn request_longer_than_512_bytes_is_refused() {
    let fixed = api_request(Endpoint::CurrentWeather, "", "", "").unwrap().len();
    let fits = "a".repeat(512 - fixed);
    assert_eq!(api_request(Endpoint::CurrentWeather, "", "", &fits).unwrap().len(), 512);
    let too_long = "a".repeat(513 - fixed);
    assert!(api_request(Endpoint::CurrentWeather, "", "", &too_long).is_err());
}

#[test]
fn status_code_of_the_status_line() {
    assert_eq!(parse_status_code(b"HTTP/1.1 200 OK\r\n"), Some(200));
    assert_eq!(parse_status_code(b"HTTP/1.0 404 Not Found"), Some(404));
    assert_eq!(parse_status_code(b"HTTP/1.1 2x0 OK\r\n"), None);
    assert_eq!(parse_status_code(b"HTTP/1.1 20"), None);
    assert_eq!(parse_status_code(b"HTTPS1.1 200 OK"), None);
}

#[test]
fn body_starts_after_the_blank_line() {
    assert_eq!(find_body_start(b"HTTP/1.1 200 OK\r\nA: b\r\n\r\n{}"), Some(25));
    assert_eq!(find_body_start(b"\r\n\r\n"), Some(4));
    assert_eq!(find_body_start(b"HTTP/1.1 200 OK\r\n\r"), None);
}

#[test]
fn reply_checks_in_order() {
    let ok = b"HTTP/1.1 200 OK\r\nContent-Type: application/json\r\n\r\n{\"a\":1}";
    assert_eq!(reply_body_start(ok, 4096), Ok(51));
    assert_eq!(reply_body_start(ok, ok.len()), Err(HttpError::Truncated));
    assert_eq!(reply_body_start(b"garbage", 4096), Err(HttpError::NoStatusLine));
    assert_eq!(reply_body_start(b"HTTP/1.1 401 Unauthorized\r\n\r\n", 4096), Err(HttpError::Status(401)));
    assert_eq!(reply_body_start(b"HTTP/1.1 429 Too Many\r\n\r\n", 4096), Err(HttpError::Status(429)));
    assert_eq!(reply_body_start(b"HTTP/1.1 200 OK\r\nA: b\r\n", 4096), Err(HttpError::NoHeaderEnd));
}

#[test]
fn reading_ends_on_close_full_buffer_or_late_failure() {
    assert_eq!(after_read(0, 4096, ReadResult::Bytes(100)), ReadStep::More(100));
    assert_eq!(after_read(100, 4096, ReadResult::Bytes(0)), ReadStep::Done(100));
    assert_eq!(after_read(4000, 4096, ReadResult::Bytes(96)), ReadStep::Done(4096));
    assert_eq!(after_read(100, 4096, ReadResult::Failed), ReadStep::Done(100));
    assert_eq!(after_read(0, 4096, ReadResult::Failed), ReadStep::Failed);
}
