//! The HTTP exchange with the weather service: the request line and headers
//! that are sent, and what a reply must satisfy before its JSON body is read.
use vstd::prelude::*;
use vstd::string::StringSliceAdditionalSpecFns;

use crate::hstr::{string512_bytes, string512_new, string512_push_str};
use crate::scan::{find_bytes, find_spec, is_digit, lemma_find_bounds};

verus! {

/// The two resources of the weather service that are fetched.
#[derive(Clone, Copy, Debug, PartialEq, Eq, Structural)]
pub enum Endpoint {
    /// Current conditions.
    CurrentWeather,
    /// The 5-day forecast in 3-hour steps (also read for the 24-hour view).
    Forecast,
}

/// The path of an endpoint.
pub open spec fn endpoint_path(e: Endpoint) -> Seq<u8> {
    match e {
        Endpoint::CurrentWeather => "/data/2.5/weather".spec_bytes(),
        Endpoint::Forecast => "/data/2.5/forecast".spec_bytes(),
    }
}

/// The whole request: a GET of the endpoint for the given coordinates in
/// metric units, to the service's host, asking it to close the connection.
pub open spec fn request_text(e: Endpoint, lat: Seq<u8>, lon: Seq<u8>, api_key: Seq<u8>) -> Seq<u8> {
    "GET ".spec_bytes() + endpoint_path(e) + "?lat=".spec_bytes() + lat + "&lon=".spec_bytes() + lon
        + "&units=metric&appid=".spec_bytes() + api_key
        + " HTTP/1.1\r\nHost: api.openweathermap.org\r\nConnection: close\r\n\r\n".spec_bytes()
}

/// Requests longer than this are refused.
pub const MAX_REQUEST_LEN: usize = 512;

/// The path of an endpoint, as text.
pub fn endpoint_str(e: Endpoint) -> (r: &'static str)
    ensures
        r.spec_bytes() == endpoint_path(e),
{
    match e {
        Endpoint::CurrentWeather => "/data/2.5/weather",
        Endpoint::Forecast => "/data/2.5/forecast",
    }
}

/// Appends `t` to `s`, failing when the request would grow past its limit.
fn append(s: &mut heapless::String<512>, t: &str) -> (r: Result<(), ()>)
    ensures
        r is Ok <==> string512_bytes(*old(s)).len() + t.spec_bytes().len() <= MAX_REQUEST_LEN,
        r is Ok ==> string512_bytes(*final(s)) == string512_bytes(*old(s)) + t.spec_bytes(),
{
    string512_push_str(s, t)
}

/// Builds the request for `endpoint` at the given coordinates; fails when it
/// would be longer than 512 bytes.
pub fn api_request(endpoint: Endpoint, lat: &str, lon: &str, api_key: &str) -> (r: Result<
    heapless::String<512>,
    (),
>)
    ensures
        r is Ok <==> request_text(endpoint, lat.spec_bytes(), lon.spec_bytes(), api_key.spec_bytes()).len()
            <= MAX_REQUEST_LEN,
        r matches Ok(s) ==> string512_bytes(s) == request_text(
            endpoint,
            lat.spec_bytes(),
            lon.spec_bytes(),
            api_key.spec_bytes(),
        ),
{
    let ghost full = request_text(endpoint, lat.spec_bytes(), lon.spec_bytes(), api_key.spec_bytes());
    let tail = " HTTP/1.1\r\nHost: api.openweathermap.org\r\nConnection: close\r\n\r\n";
    let ghost p1 = "GET ".spec_bytes();
    let ghost p2 = p1 + endpoint_path(endpoint);
    let ghost p3 = p2 + "?lat=".spec_bytes();
    let ghost p4 = p3 + lat.spec_bytes();
    let ghost p5 = p4 + "&lon=".spec_bytes();
    let ghost p6 = p5 + lon.spec_bytes();
    let ghost p7 = p6 + "&units=metric&appid=".spec_bytes();
    let ghost p8 = p7 + api_key.spec_bytes();
    assert(full == p8 + tail.spec_bytes());
    let mut s = string512_new();
    assert(string512_bytes(s) + "GET ".spec_bytes() =~= p1);
    if append(&mut s, "GET ").is_err() {
        return Err(());
    }
    if append(&mut s, endpoint_str(endpoint)).is_err() {
        return Err(());
    }
    if append(&mut s, "?lat=").is_err() {
        return Err(());
    }
    if append(&mut s, lat).is_err() {
        return Err(());
    }
    if append(&mut s, "&lon=").is_err() {
        return Err(());
    }
    if append(&mut s, lon).is_err() {
        return Err(());
    }
    if append(&mut s, "&units=metric&appid=").is_err() {
        return Err(());
    }
    if append(&mut s, api_key).is_err() {
        return Err(());
    }
    if append(&mut s, tail).is_err() {
        return Err(());
    }
    Ok(s)
}

/// `HTTP/`
pub open spec fn http_prefix() -> Seq<u8> {
    seq![72u8, 84, 84, 80, 47]
}

/// The blank line that ends the headers: `\r\n\r\n`.
pub open spec fn header_end() -> Seq<u8> {
    seq![13u8, 10, 13, 10]
}

/// The status code of a reply whose status line reads `HTTP/x.y SSS ...`:
/// the three digits at bytes 9..12.
pub open spec fn status_code_spec(data: Seq<u8>) -> Option<u16> {
    if data.len() < 12 || data.subrange(0, 5) != http_prefix() {
        None
    } else if !(is_digit(data[9]) && is_digit(data[10]) && is_digit(data[11])) {
        None
    } else {
        Some(((data[9] - 48) * 100 + (data[10] - 48) * 10 + (data[11] - 48)) as u16)
    }
}

/// Where the body of a reply starts: just after the first blank line.
pub open spec fn body_start_spec(data: Seq<u8>) -> Option<int> {
    match find_spec(data, header_end(), 0) {
        Some(i) => Some(i + 4),
        None => None,
    }
}

/// Reads the status code of a reply.
pub fn parse_status_code(data: &[u8]) -> (r: Option<u16>)
    ensures
        r == status_code_spec(data@),
{
    if data.len() < 12 {
        return None;
    }
    proof {
        let head = data@.subrange(0, 5);
        assert forall|j: int| 0 <= j < 5 implies #[trigger] head[j] == data@[j] by {}
    }
    if data[0] != 72 || data[1] != 84 || data[2] != 84 || data[3] != 80 || data[4] != 47 {
        proof {
            let head = data@.subrange(0, 5);
            assert(head[0] == data@[0] && head[1] == data@[1] && head[2] == data@[2]
                && head[3] == data@[3] && head[4] == data@[4]);
            assert(head != http_prefix());
        }
        return None;
    }
    assert(data@.subrange(0, 5) =~= http_prefix());
    let (a, b, c) = (data[9], data[10], data[11]);
    if a < 48 || a > 57 || b < 48 || b > 57 || c < 48 || c > 57 {
        return None;
    }
    let code: u16 = (a - 48) as u16 * 100 + (b - 48) as u16 * 10 + (c - 48) as u16;
    Some(code)
}

/// Finds where the body of a reply starts.
pub fn find_body_start(data: &[u8]) -> (r: Option<usize>)
    ensures
        r == (match body_start_spec(data@) {
            Some(i) => Some(i as usize),
            None => None::<usize>,
        }),
        r matches Some(i) ==> 4 <= i <= data@.len(),
{
    let n = data.len();
    let pat: [u8; 4] = [13, 10, 13, 10];
    assert(pat@ =~= header_end());
    proof {
        lemma_find_bounds(data@, header_end(), 0);
    }
    match find_bytes(data, &pat, 0) {
        Some(i) => Some(i + 4),
        None => None,
    }
}

/// Why a reply was refused.
#[derive(Clone, Copy, Debug, PartialEq, Eq, Structural)]
pub enum HttpError {
    /// The reply filled the whole receive buffer, so it may be cut short.
    Truncated,
    /// No `HTTP/x.y SSS` status line.
    NoStatusLine,
    /// A status other than 200.
    Status(u16),
    /// No blank line after the headers.
    NoHeaderEnd,
}

/// The verdict on a reply of which `received` was read into a buffer of
/// `capacity` bytes: the start of its body, or why it is refused.
pub open spec fn body_of_reply(received: Seq<u8>, capacity: int) -> Result<int, HttpError> {
    if received.len() >= capacity {
        Err(HttpError::Truncated)
    } else {
        match status_code_spec(received) {
            None => Err(HttpError::NoStatusLine),
            Some(code) => if code != 200 {
                Err(HttpError::Status(code))
            } else {
                match body_start_spec(received) {
                    None => Err(HttpError::NoHeaderEnd),
                    Some(i) => Ok(i),
                }
            },
        }
    }
}

/// Checks a reply read into a buffer of `capacity` bytes and finds its body:
/// a full buffer, a missing status line, a status other than 200 and a
/// missing end of headers are refused, in that order.
pub fn reply_body_start(received: &[u8], capacity: usize) -> (r: Result<usize, HttpError>)
    ensures
        r == (match body_of_reply(received@, capacity as int) {
            Ok(i) => Ok(i as usize),
            Err(e) => Err::<usize, HttpError>(e),
        }),
        r matches Ok(i) ==> i <= received@.len(),
{
    if received.len() >= capacity {
        return Err(HttpError::Truncated);
    }
    let code = match parse_status_code(received) {
        Some(c) => c,
        None => return Err(HttpError::NoStatusLine),
    };
    if code != 200 {
        return Err(HttpError::Status(code));
    }
    match find_body_start(received) {
        Some(i) => Ok(i),
        None => Err(HttpError::NoHeaderEnd),
    }
}

/// What one read from the connection gave.
#[derive(Clone, Copy, Debug, PartialEq, Eq, Structural)]
pub enum ReadResult {
    /// This many bytes arrived (0 when the peer closed the connection).
    Bytes(usize),
    /// The read failed.
    Failed,
}

/// How reading a reply goes on.
#[derive(Clone, Copy, Debug, PartialEq, Eq, Structural)]
pub enum ReadStep {
    /// Read again; this many bytes are in the buffer.
    More(usize),
    /// The reply is complete with this many bytes (the buffer may be full).
    Done(usize),
    /// Nothing arrived before the read failed.
    Failed,
}

/// The next step of reading a reply into a buffer of `capacity` bytes, of
/// which `pos` are filled: the reply ends when the peer closes, when the
/// buffer is full, or when a read fails after some bytes arrived.
pub open spec fn read_step(pos: int, capacity: int, r: ReadResult) -> ReadStep {
    match r {
        ReadResult::Bytes(n) => if n == 0 {
            ReadStep::Done(pos as usize)
        } else if pos + n >= capacity {
            ReadStep::Done((pos + n) as usize)
        } else {
            ReadStep::More((pos + n) as usize)
        },
        ReadResult::Failed => if pos > 0 {
            ReadStep::Done(pos as usize)
        } else {
            ReadStep::Failed
        },
    }
}

/// Decides how reading goes on after one read.
pub fn after_read(pos: usize, capacity: usize, r: ReadResult) -> (s: ReadStep)
    requires
        pos < capacity,
        r matches ReadResult::Bytes(n) ==> pos + n <= capacity,
    ensures
        s == read_step(pos as int, capacity as int, r),
{
    match r {
        ReadResult::Bytes(n) => {
            if n == 0 {
                ReadStep::Done(pos)
            } else if pos + n >= capacity {
                ReadStep::Done(pos + n)
            } else {
                ReadStep::More(pos + n)
            }
        },
        ReadResult::Failed => {
            if pos > 0 {
                ReadStep::Done(pos)
            } else {
                ReadStep::Failed
            }
        },
    }
}

} // verus!
