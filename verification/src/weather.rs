//! Weather data: the current conditions, the 24-hour forecast and the 5-day
//! forecast, and how they are read out of the service's JSON replies.
//!
//! The forecast reply is scanned entry by entry: each entry of the `"list"`
//! array gives a time (`"dt"`), a temperature (`"main"` → `"temp"`) and an
//! icon code (`"weather"` → `"icon"`).
use vstd::prelude::*;
use vstd::slice::slice_subrange;
use vstd::string::StringSliceAdditionalSpecFns;
use vstd::utf8::valid_utf8;

use crate::hstr::{
    fallback_icon,
    fallback_icon_bytes,
    string32_bytes,
    string32_new,
    string32_push_str,
    string8_bytes,
    string8_new,
    string8_push_str,
    utf8_str,
};
use crate::ntp::{datetime_of, local_seconds, shift_by_offset, unix_to_datetime};
use crate::scan::{
    extract_spec,
    extract_string_after,
    find_bytes,
    find_spec,
    lemma_find_bounds,
    matching_bracket,
    bracket_close,
    parse_rounded_at,
    parse_rounded_spec,
    parse_u32_at,
    parse_u32_spec,
};

verus! {

// ───────────────────────── keys ─────────────────────────

/// `"list"` with its quotes.
pub open spec fn list_key() -> Seq<u8> {
    seq![34u8, 108, 105, 115, 116, 34]
}

/// `"dt"` with its quotes.
pub open spec fn dt_key() -> Seq<u8> {
    seq![34u8, 100, 116, 34]
}

/// `"main"` with its quotes.
pub open spec fn main_key() -> Seq<u8> {
    seq![34u8, 109, 97, 105, 110, 34]
}

/// `"temp"` with its quotes.
pub open spec fn temp_key() -> Seq<u8> {
    seq![34u8, 116, 101, 109, 112, 34]
}

/// `"weather"` with its quotes.
pub open spec fn weather_key() -> Seq<u8> {
    seq![34u8, 119, 101, 97, 116, 104, 101, 114, 34]
}

/// `"icon"` with its quotes.
pub open spec fn icon_key() -> Seq<u8> {
    seq![34u8, 105, 99, 111, 110, 34]
}

pub open spec fn colon() -> Seq<u8> {
    seq![58u8]
}

pub open spec fn open_brace() -> Seq<u8> {
    seq![123u8]
}

pub open spec fn open_bracket() -> Seq<u8> {
    seq![91u8]
}

// ───────────────────────── types ─────────────────────────

/// Current conditions.
pub struct WeatherData {
    /// Temperature, rounded to an integer.
    pub temp_int: i16,
    /// Main description (e.g. "Clear", "Clouds", "Rain").
    pub description: heapless::String<32>,
    /// Icon code (e.g. "01d", "02n", "10d").
    pub icon_code: heapless::String<8>,
    /// Humidity percentage.
    pub humidity: u8,
    /// Wind speed in tenths of m/s.
    pub wind_speed_10x: u16,
}

/// What a fixed-capacity string holds after one `push_str` of `t` into an
/// empty one: all of `t` when it fits, else nothing.
pub open spec fn bounded_copy(t: Seq<u8>, cap: int) -> Seq<u8> {
    if t.len() <= cap {
        t
    } else {
        Seq::empty()
    }
}

impl WeatherData {
    /// The current conditions from the values read out of the reply; a
    /// description longer than 32 bytes or an icon code longer than 8 bytes
    /// is left empty.
    pub fn from_fields(
        description: &str,
        icon: &str,
        temp_int: i16,
        humidity: u8,
        wind_speed_10x: u16,
    ) -> (r: WeatherData)
        ensures
            string32_bytes(r.description) == bounded_copy(description.spec_bytes(), 32),
            string8_bytes(r.icon_code) == bounded_copy(icon.spec_bytes(), 8),
            r.temp_int == temp_int,
            r.humidity == humidity,
            r.wind_speed_10x == wind_speed_10x,
    {
        let mut d = string32_new();
        let _ = string32_push_str(&mut d, description);
        let mut c = string8_new();
        let _ = string8_push_str(&mut c, icon);
        assert(Seq::<u8>::empty() + description.spec_bytes() =~= description.spec_bytes());
        assert(Seq::<u8>::empty() + icon.spec_bytes() =~= icon.spec_bytes());
        WeatherData { temp_int, description: d, icon_code: c, humidity, wind_speed_10x }
    }
}

/// One entry of the 24-hour forecast.
pub struct HourlyEntry {
    /// Local hour of the entry.
    pub hour: u8,
    pub temp: i16,
    pub icon_code: heapless::String<8>,
}

/// The next eight 3-hour entries; `entries[count..]` are empty.
pub struct TodayForecast {
    pub entries: [HourlyEntry; 8],
    pub count: u8,
}

/// One day of the 5-day forecast.
pub struct ForecastDay {
    pub weekday: u8,
    pub month: u8,
    pub day: u8,
    pub temp_min: i16,
    pub temp_max: i16,
    pub icon_code: heapless::String<8>,
}

/// Up to five days; `days[count..]` are empty.
pub struct ForecastData {
    pub days: [ForecastDay; 5],
    pub count: u8,
}

/// One entry of the forecast list: its time, its rounded temperature and
/// where its icon code lies in the reply.
#[derive(Clone, Copy, Debug, PartialEq, Eq)]
pub struct RawEntry {
    pub dt: u32,
    pub temp: i16,
    pub icon_start: usize,
    pub icon_end: usize,
}

// ───────────────────────── model of the scan ─────────────────────────

/// The time of the entry whose `"dt"` key is at `dk`: the number after the
/// next colon.
pub open spec fn dt_after(json: Seq<u8>, dk: int) -> Option<u32> {
    match find_spec(json, colon(), dk + 4) {
        None => None,
        Some(c) => match parse_u32_spec(json, c + 1) {
            None => None,
            Some((dt, _)) => Some(dt),
        },
    }
}

/// The rounded temperature of the entry whose `"main"` key is at `mk`: the
/// number after the colon that follows the next `"temp"`.
pub open spec fn temp_after(json: Seq<u8>, mk: int) -> Option<i16> {
    match find_spec(json, temp_key(), mk) {
        None => None,
        Some(tk) => match find_spec(json, colon(), tk + 6) {
            None => None,
            Some(c) => match parse_rounded_spec(json, c + 1) {
                None => None,
                Some((t, _)) => Some(t),
            },
        },
    }
}

/// The icon code of the entry whose `"main"` key is at `mk`: the quoted value
/// of the first `"icon"` after the next `"weather"`.
pub open spec fn icon_after(json: Seq<u8>, mk: int) -> Option<(int, int, int)> {
    match find_spec(json, weather_key(), mk) {
        None => None,
        Some(wk) => extract_spec(json, icon_key(), wk),
    }
}

/// The entry whose object starts at the first `{` at or after `cursor`,
/// provided that brace lies before `arr_end`, and the index where the search
/// for the next entry starts.
pub open spec fn entry_spec(json: Seq<u8>, cursor: int, arr_end: int) -> Option<(RawEntry, usize)> {
    match find_spec(json, open_brace(), cursor) {
        None => None,
        Some(obj) => if obj >= arr_end {
            None
        } else {
            match find_spec(json, dt_key(), obj) {
                None => None,
                Some(dk) => match dt_after(json, dk) {
                    None => None,
                    Some(dt) => match find_spec(json, main_key(), dk) {
                        None => None,
                        Some(mk) => match temp_after(json, mk) {
                            None => None,
                            Some(temp) => match icon_after(json, mk) {
                                None => None,
                                Some((a, b, next)) => Some(
                                    (
                                        RawEntry {
                                            dt,
                                            temp,
                                            icon_start: a as usize,
                                            icon_end: b as usize,
                                        },
                                        next as usize,
                                    ),
                                ),
                            },
                        },
                    },
                },
            }
        }
    }
}

/// All entries read from `cursor` on, until one cannot be read.
pub open spec fn entries_from(json: Seq<u8>, cursor: int, arr_end: int) -> Seq<RawEntry>
    decreases json.len() - cursor,
{
    match entry_spec(json, cursor, arr_end) {
        None => Seq::empty(),
        Some((e, next)) => if cursor < next <= json.len() {
            seq![e] + entries_from(json, next as int, arr_end)
        } else {
            Seq::empty()
        },
    }
}

/// Where the `"list"` array of a reply starts and ends: the first `[` after
/// the first `"list"`, and its matching `]`.
pub open spec fn list_bounds(json: Seq<u8>) -> Option<(int, int)> {
    match find_spec(json, list_key(), 0) {
        None => None,
        Some(ls) => match find_spec(json, open_bracket(), ls) {
            None => None,
            Some(arr_start) => match bracket_close(json, arr_start, 0) {
                None => None,
                Some(arr_end) => Some((arr_start, arr_end)),
            },
        },
    }
}

/// The entries of the forecast list of a reply.
pub open spec fn list_entries(json: Seq<u8>) -> Seq<RawEntry> {
    match list_bounds(json) {
        None => Seq::empty(),
        Some((arr_start, arr_end)) => entries_from(json, arr_start + 1, arr_end),
    }
}

/// The bytes of the icon code of an entry.
pub open spec fn icon_bytes(json: Seq<u8>, e: RawEntry) -> Seq<u8> {
    json.subrange(e.icon_start as int, e.icon_end as int)
}

/// What an icon code field holds after pushing `icon`, or "03d" when `icon`
/// is not valid UTF-8: pushing fails, leaving it empty, when the code is
/// longer than 8 bytes.
pub open spec fn icon_field(icon: Seq<u8>) -> Seq<u8> {
    if valid_utf8(icon) {
        if icon.len() <= 8 {
            icon
        } else {
            Seq::empty()
        }
    } else {
        fallback_icon_bytes()
    }
}

/// The 24-hour forecast entry for a list entry.
pub open spec fn hourly_matches(h: HourlyEntry, json: Seq<u8>, e: RawEntry, utc_offset_secs: i32) -> bool {
    &&& h.hour == datetime_of(local_seconds(e.dt, utc_offset_secs) as int).hour
    &&& h.temp == e.temp
    &&& string8_bytes(h.icon_code) == icon_field(icon_bytes(json, e))
}

/// An unused slot of a forecast.
pub open spec fn hourly_is_empty(h: HourlyEntry) -> bool {
    h.hour == 0 && h.temp == 0 && string8_bytes(h.icon_code) == Seq::<u8>::empty()
}

// ───────────────────────── lemmas ─────────────────────────

proof fn lemma_icon_after_bounds(json: Seq<u8>, mk: int)
    ensures
        icon_after(json, mk) matches Some((a, b, c)) ==> mk < a <= b < c <= json.len(),
{
    lemma_find_bounds(json, weather_key(), mk);
    if let Some(wk) = find_spec(json, weather_key(), mk) {
        lemma_extract_bounds(json, icon_key(), wk);
    }
}

proof fn lemma_entry_next_bounds(json: Seq<u8>, cursor: int, arr_end: int)
    requires
        0 <= cursor,
        json.len() <= usize::MAX,
    ensures
        entry_spec(json, cursor, arr_end) matches Some((e, next)) ==> cursor < next <= json.len()
            && cursor < e.icon_start <= e.icon_end < next,
{
    lemma_find_bounds(json, open_brace(), cursor);
    if let Some(obj) = find_spec(json, open_brace(), cursor) {
        lemma_find_bounds(json, dt_key(), obj);
        if let Some(dk) = find_spec(json, dt_key(), obj) {
            lemma_find_bounds(json, main_key(), dk);
            if let Some(mk) = find_spec(json, main_key(), dk) {
                lemma_icon_after_bounds(json, mk);
            }
        }
    }
}

proof fn lemma_extract_bounds(json: Seq<u8>, key: Seq<u8>, from: int)
    ensures
        extract_spec(json, key, from) matches Some((a, b, c)) ==> from < a <= b < c <= json.len(),
{
    lemma_find_bounds(json, key, from);
    if let Some(kp) = find_spec(json, key, from) {
        lemma_find_bounds(json, seq![58u8], kp + key.len());
        if let Some(c1) = find_spec(json, seq![58u8], kp + key.len()) {
            lemma_find_bounds(json, seq![34u8], c1 + 1);
            if let Some(oq) = find_spec(json, seq![34u8], c1 + 1) {
                lemma_find_bounds(json, seq![34u8], oq + 1);
            }
        }
    }
}

// ───────────────────────── executable scan ─────────────────────────

fn dt_after_exec(json: &[u8], dk: usize) -> (r: Option<u32>)
    requires
        dk + 4 <= json@.len(),
    ensures
        r == dt_after(json@, dk as int),
{
    let n = json.len();
    let colon_pat: [u8; 1] = [58];
    assert(colon_pat@ =~= colon());
    let c = match find_bytes(json, &colon_pat, dk + 4) {
        Some(p) => p,
        None => return None,
    };
    proof {
        lemma_find_bounds(json@, colon(), dk + 4);
    }
    match parse_u32_at(json, c + 1) {
        Some((v, _)) => Some(v),
        None => None,
    }
}

fn temp_after_exec(json: &[u8], mk: usize) -> (r: Option<i16>)
    ensures
        r == temp_after(json@, mk as int),
{
    let n = json.len();
    let colon_pat: [u8; 1] = [58];
    let temp_pat: [u8; 6] = [34, 116, 101, 109, 112, 34];
    assert(colon_pat@ =~= colon());
    assert(temp_pat@ =~= temp_key());
    let tk = match find_bytes(json, &temp_pat, mk) {
        Some(p) => p,
        None => return None,
    };
    proof {
        lemma_find_bounds(json@, temp_key(), mk as int);
    }
    let c = match find_bytes(json, &colon_pat, tk + 6) {
        Some(p) => p,
        None => return None,
    };
    proof {
        lemma_find_bounds(json@, colon(), tk + 6);
    }
    match parse_rounded_at(json, c + 1) {
        Some((v, _)) => Some(v),
        None => None,
    }
}

fn icon_after_exec(json: &[u8], mk: usize) -> (r: Option<(usize, usize, usize)>)
    ensures
        r == (match icon_after(json@, mk as int) {
            Some((a, b, c)) => Some((a as usize, b as usize, c as usize)),
            None => None::<(usize, usize, usize)>,
        }),
        r matches Some((a, b, c)) ==> mk < a <= b < c <= json@.len(),
{
    let weather_pat: [u8; 9] = [34, 119, 101, 97, 116, 104, 101, 114, 34];
    let icon_pat: [u8; 6] = [34, 105, 99, 111, 110, 34];
    assert(weather_pat@ =~= weather_key());
    assert(icon_pat@ =~= icon_key());
    let n = json.len();
    proof {
        lemma_icon_after_bounds(json@, mk as int);
        lemma_find_bounds(json@, weather_key(), mk as int);
    }
    let wk = match find_bytes(json, &weather_pat, mk) {
        Some(p) => p,
        None => return None,
    };
    extract_string_after(json, &icon_pat, wk)
}

/// Read the entry at or after `cursor` (see `entry_spec`).
pub fn next_entry(json: &[u8], cursor: usize, arr_end: usize) -> (r: Option<(RawEntry, usize)>)
    ensures
        r == entry_spec(json@, cursor as int, arr_end as int),
        r matches Some((e, next)) ==> cursor < next <= json@.len() && cursor < e.icon_start
            <= e.icon_end < next,
{
    let n = json.len();
    proof {
        lemma_entry_next_bounds(json@, cursor as int, arr_end as int);
    }
    let brace: [u8; 1] = [123];
    let dt_pat: [u8; 4] = [34, 100, 116, 34];
    let main_pat: [u8; 6] = [34, 109, 97, 105, 110, 34];
    assert(brace@ =~= open_brace());
    assert(dt_pat@ =~= dt_key());
    assert(main_pat@ =~= main_key());
    proof {
        lemma_find_bounds(json@, open_brace(), cursor as int);
    }
    let obj = match find_bytes(json, &brace, cursor) {
        Some(p) => p,
        None => return None,
    };
    if obj >= arr_end {
        return None;
    }
    proof {
        lemma_find_bounds(json@, dt_key(), obj as int);
    }
    let dk = match find_bytes(json, &dt_pat, obj) {
        Some(p) => p,
        None => return None,
    };
    proof {
        lemma_find_bounds(json@, main_key(), dk as int);
    }
    let dt = match dt_after_exec(json, dk) {
        Some(v) => v,
        None => return None,
    };
    let mk = match find_bytes(json, &main_pat, dk) {
        Some(p) => p,
        None => return None,
    };
    let temp = match temp_after_exec(json, mk) {
        Some(v) => v,
        None => return None,
    };
    let (a, b, next) = match icon_after_exec(json, mk) {
        Some(t) => t,
        None => return None,
    };
    Some((RawEntry { dt, temp, icon_start: a, icon_end: b }, next))
}

/// Locate the `"list"` array of a reply.
pub fn find_list_bounds(json: &[u8]) -> (r: Option<(usize, usize)>)
    ensures
        r == (match list_bounds(json@) {
            Some((a, b)) => Some((a as usize, b as usize)),
            None => None::<(usize, usize)>,
        }),
        r matches Some((a, b)) ==> a < b < json@.len(),
        list_bounds(json@) matches Some((a, b)) ==> 0 <= a < b < json@.len(),
{
    let n = json.len();
    let list_pat: [u8; 6] = [34, 108, 105, 115, 116, 34];
    let bracket: [u8; 1] = [91];
    assert(list_pat@ =~= list_key());
    assert(bracket@ =~= open_bracket());
    proof {
        lemma_find_bounds(json@, list_key(), 0);
    }
    let ls = match find_bytes(json, &list_pat, 0) {
        Some(p) => p,
        None => return None,
    };
    let arr_start = match find_bytes(json, &bracket, ls) {
        Some(p) => p,
        None => return None,
    };
    proof {
        lemma_find_bounds(json@, open_bracket(), ls as int);
        assert(json@.subrange(arr_start as int, arr_start + 1)[0] == json@[arr_start as int]);
        assert(open_bracket()[0] == 91);
    }
    let arr_end = match matching_bracket(json, arr_start) {
        Some(p) => p,
        None => return None,
    };
    proof {
        lemma_bracket_close_bounds(json@, arr_start as int, 0);
    }
    Some((arr_start, arr_end))
}

proof fn lemma_bracket_close_bounds(data: Seq<u8>, i: int, depth: int)
    ensures
        bracket_close(data, i, depth) matches Some(k) ==> i <= k < data.len() && (i == k ==> depth
            == 1 || data[i] != 91),
    decreases data.len() - i,
{
    if 0 <= i < data.len() {
        if data[i] == 91 {
            lemma_bracket_close_bounds(data, i + 1, depth + 1);
        } else if data[i] == 93 && depth - 1 == 0 {
        } else if data[i] == 93 {
            lemma_bracket_close_bounds(data, i + 1, depth - 1);
        } else {
            lemma_bracket_close_bounds(data, i + 1, depth);
        }
    }
}

/// The icon code field for the icon bytes `icon` (see `icon_field`).
fn icon_code_from(icon: &[u8]) -> (r: heapless::String<8>)
    ensures
        string8_bytes(r) == icon_field(icon@),
{
    let mut s = string8_new();
    match utf8_str(icon) {
        Some(text) => {
            let _ = string8_push_str(&mut s, text);
        },
        None => {
            let _ = string8_push_str(&mut s, fallback_icon());
        },
    }
    assert(string8_bytes(s) =~= icon_field(icon@));
    s
}

impl HourlyEntry {
    /// An unused slot: hour 0, temperature 0, no icon.
    pub fn empty() -> (r: Self)
        ensures
            hourly_is_empty(r),
    {
        Self { hour: 0, temp: 0, icon_code: string8_new() }
    }
}

/// Read the 24-hour forecast (the first eight list entries) from a forecast
/// reply. Fails when the reply has no `"list"` array.
pub fn parse_today(json: &[u8], utc_offset_secs: i32) -> (r: Result<TodayForecast, ()>)
    ensures
        r is Err <==> list_bounds(json@) is None,
        r matches Ok(t) ==> {
            let all = list_entries(json@);
            &&& t.count as int == (if all.len() < 8 {
                all.len() as int
            } else {
                8
            })
            &&& forall|i: int|
                0 <= i < t.count ==> hourly_matches(#[trigger] t.entries[i], json@, all[i], utc_offset_secs)
            &&& forall|i: int| t.count <= i < 8 ==> hourly_is_empty(#[trigger] t.entries[i])
        },
{
    let n = json.len();
    let (arr_start, arr_end) = match find_list_bounds(json) {
        Some(b) => b,
        None => return Err(()),
    };
    let ghost all = entries_from(json@, arr_start + 1, arr_end as int);
    proof {
        let lb = list_bounds(json@);
        assert(lb is Some);
        let (a, b) = lb.unwrap();
        assert(0 <= a < b < json@.len());
        assert(a as usize == arr_start && b as usize == arr_end);
        assert(list_entries(json@) == entries_from(json@, a + 1, b));
    }
    assert(list_entries(json@) == all);
    let mut entries: [HourlyEntry; 8] = [
        HourlyEntry::empty(),
        HourlyEntry::empty(),
        HourlyEntry::empty(),
        HourlyEntry::empty(),
        HourlyEntry::empty(),
        HourlyEntry::empty(),
        HourlyEntry::empty(),
        HourlyEntry::empty(),
    ];
    let mut count: u8 = 0;
    let mut cursor = arr_start + 1;
    let ghost mut seen: Seq<RawEntry> = Seq::empty();
    let mut done = false;
    while count < 8 && !done
        invariant
            done ==> seen == all,
            all == list_entries(json@),
            all == entries_from(json@, arr_start + 1, arr_end as int),
            arr_start < json@.len(),
            arr_start + 1 <= cursor <= json@.len(),
            count <= 8,
            seen.len() == count,
            seen + entries_from(json@, cursor as int, arr_end as int) == all,
            forall|i: int|
                0 <= i < count ==> hourly_matches(#[trigger] entries[i], json@, seen[i], utc_offset_secs),
            forall|i: int| count <= i < 8 ==> hourly_is_empty(#[trigger] entries[i]),
        decreases (8 - count) * 2 + (if done {
            0int
        } else {
            1int
        }),
    {
        let (e, next) = match next_entry(json, cursor, arr_end) {
            Some(t) => t,
            None => {
                proof {
                    assert(entries_from(json@, cursor as int, arr_end as int) =~= Seq::empty());
                    assert(seen =~= all);
                }
                done = true;
                continue;
            },
        };
        let local = unix_to_datetime(shift_by_offset(e.dt, utc_offset_secs));
        let icon = slice_subrange(json, e.icon_start, e.icon_end);
        let entry = HourlyEntry { hour: local.hour, temp: e.temp, icon_code: icon_code_from(icon) };
        proof {
            assert(entries_from(json@, cursor as int, arr_end as int) == seq![e] + entries_from(
                json@,
                next as int,
                arr_end as int,
            ));
            assert((seen.push(e)) + entries_from(json@, next as int, arr_end as int) =~= all);
        }
        entries[count as usize] = entry;
        proof {
            seen = seen.push(e);
        }
        count = count + 1;
        cursor = next;
    }
    proof {
        let rest = entries_from(json@, cursor as int, arr_end as int);
        assert(all.len() == seen.len() + rest.len());
        assert forall|i: int| 0 <= i < count implies seen[i] == all[i] by {
            assert((seen + rest)[i] == seen[i]);
        }
        assert forall|i: int| 0 <= i < count implies hourly_matches(
            #[trigger] entries[i],
            json@,
            all[i],
            utc_offset_secs,
        ) by {
            assert(hourly_matches(entries[i], json@, seen[i], utc_offset_secs));
        }
    }
    Ok(TodayForecast { entries, count })
}


// ───────────────────────── 5-day forecast ─────────────────────────

/// The summary of one calendar day of the forecast list while it is read.
pub ghost struct DayModel {
    /// Local days since the epoch.
    pub day_number: u32,
    pub temp_min: i16,
    pub temp_max: i16,
    /// Icon code (at most 8 bytes) of the entry closest to local noon so far.
    pub icon: Seq<u8>,
    /// Seconds between that entry and local noon.
    pub noon_dist: u32,
    /// Time of the first entry of the day.
    pub dt_first: u32,
}

/// Local day number of a time.
pub open spec fn day_number_of(dt: u32, utc_offset_secs: i32) -> u32 {
    (local_seconds(dt, utc_offset_secs) / 86400) as u32
}

/// Seconds between a time and local noon of its day.
pub open spec fn noon_dist_of(dt: u32, utc_offset_secs: i32) -> u32 {
    let t = local_seconds(dt, utc_offset_secs) % 86400;
    if t >= 43200 {
        (t - 43200) as u32
    } else {
        (43200 - t) as u32
    }
}

/// The first 8 bytes of an icon code.
pub open spec fn truncated_icon(icon: Seq<u8>) -> Seq<u8> {
    if icon.len() <= 8 {
        icon
    } else {
        icon.take(8)
    }
}

/// The summary of a day whose first entry is `e`.
pub open spec fn new_day(json: Seq<u8>, e: RawEntry, utc_offset_secs: i32) -> DayModel {
    DayModel {
        day_number: day_number_of(e.dt, utc_offset_secs),
        temp_min: e.temp,
        temp_max: e.temp,
        icon: truncated_icon(icon_bytes(json, e)),
        noon_dist: noon_dist_of(e.dt, utc_offset_secs),
        dt_first: e.dt,
    }
}

/// The summary of a day after one more of its entries: the temperature range
/// widens to the entry, and the entry's icon replaces the day's when it lies
/// strictly closer to noon.
pub open spec fn merge_day(d: DayModel, json: Seq<u8>, e: RawEntry, utc_offset_secs: i32) -> DayModel {
    let nd = noon_dist_of(e.dt, utc_offset_secs);
    DayModel {
        temp_min: if e.temp < d.temp_min {
            e.temp
        } else {
            d.temp_min
        },
        temp_max: if e.temp > d.temp_max {
            e.temp
        } else {
            d.temp_max
        },
        icon: if nd < d.noon_dist {
            truncated_icon(icon_bytes(json, e))
        } else {
            d.icon
        },
        noon_dist: if nd < d.noon_dist {
            nd
        } else {
            d.noon_dist
        },
        ..d
    }
}

/// Index of the first day at or after `i` with day number `dn`.
pub open spec fn day_index_from(days: Seq<DayModel>, dn: u32, i: int) -> Option<int>
    decreases days.len() - i,
{
    if i < 0 || i >= days.len() {
        None
    } else if days[i].day_number == dn {
        Some(i)
    } else {
        day_index_from(days, dn, i + 1)
    }
}

/// At most this many days are summarised; entries of later days are ignored.
pub const MAX_TRACKED_DAYS: usize = 6;

/// The summaries after one more entry: merged into its day when that day is
/// known, else a new day when fewer than six are known, else ignored.
pub open spec fn add_entry(days: Seq<DayModel>, json: Seq<u8>, e: RawEntry, utc_offset_secs: i32) -> Seq<DayModel> {
    match day_index_from(days, day_number_of(e.dt, utc_offset_secs), 0) {
        Some(i) => days.update(i, merge_day(days[i], json, e, utc_offset_secs)),
        None => if days.len() < MAX_TRACKED_DAYS {
            days.push(new_day(json, e, utc_offset_secs))
        } else {
            days
        },
    }
}

/// The day summaries of a list of entries, in order of first appearance.
pub open spec fn accumulate(json: Seq<u8>, entries: Seq<RawEntry>, utc_offset_secs: i32) -> Seq<DayModel>
    decreases entries.len(),
{
    if entries.len() == 0 {
        Seq::empty()
    } else {
        add_entry(
            accumulate(json, entries.drop_last(), utc_offset_secs),
            json,
            entries.last(),
            utc_offset_secs,
        )
    }
}

/// The days shown: when six days were seen the first (today, which is only
/// partly covered) is skipped; then at most five.
pub open spec fn shown_days(acc: Seq<DayModel>) -> Seq<DayModel> {
    let skip: int = if acc.len() > 5 {
        1
    } else {
        0
    };
    let end: int = if acc.len() < skip + 5 {
        acc.len() as int
    } else {
        skip + 5
    };
    acc.subrange(skip, end)
}

/// The days of the 5-day forecast of a reply.
pub open spec fn forecast_days(json: Seq<u8>, utc_offset_secs: i32) -> Seq<DayModel> {
    shown_days(accumulate(json, list_entries(json), utc_offset_secs))
}

/// The forecast day shown for a day summary.
pub open spec fn forecast_day_matches(f: ForecastDay, d: DayModel, utc_offset_secs: i32) -> bool {
    let t = datetime_of(local_seconds(d.dt_first, utc_offset_secs) as int);
    &&& f.weekday == t.weekday
    &&& f.month == t.month
    &&& f.day == t.day
    &&& f.temp_min == d.temp_min
    &&& f.temp_max == d.temp_max
    &&& string8_bytes(f.icon_code) == icon_field(d.icon)
}

/// An unused slot of the 5-day forecast.
pub open spec fn forecast_day_is_empty(f: ForecastDay) -> bool {
    &&& f.weekday == 0
    &&& f.month == 0
    &&& f.day == 0
    &&& f.temp_min == 0
    &&& f.temp_max == 0
    &&& string8_bytes(f.icon_code) == Seq::<u8>::empty()
}

/// Running summary of one day.
struct DayAccum {
    day_number: u32,
    temp_min: i16,
    temp_max: i16,
    best_icon: Vec<u8>,
    best_noon_dist: u32,
    dt_first: u32,
}

impl DayAccum {
    spec fn model(self) -> DayModel {
        DayModel {
            day_number: self.day_number,
            temp_min: self.temp_min,
            temp_max: self.temp_max,
            icon: self.best_icon@,
            noon_dist: self.best_noon_dist,
            dt_first: self.dt_first,
        }
    }
}

spec fn models(accs: Seq<DayAccum>) -> Seq<DayModel> {
    Seq::new(accs.len(), |i: int| accs[i].model())
}

impl ForecastDay {
    /// An unused slot: all zero, no icon.
    pub fn empty() -> (r: Self)
        ensures
            forecast_day_is_empty(r),
    {
        Self { weekday: 0, month: 0, day: 0, temp_min: 0, temp_max: 0, icon_code: string8_new() }
    }
}

fn truncated_icon_exec(json: &[u8], e: RawEntry) -> (r: Vec<u8>)
    requires
        e.icon_start <= e.icon_end <= json@.len(),
    ensures
        r@ == truncated_icon(icon_bytes(json@, e)),
{
    let end = if e.icon_end - e.icon_start <= 8 {
        e.icon_end
    } else {
        e.icon_start + 8
    };
    let mut v: Vec<u8> = Vec::new();
    let mut i = e.icon_start;
    while i < end
        invariant
            e.icon_start <= i <= end <= e.icon_end <= json@.len(),
            v@ == json@.subrange(e.icon_start as int, i as int),
        decreases end - i,
    {
        v.push(json[i]);
        assert(json@.subrange(e.icon_start as int, i + 1) =~= v@);
        i = i + 1;
    }
    assert(v@ =~= truncated_icon(icon_bytes(json@, e)));
    v
}

fn copy_bytes(v: &Vec<u8>) -> (r: Vec<u8>)
    ensures
        r@ == v@,
{
    let mut out: Vec<u8> = Vec::new();
    let mut i: usize = 0;
    while i < v.len()
        invariant
            i <= v@.len(),
            out@ == v@.take(i as int),
        decreases v@.len() - i,
    {
        out.push(v[i]);
        assert(v@.take(i + 1) =~= out@);
        i = i + 1;
    }
    assert(v@.take(v@.len() as int) =~= v@);
    out
}

proof fn lemma_day_index_bounds(days: Seq<DayModel>, dn: u32, i: int)
    ensures
        day_index_from(days, dn, i) matches Some(j) ==> i <= j < days.len() && days[j].day_number
            == dn,
    decreases days.len() - i,
{
    if 0 <= i < days.len() && days[i].day_number != dn {
        lemma_day_index_bounds(days, dn, i + 1);
    }
}

fn find_day(accs: &Vec<DayAccum>, dn: u32) -> (r: Option<usize>)
    ensures
        r == (match day_index_from(models(accs@), dn, 0) {
            Some(i) => Some(i as usize),
            None => None::<usize>,
        }),
        r matches Some(i) ==> i < accs@.len(),
{
    let mut i: usize = 0;
    while i < accs.len()
        invariant
            i <= accs@.len(),
            day_index_from(models(accs@), dn, 0) == day_index_from(models(accs@), dn, i as int),
        decreases accs@.len() - i,
    {
        if accs[i].day_number == dn {
            return Some(i);
        }
        i = i + 1;
    }
    None
}

fn add_entry_exec(accs: &mut Vec<DayAccum>, json: &[u8], e: RawEntry, utc_offset_secs: i32)
    requires
        old(accs)@.len() <= MAX_TRACKED_DAYS,
        e.icon_start <= e.icon_end <= json@.len(),
    ensures
        final(accs)@.len() <= MAX_TRACKED_DAYS,
        models(final(accs)@) == add_entry(models(old(accs)@), json@, e, utc_offset_secs),
{
    let local = shift_by_offset(e.dt, utc_offset_secs);
    let dn = local / 86400;
    let tod = local % 86400;
    let nd = if tod >= 43200 {
        tod - 43200
    } else {
        43200 - tod
    };
    assert(dn == day_number_of(e.dt, utc_offset_secs));
    assert(nd == noon_dist_of(e.dt, utc_offset_secs));
    proof {
        lemma_day_index_bounds(models(accs@), dn, 0);
    }
    match find_day(accs, dn) {
        Some(i) => {
            let a = &accs[i];
            assert(models(accs@)[i as int] == a.model());
            let new_icon = if nd < a.best_noon_dist {
                truncated_icon_exec(json, e)
            } else {
                copy_bytes(&a.best_icon)
            };
            let updated = DayAccum {
                day_number: a.day_number,
                temp_min: if e.temp < a.temp_min {
                    e.temp
                } else {
                    a.temp_min
                },
                temp_max: if e.temp > a.temp_max {
                    e.temp
                } else {
                    a.temp_max
                },
                best_icon: new_icon,
                best_noon_dist: if nd < a.best_noon_dist {
                    nd
                } else {
                    a.best_noon_dist
                },
                dt_first: a.dt_first,
            };
            let ghost before = models(accs@);
            assert(updated.model() == merge_day(before[i as int], json@, e, utc_offset_secs));
            accs.set(i, updated);
            proof {
                assert(models(accs@) =~= before.update(
                    i as int,
                    merge_day(before[i as int], json@, e, utc_offset_secs),
                ));
                assert(day_index_from(before, day_number_of(e.dt, utc_offset_secs), 0) == Some(
                    i as int,
                ));
                assert(models(accs@) == add_entry(before, json@, e, utc_offset_secs));
            }
        },
        None => {
            assert(models(accs@).len() == accs@.len());
            if accs.len() < MAX_TRACKED_DAYS {
                let ghost before = models(accs@);
                accs.push(
                    DayAccum {
                        day_number: dn,
                        temp_min: e.temp,
                        temp_max: e.temp,
                        best_icon: truncated_icon_exec(json, e),
                        best_noon_dist: nd,
                        dt_first: e.dt,
                    },
                );
                proof {
                    assert(models(accs@) =~= before.push(new_day(json@, e, utc_offset_secs)));
                    assert(models(accs@) == add_entry(before, json@, e, utc_offset_secs));
                }
            }
        },
    }
}

/// Read the 5-day forecast from a forecast reply: the list entries are
/// grouped by local day (see `accumulate`), and the days of `shown_days` are
/// returned with their date, temperature range and the icon closest to
/// noon. Fails when the reply has no `"list"` array.
pub fn parse_forecast(json: &[u8], utc_offset_secs: i32) -> (r: Result<ForecastData, ()>)
    ensures
        r is Err <==> list_bounds(json@) is None,
        r matches Ok(f) ==> {
            let days = forecast_days(json@, utc_offset_secs);
            &&& f.count == days.len()
            &&& forall|i: int|
                0 <= i < f.count ==> forecast_day_matches(#[trigger] f.days[i], days[i], utc_offset_secs)
            &&& forall|i: int| f.count <= i < 5 ==> forecast_day_is_empty(#[trigger] f.days[i])
        },
{
    let n = json.len();
    let (arr_start, arr_end) = match find_list_bounds(json) {
        Some(b) => b,
        None => return Err(()),
    };
    let ghost all = entries_from(json@, arr_start + 1, arr_end as int);
    proof {
        let lb = list_bounds(json@);
        let (a, b) = lb.unwrap();
        assert(a as usize == arr_start && b as usize == arr_end);
    }
    assert(list_entries(json@) == all);
    let mut accs: Vec<DayAccum> = Vec::new();
    let mut cursor = arr_start + 1;
    let ghost mut seen: Seq<RawEntry> = Seq::empty();
    let mut done = false;
    assert(models(accs@) =~= accumulate(json@, seen, utc_offset_secs));
    while !done
        invariant
            done ==> seen == all,
            all == list_entries(json@),
            all == entries_from(json@, arr_start + 1, arr_end as int),
            arr_start < json@.len(),
            arr_start + 1 <= cursor <= json@.len(),
            seen + entries_from(json@, cursor as int, arr_end as int) == all,
            accs@.len() <= MAX_TRACKED_DAYS,
            models(accs@) == accumulate(json@, seen, utc_offset_secs),
        decreases json@.len() - cursor + (if done {
            0int
        } else {
            1int
        }),
    {
        match next_entry(json, cursor, arr_end) {
            Some((e, next)) => {
                proof {
                    assert(entries_from(json@, cursor as int, arr_end as int) == seq![e]
                        + entries_from(json@, next as int, arr_end as int));
                    assert((seen.push(e)) + entries_from(json@, next as int, arr_end as int)
                        =~= all);
                    assert(seen.push(e).drop_last() =~= seen);
                }
                add_entry_exec(&mut accs, json, e, utc_offset_secs);
                proof {
                    seen = seen.push(e);
                }
                cursor = next;
            },
            None => {
                proof {
                    assert(entries_from(json@, cursor as int, arr_end as int) =~= Seq::empty());
                    assert(seen =~= all);
                }
                done = true;
            },
        }
    }
    let ghost acc = models(accs@);
    let count = accs.len();
    let skip: usize = if count > 5 {
        1
    } else {
        0
    };
    let end = if count < skip + 5 {
        count
    } else {
        skip + 5
    };
    let ghost shown = shown_days(acc);
    assert(shown == forecast_days(json@, utc_offset_secs));
    assert(acc.len() == count);
    assert(shown == acc.subrange(skip as int, end as int));
    let mut days: [ForecastDay; 5] = [
        ForecastDay::empty(),
        ForecastDay::empty(),
        ForecastDay::empty(),
        ForecastDay::empty(),
        ForecastDay::empty(),
    ];
    let mut k: usize = skip;
    while k < end
        invariant
            skip <= k <= end <= count,
            end - skip <= 5,
            count == accs@.len(),
            acc == models(accs@),
            shown == shown_days(acc),
            shown.len() == end - skip,
            shown == acc.subrange(skip as int, end as int),
            forall|i: int| 0 <= i < k - skip ==> forecast_day_matches(#[trigger] days[i], shown[i], utc_offset_secs),
            forall|i: int| k - skip <= i < 5 ==> forecast_day_is_empty(#[trigger] days[i]),
        decreases end - k,
    {
        let a = &accs[k];
        let t = unix_to_datetime(shift_by_offset(a.dt_first, utc_offset_secs));
        let fd = ForecastDay {
            weekday: t.weekday,
            month: t.month,
            day: t.day,
            temp_min: a.temp_min,
            temp_max: a.temp_max,
            icon_code: icon_code_from(a.best_icon.as_slice()),
        };
        assert(shown[k - skip] == acc[k as int]);
        days[k - skip] = fd;
        k = k + 1;
    }
    Ok(ForecastData { days, count: (end - skip) as u8 })
}

// ───────────────────────── laws of the 5-day forecast ─────────────────────────

proof fn lemma_day_index_none(days: Seq<DayModel>, dn: u32, i: int)
    requires
        0 <= i,
        day_index_from(days, dn, i) is None,
    ensures
        forall|j: int| i <= j < days.len() ==> days[j].day_number != dn,
    decreases days.len() - i,
{
    if i < days.len() {
        lemma_day_index_none(days, dn, i + 1);
    }
}

/// Some entry of the summary's day has the summary's lowest temperature.
pub open spec fn low_reached(entries: Seq<RawEntry>, off: i32, d: DayModel) -> bool {
    exists|k: int|
        0 <= k < entries.len() && #[trigger] day_number_of(entries[k].dt, off) == d.day_number
            && entries[k].temp == d.temp_min
}

/// Some entry of the summary's day has the summary's highest temperature.
pub open spec fn high_reached(entries: Seq<RawEntry>, off: i32, d: DayModel) -> bool {
    exists|k: int|
        0 <= k < entries.len() && #[trigger] day_number_of(entries[k].dt, off) == d.day_number
            && entries[k].temp == d.temp_max
}

/// Some summary is of day `dn`.
pub open spec fn has_day(acc: Seq<DayModel>, dn: u32) -> bool {
    exists|i: int| 0 <= i < acc.len() && #[trigger] acc[i].day_number == dn
}

/// What the day summaries of a list of entries satisfy: at most six, no two
/// of the same day, every entry within the range of its day's summary, both
/// ends of each range reached by an entry, and every entry's day summarised
/// unless six days already are.
pub open spec fn summaries_sound(entries: Seq<RawEntry>, off: i32, acc: Seq<DayModel>) -> bool {
    &&& acc.len() <= MAX_TRACKED_DAYS
    &&& forall|i: int, j: int|
        #![trigger acc[i], acc[j]]
        0 <= i < acc.len() && 0 <= j < acc.len() && i != j ==> acc[i].day_number != acc[j].day_number
    &&& forall|k: int, i: int|
        #![trigger entries[k], acc[i]]
        0 <= k < entries.len() && 0 <= i < acc.len() && day_number_of(entries[k].dt, off)
            == acc[i].day_number ==> acc[i].temp_min <= entries[k].temp <= acc[i].temp_max
    &&& forall|i: int| 0 <= i < acc.len() ==> low_reached(entries, off, #[trigger] acc[i])
    &&& forall|i: int| 0 <= i < acc.len() ==> high_reached(entries, off, #[trigger] acc[i])
    &&& acc.len() == MAX_TRACKED_DAYS || forall|k: int|
        0 <= k < entries.len() ==> has_day(acc, day_number_of(#[trigger] entries[k].dt, off))
}

// What was reached by the entries before one more entry is still reached.
proof fn lemma_reached_push(prev: Seq<RawEntry>, e: RawEntry, off: i32, d: DayModel)
    ensures
        low_reached(prev, off, d) ==> low_reached(prev.push(e), off, d),
        high_reached(prev, off, d) ==> high_reached(prev.push(e), off, d),
{
    let entries = prev.push(e);
    if low_reached(prev, off, d) {
        let k = choose|k: int|
            0 <= k < prev.len() && #[trigger] day_number_of(prev[k].dt, off) == d.day_number
                && prev[k].temp == d.temp_min;
        assert(entries[k] == prev[k]);
    }
    if high_reached(prev, off, d) {
        let k = choose|k: int|
            0 <= k < prev.len() && #[trigger] day_number_of(prev[k].dt, off) == d.day_number
                && prev[k].temp == d.temp_max;
        assert(entries[k] == prev[k]);
    }
}

// An entry of a day that already has a summary widens that summary.
#[verifier::spinoff_prover]
proof fn lemma_merge_sound(
    json: Seq<u8>,
    prev: Seq<RawEntry>,
    e: RawEntry,
    off: i32,
    acc0: Seq<DayModel>,
    i: int,
)
    requires
        summaries_sound(prev, off, acc0),
        0 <= i < acc0.len(),
        acc0[i].day_number == day_number_of(e.dt, off),
    ensures
        summaries_sound(prev.push(e), off, acc0.update(i, merge_day(acc0[i], json, e, off))),
{
    let entries = prev.push(e);
    let n = prev.len() as int;
    let acc = acc0.update(i, merge_day(acc0[i], json, e, off));
    assert(entries[n] == e);
    assert forall|j: int| 0 <= j < acc.len() implies #[trigger] acc[j].day_number
        == acc0[j].day_number by {}
    assert forall|a: int, b: int|
        #![trigger acc[a], acc[b]]
        0 <= a < acc.len() && 0 <= b < acc.len() && a != b implies acc[a].day_number
        != acc[b].day_number by {
        assert(acc0[a].day_number != acc0[b].day_number);
    }
    assert forall|k: int, j: int|
        #![trigger entries[k], acc[j]]
        0 <= k < entries.len() && 0 <= j < acc.len() && day_number_of(entries[k].dt, off)
            == acc[j].day_number implies acc[j].temp_min <= entries[k].temp <= acc[j].temp_max by {
        if k < n {
            assert(prev[k] == entries[k]);
            assert(acc0[j].day_number == acc[j].day_number);
            assert(acc0[j].temp_min <= prev[k].temp <= acc0[j].temp_max);
        } else if j != i {
            assert(acc0[j].day_number != acc0[i].day_number);
        }
    }
    assert forall|j: int| 0 <= j < acc.len() implies low_reached(entries, off, #[trigger] acc[j])
        && high_reached(entries, off, acc[j]) by {
        lemma_reached_push(prev, e, off, acc0[j]);
        assert(low_reached(prev, off, acc0[j]));
        assert(high_reached(prev, off, acc0[j]));
        if j == i {
            assert(day_number_of(entries[n].dt, off) == acc[j].day_number);
            if e.temp < acc0[i].temp_min {
                assert(low_reached(entries, off, acc[j]));
            } else {
                assert(low_reached(entries, off, acc0[j]));
            }
            if e.temp > acc0[i].temp_max {
                assert(high_reached(entries, off, acc[j]));
            } else {
                assert(high_reached(entries, off, acc0[j]));
            }
        }
    }
    if acc.len() != MAX_TRACKED_DAYS {
        assert forall|k: int| 0 <= k < entries.len() implies has_day(
            acc,
            day_number_of(#[trigger] entries[k].dt, off),
        ) by {
            if k < n {
                assert(prev[k] == entries[k]);
                assert(has_day(acc0, day_number_of(prev[k].dt, off)));
                let j = choose|j: int|
                    0 <= j < acc0.len() && #[trigger] acc0[j].day_number == day_number_of(
                        prev[k].dt,
                        off,
                    );
                assert(acc[j].day_number == acc0[j].day_number);
            } else {
                assert(acc[i].day_number == acc0[i].day_number);
            }
        }
    }
}

// An entry of a new day adds a summary while fewer than six are known.
#[verifier::spinoff_prover]
proof fn lemma_new_day_sound(json: Seq<u8>, prev: Seq<RawEntry>, e: RawEntry, off: i32, acc0: Seq<DayModel>)
    requires
        summaries_sound(prev, off, acc0),
        acc0.len() < MAX_TRACKED_DAYS,
        !has_day(acc0, day_number_of(e.dt, off)),
    ensures
        summaries_sound(prev.push(e), off, acc0.push(new_day(json, e, off))),
{
    let entries = prev.push(e);
    let n = prev.len() as int;
    let m = acc0.len() as int;
    let dn = day_number_of(e.dt, off);
    let acc = acc0.push(new_day(json, e, off));
    assert(entries[n] == e);
    assert(acc[m].day_number == dn);
    assert forall|j: int| 0 <= j < m implies #[trigger] acc[j] == acc0[j] by {}
    assert forall|j: int| 0 <= j < m implies #[trigger] acc0[j].day_number != dn by {
        if acc0[j].day_number == dn {
            assert(has_day(acc0, dn));
        }
    }
    assert forall|a: int, b: int|
        #![trigger acc[a], acc[b]]
        0 <= a < acc.len() && 0 <= b < acc.len() && a != b implies acc[a].day_number
        != acc[b].day_number by {
        if a < m && b < m {
            assert(acc0[a].day_number != acc0[b].day_number);
        } else if a < m {
            assert(acc0[a].day_number != dn);
        } else {
            assert(acc0[b].day_number != dn);
        }
    }
    assert forall|k: int, j: int|
        #![trigger entries[k], acc[j]]
        0 <= k < entries.len() && 0 <= j < acc.len() && day_number_of(entries[k].dt, off)
            == acc[j].day_number implies acc[j].temp_min <= entries[k].temp <= acc[j].temp_max by {
        if k < n {
            assert(prev[k] == entries[k]);
            if j == m {
                assert(has_day(acc0, day_number_of(prev[k].dt, off)));
                let jj = choose|jj: int|
                    0 <= jj < acc0.len() && #[trigger] acc0[jj].day_number == day_number_of(
                        prev[k].dt,
                        off,
                    );
                assert(acc0[jj].day_number != dn);
            } else {
                assert(acc0[j] == acc[j]);
                assert(acc0[j].temp_min <= prev[k].temp <= acc0[j].temp_max);
            }
        } else if j < m {
            assert(acc0[j] == acc[j]);
            assert(acc0[j].day_number != dn);
        }
    }
    assert forall|j: int| 0 <= j < acc.len() implies low_reached(entries, off, #[trigger] acc[j])
        && high_reached(entries, off, acc[j]) by {
        if j == m {
            assert(day_number_of(entries[n].dt, off) == acc[j].day_number);
        } else {
            assert(acc0[j] == acc[j]);
            lemma_reached_push(prev, e, off, acc0[j]);
            assert(low_reached(prev, off, acc0[j]));
            assert(high_reached(prev, off, acc0[j]));
        }
    }
    if acc.len() != MAX_TRACKED_DAYS {
        assert forall|k: int| 0 <= k < entries.len() implies has_day(
            acc,
            day_number_of(#[trigger] entries[k].dt, off),
        ) by {
            if k < n {
                assert(prev[k] == entries[k]);
                assert(has_day(acc0, day_number_of(prev[k].dt, off)));
                let j = choose|j: int|
                    0 <= j < acc0.len() && #[trigger] acc0[j].day_number == day_number_of(
                        prev[k].dt,
                        off,
                    );
                assert(acc[j] == acc0[j]);
            } else {
                assert(acc[m].day_number == dn);
            }
        }
    }
}

// An entry of a seventh day leaves the summaries as they are.
#[verifier::spinoff_prover]
proof fn lemma_day_dropped_sound(prev: Seq<RawEntry>, e: RawEntry, off: i32, acc: Seq<DayModel>)
    requires
        summaries_sound(prev, off, acc),
        acc.len() == MAX_TRACKED_DAYS,
        !has_day(acc, day_number_of(e.dt, off)),
    ensures
        summaries_sound(prev.push(e), off, acc),
{
    let entries = prev.push(e);
    let n = prev.len() as int;
    assert(entries[n] == e);
    assert forall|k: int, j: int|
        #![trigger entries[k], acc[j]]
        0 <= k < entries.len() && 0 <= j < acc.len() && day_number_of(entries[k].dt, off)
            == acc[j].day_number implies acc[j].temp_min <= entries[k].temp <= acc[j].temp_max by {
        if k < n {
            assert(prev[k] == entries[k]);
            assert(acc[j].temp_min <= prev[k].temp <= acc[j].temp_max);
        } else {
            assert(has_day(acc, day_number_of(e.dt, off)));
        }
    }
    assert forall|j: int| 0 <= j < acc.len() implies low_reached(entries, off, #[trigger] acc[j])
        && high_reached(entries, off, acc[j]) by {
        lemma_reached_push(prev, e, off, acc[j]);
    }
}

/// The day summaries of any list of entries are sound: at most six days with
/// distinct day numbers, each with a range that holds every entry of its day
/// and whose ends are reached by some of them; an entry's day is missing only
/// once six days are known.
pub proof fn lemma_accumulate_sound(json: Seq<u8>, entries: Seq<RawEntry>, utc_offset_secs: i32)
    ensures
        summaries_sound(entries, utc_offset_secs, accumulate(json, entries, utc_offset_secs)),
    decreases entries.len(),
{
    if entries.len() > 0 {
        let prev = entries.drop_last();
        let e = entries.last();
        lemma_accumulate_sound(json, prev, utc_offset_secs);
        let acc0 = accumulate(json, prev, utc_offset_secs);
        let dn = day_number_of(e.dt, utc_offset_secs);
        assert(entries =~= prev.push(e));
        lemma_day_index_bounds(acc0, dn, 0);
        match day_index_from(acc0, dn, 0) {
            Some(i) => {
                lemma_merge_sound(json, prev, e, utc_offset_secs, acc0, i);
            },
            None => {
                lemma_day_index_none(acc0, dn, 0);
                assert(!has_day(acc0, dn));
                if acc0.len() < MAX_TRACKED_DAYS {
                    lemma_new_day_sound(json, prev, e, utc_offset_secs, acc0);
                } else {
                    lemma_day_dropped_sound(prev, e, utc_offset_secs, acc0);
                }
            },
        }
    }
}

/// Each day of the 5-day forecast has a distinct date, and its temperature
/// range is the exact range of the list entries that fall on that local day:
/// every such entry lies within it, and both ends are reached.
pub proof fn lemma_forecast_day_range(json: Seq<u8>, utc_offset_secs: i32)
    ensures
        ({
            let days = forecast_days(json, utc_offset_secs);
            let entries = list_entries(json);
            &&& days.len() <= 5
            &&& forall|i: int, j: int|
                #![trigger days[i], days[j]]
                0 <= i < days.len() && 0 <= j < days.len() && i != j ==> days[i].day_number
                    != days[j].day_number
            &&& forall|i: int, k: int|
                #![trigger days[i], entries[k]]
                0 <= i < days.len() && 0 <= k < entries.len() && day_number_of(
                    entries[k].dt,
                    utc_offset_secs,
                ) == days[i].day_number ==> days[i].temp_min <= entries[k].temp <= days[i].temp_max
            &&& forall|i: int|
                0 <= i < days.len() ==> low_reached(entries, utc_offset_secs, #[trigger] days[i])
                    && high_reached(entries, utc_offset_secs, days[i])
        }),
{
    let entries = list_entries(json);
    let acc = accumulate(json, entries, utc_offset_secs);
    lemma_accumulate_sound(json, entries, utc_offset_secs);
    let days = forecast_days(json, utc_offset_secs);
    let skip: int = if acc.len() > 5 {
        1
    } else {
        0
    };
    assert forall|i: int| 0 <= i < days.len() implies #[trigger] days[i] == acc[i + skip] by {}
    assert forall|i: int, j: int|
        #![trigger days[i], days[j]]
        0 <= i < days.len() && 0 <= j < days.len() && i != j implies days[i].day_number
        != days[j].day_number by {
        assert(days[i] == acc[i + skip]);
        assert(days[j] == acc[j + skip]);
    }
    assert forall|i: int, k: int|
        #![trigger days[i], entries[k]]
        0 <= i < days.len() && 0 <= k < entries.len() && day_number_of(entries[k].dt, utc_offset_secs)
            == days[i].day_number implies days[i].temp_min <= entries[k].temp
        <= days[i].temp_max by {
        assert(days[i] == acc[i + skip]);
    }
    assert forall|i: int| 0 <= i < days.len() implies low_reached(
        entries,
        utc_offset_secs,
        #[trigger] days[i],
    ) && high_reached(entries, utc_offset_secs, days[i]) by {
        assert(days[i] == acc[i + skip]);
    }
}
// The first summary is of the day of the first entry.
proof fn lemma_first_day(json: Seq<u8>, entries: Seq<RawEntry>, off: i32)
    requires
        entries.len() > 0,
    ensures
        accumulate(json, entries, off).len() > 0,
        accumulate(json, entries, off)[0].day_number == day_number_of(entries[0].dt, off),
    decreases entries.len(),
{
    let prev = entries.drop_last();
    let e = entries.last();
    let acc0 = accumulate(json, prev, off);
    let dn = day_number_of(e.dt, off);
    lemma_day_index_bounds(acc0, dn, 0);
    if prev.len() == 0 {
        assert(acc0.len() == 0);
        assert(day_index_from(acc0, dn, 0) is None);
        assert(entries[0] == e);
    } else {
        lemma_first_day(json, prev, off);
        assert(prev[0] == entries[0]);
        match day_index_from(acc0, dn, 0) {
            Some(i) => {
                let acc = acc0.update(i, merge_day(acc0[i], json, e, off));
                assert(acc[0].day_number == acc0[0].day_number);
            },
            None => {},
        }
    }
}

/// Which days the 5-day forecast shows. When the list covers at most five
/// local days, all of them are shown, in order of first appearance: the
/// first day shown is the day of the first entry, and every entry's day is
/// shown. When it covers six or more, the first day (today, partly past) is
/// left out and the next five are shown, none of them the first entry's day.
pub proof fn lemma_forecast_days_shown(json: Seq<u8>, utc_offset_secs: i32)
    ensures
        ({
            let entries = list_entries(json);
            let acc = accumulate(json, entries, utc_offset_secs);
            let days = forecast_days(json, utc_offset_secs);
            &&& acc.len() <= 5 ==> days == acc
            &&& acc.len() > 5 ==> days == acc.subrange(1, 6)
            &&& acc.len() <= 5 && entries.len() > 0 ==> days.len() > 0 && days[0].day_number
                == day_number_of(entries[0].dt, utc_offset_secs)
            &&& acc.len() <= 5 ==> forall|k: int|
                0 <= k < entries.len() ==> has_day(
                    days,
                    day_number_of(#[trigger] entries[k].dt, utc_offset_secs),
                )
            &&& acc.len() > 5 ==> days.len() == 5 && entries.len() > 0 && forall|i: int|
                0 <= i < 5 ==> #[trigger] days[i].day_number != day_number_of(
                    entries[0].dt,
                    utc_offset_secs,
                )
        }),
{
    let entries = list_entries(json);
    let acc = accumulate(json, entries, utc_offset_secs);
    let days = forecast_days(json, utc_offset_secs);
    lemma_accumulate_sound(json, entries, utc_offset_secs);
    if acc.len() <= 5 {
        assert(days =~= acc);
        if entries.len() > 0 {
            lemma_first_day(json, entries, utc_offset_secs);
        }
    } else {
        assert(days =~= acc.subrange(1, 6));
        if entries.len() == 0 {
            assert(acc.len() == 0);
        }
        lemma_first_day(json, entries, utc_offset_secs);
        assert forall|i: int| 0 <= i < 5 implies #[trigger] days[i].day_number != day_number_of(
            entries[0].dt,
            utc_offset_secs,
        ) by {
            assert(days[i] == acc[i + 1]);
            assert(acc[0].day_number != acc[i + 1].day_number);
        }
    }
}
} // verus!
