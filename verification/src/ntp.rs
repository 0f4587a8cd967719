//! Calendar arithmetic and NTP response decoding.
//!
//! A Unix timestamp is split into a civil date (proleptic Gregorian calendar,
//! starting at 1970-01-01) and a time of day. The network exchange itself
//! (DNS lookup, UDP socket) happens outside this crate; this module builds the
//! request packet and turns the received bytes into a local `DateTime`.
use vstd::prelude::*;

verus! {

/// Seconds between the NTP epoch (1900-01-01) and the Unix epoch (1970-01-01).
pub const NTP_TO_UNIX: u32 = 2_208_988_800;

/// Length of an NTP packet in bytes.
pub const NTP_PACKET_LEN: usize = 48;

/// Simple date/time structure.
#[derive(Clone, Copy, Debug, PartialEq, Eq)]
pub struct DateTime {
    pub year: u16,
    pub month: u8,
    pub day: u8,
    pub hour: u8,
    pub minute: u8,
    pub second: u8,
    /// 0 = Sunday, 1 = Monday, ..., 6 = Saturday.
    pub weekday: u8,
}

// ───────────────────────── calendar model ─────────────────────────

/// Whether `year` is a leap year in the Gregorian calendar.
pub open spec fn spec_is_leap(year: int) -> bool {
    (year % 4 == 0 && year % 100 != 0) || year % 400 == 0
}

/// Number of days in `year`.
pub open spec fn year_len(year: int) -> int {
    if spec_is_leap(year) {
        366
    } else {
        365
    }
}

/// Number of days in month `month` (1-based) of `year`.
pub open spec fn month_len(year: int, month: int) -> int {
    if month == 2 {
        if spec_is_leap(year) {
            29
        } else {
            28
        }
    } else if month == 4 || month == 6 || month == 9 || month == 11 {
        30
    } else {
        31
    }
}

/// Days from 1970-01-01 to the first day of `year`.
pub open spec fn days_before_year(year: int) -> int
    decreases year - 1970,
{
    if year <= 1970 {
        0
    } else {
        days_before_year(year - 1) + year_len(year - 1)
    }
}

/// Days from the first day of `year` to the first day of month `month`.
pub open spec fn days_before_month(year: int, month: int) -> int
    decreases month,
{
    if month <= 1 {
        0
    } else {
        days_before_month(year, month - 1) + month_len(year, month - 1)
    }
}

/// A calendar date on or after 1970-01-01.
pub open spec fn valid_date(year: int, month: int, day: int) -> bool {
    &&& 1970 <= year
    &&& 1 <= month <= 12
    &&& 1 <= day <= month_len(year, month)
}

/// Days since 1970-01-01 of the given date.
pub open spec fn days_from_civil(year: int, month: int, day: int) -> int {
    days_before_year(year) + days_before_month(year, month) + day - 1
}

/// Weekday (0 = Sunday) of the day that lies `days` days after 1970-01-01,
/// which was a Thursday.
pub open spec fn weekday_of_days(days: int) -> int {
    (days + 4) % 7
}

impl DateTime {
    /// All fields lie in their ranges and the date is a real calendar date.
    pub open spec fn wf(self) -> bool {
        &&& valid_date(self.year as int, self.month as int, self.day as int)
        &&& self.hour < 24
        &&& self.minute < 60
        &&& self.second < 60
        &&& self.weekday < 7
    }

    /// Seconds since the Unix epoch named by this date and time.
    pub open spec fn unix_seconds(self) -> int {
        days_from_civil(self.year as int, self.month as int, self.day as int) * 86400
            + self.hour as int * 3600 + self.minute as int * 60 + self.second as int
    }

    /// The weekday field agrees with the date.
    pub open spec fn weekday_consistent(self) -> bool {
        self.weekday as int == weekday_of_days(
            days_from_civil(self.year as int, self.month as int, self.day as int),
        )
    }
}

/// The date and time that `secs` seconds after the Unix epoch name.
pub open spec fn datetime_of(secs: int) -> DateTime {
    choose|d: DateTime| d.wf() && d.weekday_consistent() && d.unix_seconds() == secs
}

/// English three-letter name of weekday `w` (0 = Sunday).
pub open spec fn weekday_name(w: u8) -> Seq<char> {
    if w == 0 {
        "Sun"@
    } else if w == 1 {
        "Mon"@
    } else if w == 2 {
        "Tue"@
    } else if w == 3 {
        "Wed"@
    } else if w == 4 {
        "Thu"@
    } else if w == 5 {
        "Fri"@
    } else if w == 6 {
        "Sat"@
    } else {
        "???"@
    }
}

// ───────────────────────── lemmas ─────────────────────────

proof fn lemma_days_before_month_13(year: int)
    ensures
        days_before_month(year, 13) == year_len(year),
{
    reveal_with_fuel(days_before_month, 13);
}

proof fn lemma_days_before_month_strict(year: int, m1: int, m2: int)
    requires
        1 <= m1 < m2 <= 13,
    ensures
        days_before_month(year, m1) + month_len(year, m1) <= days_before_month(year, m2),
    decreases m2 - m1,
{
    if m2 > m1 + 1 {
        lemma_days_before_month_strict(year, m1, m2 - 1);
    }
}

proof fn lemma_days_before_month_nonneg(year: int, month: int)
    ensures
        days_before_month(year, month) >= 0,
    decreases month,
{
    if month > 1 {
        lemma_days_before_month_nonneg(year, month - 1);
    }
}

proof fn lemma_days_before_year_lower(year: int)
    requires
        1970 <= year,
    ensures
        days_before_year(year) >= 365 * (year - 1970),
    decreases year - 1970,
{
    if year > 1970 {
        lemma_days_before_year_lower(year - 1);
    }
}

proof fn lemma_days_before_year_mono(y1: int, y2: int)
    requires
        1970 <= y1 < y2,
    ensures
        days_before_year(y1) + year_len(y1) <= days_before_year(y2),
    decreases y2 - y1,
{
    if y2 > y1 + 1 {
        lemma_days_before_year_mono(y1, y2 - 1);
    }
}

/// The days of a valid date fall inside its year.
proof fn lemma_date_within_year(year: int, month: int, day: int)
    requires
        valid_date(year, month, day),
    ensures
        days_before_year(year) <= days_from_civil(year, month, day) < days_before_year(year)
            + year_len(year),
{
    lemma_days_before_month_nonneg(year, month);
    lemma_days_before_month_strict(year, month, 13);
    lemma_days_before_month_13(year);
}

/// Distinct valid dates have distinct day numbers.
pub proof fn lemma_days_from_civil_injective(y1: int, m1: int, d1: int, y2: int, m2: int, d2: int)
    requires
        valid_date(y1, m1, d1),
        valid_date(y2, m2, d2),
        days_from_civil(y1, m1, d1) == days_from_civil(y2, m2, d2),
    ensures
        y1 == y2,
        m1 == m2,
        d1 == d2,
{
    lemma_date_within_year(y1, m1, d1);
    lemma_date_within_year(y2, m2, d2);
    if y1 < y2 {
        lemma_days_before_year_mono(y1, y2);
    } else if y2 < y1 {
        lemma_days_before_year_mono(y2, y1);
    }
    assert(y1 == y2);
    if m1 < m2 {
        lemma_days_before_month_strict(y1, m1, m2);
    } else if m2 < m1 {
        lemma_days_before_month_strict(y1, m2, m1);
    }
}

// ───────────────────────── executable code ─────────────────────────

fn is_leap(year: u16) -> (r: bool)
    ensures
        r == spec_is_leap(year as int),
{
    (year % 4 == 0 && year % 100 != 0) || year % 400 == 0
}

fn days_in_year(year: u16) -> (r: u32)
    ensures
        r == year_len(year as int),
{
    if is_leap(year) {
        366
    } else {
        365
    }
}

fn days_in_month(year: u16, month: u8) -> (r: u32)
    ensures
        r == month_len(year as int, month as int),
{
    if month == 2 {
        if is_leap(year) {
            29
        } else {
            28
        }
    } else if month == 4 || month == 6 || month == 9 || month == 11 {
        30
    } else {
        31
    }
}

/// Convert days since the Unix epoch to (year, month, day).
fn days_to_date(days: u32) -> (r: (u16, u8, u8))
    requires
        days <= 0xFFFF_FFFFu32 / 86400,
    ensures
        valid_date(r.0 as int, r.1 as int, r.2 as int),
        days_from_civil(r.0 as int, r.1 as int, r.2 as int) == days,
{
    let mut rem: u32 = days;
    let mut year: u16 = 1970;
    while rem >= days_in_year(year)
        invariant
            1970 <= year,
            days <= 0xFFFF_FFFFu32 / 86400,
            365 * (year - 1970) <= days,
            rem + days_before_year(year as int) == days,
        decreases rem,
    {
        let diy = days_in_year(year);
        rem = rem - diy;
        proof {
            lemma_days_before_year_lower(year + 1);
            assert(days_before_year(year + 1) == days_before_year(year as int) + diy);
            assert(365 * (year + 1 - 1970) <= days);
            assert(year + 1 <= 1970 + 137);
        }
        year = year + 1;
    }
    let ghost rem0 = rem;
    let mut month: u8 = 1;
    while rem >= days_in_month(year, month)
        invariant
            1 <= month <= 12,
            rem0 < year_len(year as int),
            rem + days_before_month(year as int, month as int) == rem0,
        decreases 12 - month,
    {
        let md = days_in_month(year, month);
        rem = rem - md;
        proof {
            lemma_days_before_month_13(year as int);
            if month + 1 < 13 {
            } else {
                assert(days_before_month(year as int, 13) == days_before_month(year as int, 12)
                    + month_len(year as int, 12));
            }
        }
        month = month + 1;
    }
    (year, month, (rem + 1) as u8)
}

/// Convert a Unix timestamp to a `DateTime`.
pub fn unix_to_datetime(secs: u32) -> (r: DateTime)
    ensures
        r.wf(),
        r.weekday_consistent(),
        r.unix_seconds() == secs,
        r == datetime_of(secs as int),
        r.hour == (secs % 86400) / 3600,
        r.minute == (secs % 3600) / 60,
        r.second == secs % 60,
        r.weekday == weekday_of_days((secs / 86400) as int),
{
    let days = secs / 86400;
    let time_of_day = secs % 86400;
    let hour = (time_of_day / 3600) as u8;
    let minute = ((time_of_day % 3600) / 60) as u8;
    let second = (time_of_day % 60) as u8;
    let weekday = ((days + 4) % 7) as u8;
    let (year, month, day) = days_to_date(days);
    assert(time_of_day == hour * 3600 + minute * 60 + second);
    let r = DateTime { year, month, day, hour, minute, second, weekday };
    proof {
        assert((time_of_day % 3600) == secs % 3600) by (nonlinear_arith)
            requires
                time_of_day == secs % 86400,
        ;
        assert(r.wf() && r.weekday_consistent() && r.unix_seconds() == secs as int);
        assert(exists|d: DateTime| d.wf() && d.weekday_consistent() && d.unix_seconds() == secs);
        lemma_unix_seconds_determines_datetime(r, datetime_of(secs as int));
    }
    r
}

/// The converse of `unix_to_datetime`: a well-formed date and time whose
/// weekday agrees with its date is what `unix_to_datetime` gives back for its
/// own timestamp. Together with the contract of `unix_to_datetime` this makes
/// the conversion a bijection between timestamps and such date-times.
pub proof fn lemma_unix_seconds_determines_datetime(a: DateTime, b: DateTime)
    requires
        a.wf(),
        b.wf(),
        a.weekday_consistent(),
        b.weekday_consistent(),
        a.unix_seconds() == b.unix_seconds(),
    ensures
        a == b,
{
    let da = days_from_civil(a.year as int, a.month as int, a.day as int);
    let db = days_from_civil(b.year as int, b.month as int, b.day as int);
    let ta = a.hour as int * 3600 + a.minute as int * 60 + a.second as int;
    let tb = b.hour as int * 3600 + b.minute as int * 60 + b.second as int;
    assert(0 <= ta < 86400);
    assert(0 <= tb < 86400);
    assert(da == db) by (nonlinear_arith)
        requires
            da * 86400 + ta == db * 86400 + tb,
            0 <= ta < 86400,
            0 <= tb < 86400,
    ;
    lemma_days_from_civil_injective(
        a.year as int,
        a.month as int,
        a.day as int,
        b.year as int,
        b.month as int,
        b.day as int,
    );
    assert(ta == tb);
}

impl DateTime {
    /// English three-letter weekday name, "???" when the weekday is out of range.
    pub fn weekday_str(&self) -> (r: &'static str)
        ensures
            r@ == weekday_name(self.weekday),
    {
        match self.weekday {
            0 => "Sun",
            1 => "Mon",
            2 => "Tue",
            3 => "Wed",
            4 => "Thu",
            5 => "Fri",
            6 => "Sat",
            _ => "???",
        }
    }
}

// ───────────────────────── NTP packets ─────────────────────────

/// Local time in seconds: the Unix time shifted by the UTC offset, modulo 2^32.
pub open spec fn local_seconds(unix_secs: u32, utc_offset_secs: i32) -> u32 {
    ((unix_secs as int + utc_offset_secs as int) % 0x1_0000_0000) as u32
}

/// The big-endian 32-bit number stored in bytes `at..at + 4` of `b`.
pub open spec fn be_u32(b: Seq<u8>, at: int) -> int {
    b[at] as int * 0x100_0000 + b[at + 1] as int * 0x1_0000 + b[at + 2] as int * 0x100 + b[at
        + 3] as int
}

/// The transmit timestamp (seconds field) of an NTP response: bytes 40..44.
pub open spec fn transmit_seconds(resp: Seq<u8>) -> int {
    be_u32(resp, 40)
}

/// What an NTP response decodes to, for an offset of `utc_offset_secs`:
/// `None` when it is shorter than a full packet or its timestamp lies before
/// the Unix epoch, else the local Unix time.
pub open spec fn ntp_local_seconds(resp: Seq<u8>, utc_offset_secs: i32) -> Option<u32> {
    if resp.len() < 48 {
        None
    } else if transmit_seconds(resp) < NTP_TO_UNIX {
        None
    } else {
        Some(local_seconds((transmit_seconds(resp) - NTP_TO_UNIX) as u32, utc_offset_secs))
    }
}

/// The 48-byte client request: LI = 0, VN = 3, Mode = 3, all else zero.
pub fn ntp_request_packet() -> (r: Vec<u8>)
    ensures
        r@.len() == 48,
        r@[0] == 0x1B,
        forall|i: int| 1 <= i < 48 ==> r@[i] == 0,
{
    let mut packet: Vec<u8> = Vec::new();
    packet.push(0x1B);
    while packet.len() < NTP_PACKET_LEN
        invariant
            1 <= packet@.len() <= 48,
            packet@[0] == 0x1B,
            forall|i: int| 1 <= i < packet@.len() ==> packet@[i] == 0,
        decreases 48 - packet@.len(),
    {
        packet.push(0);
    }
    packet
}

fn read_be_u32(b: &[u8], at: usize) -> (r: u32)
    requires
        at + 4 <= b@.len(),
    ensures
        r == be_u32(b@, at as int),
{
    let v = (b[at] as u32) * 0x100_0000 + (b[at + 1] as u32) * 0x1_0000 + (b[at + 2] as u32)
        * 0x100 + (b[at + 3] as u32);
    v
}

/// The local time for a Unix time and an offset in seconds, modulo 2^32.
pub fn shift_by_offset(unix_secs: u32, utc_offset_secs: i32) -> (r: u32)
    ensures
        r == local_seconds(unix_secs, utc_offset_secs),
{
    unix_secs.wrapping_add_signed(utc_offset_secs)
}

/// Decode the bytes received from the NTP server into local time.
/// Fails when fewer than 48 bytes arrived or the timestamp precedes 1970.
pub fn datetime_from_ntp_response(received: &[u8], utc_offset_secs: i32) -> (r: Result<
    DateTime,
    (),
>)
    ensures
        match ntp_local_seconds(received@, utc_offset_secs) {
            None => r is Err,
            Some(local) => r matches Ok(dt) && dt.wf() && dt.weekday_consistent()
                && dt.unix_seconds() == local,
        },
{
    if received.len() < NTP_PACKET_LEN {
        return Err(());
    }
    let secs = read_be_u32(received, 40);
    if secs < NTP_TO_UNIX {
        return Err(());
    }
    let unix_secs = secs - NTP_TO_UNIX;
    let local_secs = shift_by_offset(unix_secs, utc_offset_secs);
    Ok(unix_to_datetime(local_secs))
}

} // verus!
