//! User settings, the preset city table, and the byte image that is kept in
//! the last 4 KiB sector of the flash.
//!
//! Reading and writing the flash are done by the caller; this module decides
//! what is written and what a read-back value means.
use vstd::prelude::*;
use vstd::utf8::is_ascii_chars;

verus! {

/// Size of the RP2040 flash (2 MiB).
pub const FLASH_SIZE: usize = 2097152;

/// Offset of the settings sector: the last 4 KiB of the flash.
pub const SETTINGS_OFFSET: u32 = 0x1F_F000;

/// Size of the erased sector.
pub const SETTINGS_SECTOR_LEN: u32 = 4096;

/// Size of the page that is written.
pub const SETTINGS_PAGE_LEN: usize = 256;

/// Number of bytes read back when loading.
pub const SETTINGS_READ_LEN: usize = 32;

/// Number of bytes of a record: four header bytes, eight single bytes, and
/// padding to 32 bytes.
pub const SETTINGS_RECORD_LEN: usize = 32;

pub const MAGIC: u32 = 0xE1D1_5E77;

pub const VERSION: u8 = 1;

/// Number of preset cities.
pub const CITY_COUNT: usize = 10;

/// Number of weather fetch intervals.
pub const INTERVAL_COUNT: usize = 5;

/// A preset city: display name, coordinates as sent to the weather service,
/// and its usual UTC offset in hours.
#[derive(Clone, Copy, Debug)]
pub struct CityEntry {
    pub name: &'static str,
    pub lat: &'static str,
    pub lon: &'static str,
    pub utc_offset: i8,
}

/// Name of preset city `i`.
pub open spec fn city_name(i: int) -> Seq<char> {
    if i == 0 {
        "Seoul"@
    } else if i == 1 {
        "Tokyo"@
    } else if i == 2 {
        "New York"@
    } else if i == 3 {
        "London"@
    } else if i == 4 {
        "Paris"@
    } else if i == 5 {
        "Sydney"@
    } else if i == 6 {
        "Beijing"@
    } else if i == 7 {
        "Singapore"@
    } else if i == 8 {
        "Dubai"@
    } else {
        "Los Angeles"@
    }
}

/// Latitude of preset city `i`.
pub open spec fn city_lat(i: int) -> Seq<char> {
    if i == 0 {
        "37.5665"@
    } else if i == 1 {
        "35.6762"@
    } else if i == 2 {
        "40.7128"@
    } else if i == 3 {
        "51.5074"@
    } else if i == 4 {
        "48.8566"@
    } else if i == 5 {
        "-33.8688"@
    } else if i == 6 {
        "39.9042"@
    } else if i == 7 {
        "1.3521"@
    } else if i == 8 {
        "25.2048"@
    } else {
        "34.0522"@
    }
}

/// Longitude of preset city `i`.
pub open spec fn city_lon(i: int) -> Seq<char> {
    if i == 0 {
        "126.9780"@
    } else if i == 1 {
        "139.6503"@
    } else if i == 2 {
        "-74.0060"@
    } else if i == 3 {
        "-0.1278"@
    } else if i == 4 {
        "2.3522"@
    } else if i == 5 {
        "151.2093"@
    } else if i == 6 {
        "116.4074"@
    } else if i == 7 {
        "103.8198"@
    } else if i == 8 {
        "55.2708"@
    } else {
        "-118.2437"@
    }
}

/// Usual UTC offset (hours) of preset city `i`.
pub open spec fn city_utc_offset(i: int) -> i8 {
    if i == 0 || i == 1 {
        9
    } else if i == 2 {
        -5i8
    } else if i == 3 {
        0
    } else if i == 4 {
        1
    } else if i == 5 {
        11
    } else if i == 6 || i == 7 {
        8
    } else if i == 8 {
        4
    } else {
        -8i8
    }
}

/// The entry is preset city `i`.
pub open spec fn is_city(c: CityEntry, i: int) -> bool {
    &&& c.name@ == city_name(i)
    &&& c.lat@ == city_lat(i)
    &&& c.lon@ == city_lon(i)
    &&& c.utc_offset == city_utc_offset(i)
}

/// Weather fetch interval `i` in seconds. The time always refreshes every 60 s.
pub open spec fn interval_value(i: int) -> u32 {
    if i == 0 {
        3600
    } else if i == 1 {
        7200
    } else if i == 2 {
        10800
    } else if i == 3 {
        21600
    } else {
        43200
    }
}

/// Every preset city name is ASCII and at most 11 characters long.
pub proof fn lemma_city_name_ascii(i: int)
    ensures
        is_ascii_chars(city_name(i)),
        city_name(i).len() <= 11,
{
    reveal_strlit("Seoul");
    reveal_strlit("Tokyo");
    reveal_strlit("New York");
    reveal_strlit("London");
    reveal_strlit("Paris");
    reveal_strlit("Sydney");
    reveal_strlit("Beijing");
    reveal_strlit("Singapore");
    reveal_strlit("Dubai");
    reveal_strlit("Los Angeles");
}

/// Preset city `index`.
pub fn city_entry(index: usize) -> (r: CityEntry)
    requires
        index < CITY_COUNT,
    ensures
        is_city(r, index as int),
{
    match index {
        0 => CityEntry { name: "Seoul", lat: "37.5665", lon: "126.9780", utc_offset: 9 },
        1 => CityEntry { name: "Tokyo", lat: "35.6762", lon: "139.6503", utc_offset: 9 },
        2 => CityEntry { name: "New York", lat: "40.7128", lon: "-74.0060", utc_offset: -5 },
        3 => CityEntry { name: "London", lat: "51.5074", lon: "-0.1278", utc_offset: 0 },
        4 => CityEntry { name: "Paris", lat: "48.8566", lon: "2.3522", utc_offset: 1 },
        5 => CityEntry { name: "Sydney", lat: "-33.8688", lon: "151.2093", utc_offset: 11 },
        6 => CityEntry { name: "Beijing", lat: "39.9042", lon: "116.4074", utc_offset: 8 },
        7 => CityEntry { name: "Singapore", lat: "1.3521", lon: "103.8198", utc_offset: 8 },
        8 => CityEntry { name: "Dubai", lat: "25.2048", lon: "55.2708", utc_offset: 4 },
        _ => CityEntry { name: "Los Angeles", lat: "34.0522", lon: "-118.2437", utc_offset: -8 },
    }
}

/// Weather fetch interval `index` in seconds.
pub fn interval_at(index: usize) -> (r: u32)
    requires
        index < INTERVAL_COUNT,
    ensures
        r == interval_value(index as int),
{
    match index {
        0 => 3600,
        1 => 7200,
        2 => 10800,
        3 => 21600,
        _ => 43200,
    }
}

/// The settings record.
#[derive(Clone, Copy, Debug, PartialEq, Eq)]
pub struct Settings {
    /// Header word identifying a stored record.
    pub magic: u32,
    /// Layout version of a stored record.
    pub version: u8,
    /// 0 = Korean, 1 = English.
    pub language: u8,
    /// Hours, -12 ..= 14.
    pub utc_offset: i8,
    /// Index into the city table.
    pub city_index: u8,
    /// 0 = Celsius, 1 = Fahrenheit.
    pub temp_unit: u8,
    /// 0 = 24 h, 1 = 12 h.
    pub time_format: u8,
    /// Index into the interval table.
    pub interval_index: u8,
    /// 0 = normal, 1 = inverted.
    pub display_mode: u8,
}

/// The default settings: Korean, UTC+9, Seoul, Celsius, 24 h, hourly, normal.
pub open spec fn is_default(s: Settings) -> bool {
    &&& s.header_valid()
    &&& s.language == 0
    &&& s.utc_offset == 9
    &&& s.city_index == 0
    &&& s.temp_unit == 0
    &&& s.time_format == 0
    &&& s.interval_index == 0
    &&& s.display_mode == 0
}

/// The little-endian bytes of a 32-bit number.
pub open spec fn le_bytes(v: u32) -> Seq<u8> {
    seq![
        (v % 0x100) as u8,
        ((v / 0x100) % 0x100) as u8,
        ((v / 0x1_0000) % 0x100) as u8,
        (v / 0x100_0000) as u8,
    ]
}

/// The little-endian number held in bytes `0..4` of `b`.
pub open spec fn le_u32(b: Seq<u8>) -> int {
    b[0] as int + b[1] as int * 0x100 + b[2] as int * 0x1_0000 + b[3] as int * 0x100_0000
}

/// Byte image of settings whose header is `magic`/`version`: the header, the
/// eight single-byte fields in declaration order, then 20 bytes of 0xFF.
pub open spec fn record_image(
    magic: u32,
    version: u8,
    language: u8,
    utc_offset: i8,
    city_index: u8,
    temp_unit: u8,
    time_format: u8,
    interval_index: u8,
    display_mode: u8,
) -> Seq<u8> {
    le_bytes(magic) + seq![
        version,
        language,
        utc_offset as u8,
        city_index,
        temp_unit,
        time_format,
        interval_index,
        display_mode,
    ] + Seq::new(20, |i: int| 0xFFu8)
}

/// The settings that a stored record decodes to: header taken from bytes
/// 0..5, the fields from bytes 5..12.
pub open spec fn decoded_fields_match(s: Settings, b: Seq<u8>) -> bool {
    &&& s.language == b[5]
    &&& s.utc_offset == b[6] as i8
    &&& s.city_index == b[7]
    &&& s.temp_unit == b[8]
    &&& s.time_format == b[9]
    &&& s.interval_index == b[10]
    &&& s.display_mode == b[11]
}

/// Whether a stored record carries the current magic number and version.
pub open spec fn stored_header_valid(b: Seq<u8>) -> bool {
    le_u32(b) == MAGIC && b[4] == VERSION
}

/// What loading `b` gives: the stored fields when the header is valid, else
/// the defaults.
pub open spec fn loaded_from(s: Settings, b: Seq<u8>) -> bool {
    &&& s.header_valid()
    &&& if stored_header_valid(b) {
        decoded_fields_match(s, b)
    } else {
        is_default(s)
    }
}

impl Settings {
    /// The header carries the current magic number and version.
    pub open spec fn header_valid(self) -> bool {
        self.magic == MAGIC && self.version == VERSION
    }

    /// The byte image of this record.
    pub open spec fn image(self) -> Seq<u8> {
        record_image(
            self.magic,
            self.version,
            self.language,
            self.utc_offset,
            self.city_index,
            self.temp_unit,
            self.time_format,
            self.interval_index,
            self.display_mode,
        )
    }

    /// Every field holds a value that the menu offers.
    pub open spec fn in_range(self) -> bool {
        &&& self.language <= 1
        &&& -12 <= self.utc_offset <= 14
        &&& self.city_index < CITY_COUNT
        &&& self.temp_unit <= 1
        &&& self.time_format <= 1
        &&& self.interval_index < INTERVAL_COUNT
        &&& self.display_mode <= 1
    }

    /// Index of the city in use: the stored index clamped to the table.
    pub open spec fn city_slot(self) -> int {
        if self.city_index < CITY_COUNT {
            self.city_index as int
        } else {
            CITY_COUNT - 1
        }
    }

    /// Index of the interval in use: the stored index clamped to the table.
    pub open spec fn interval_slot(self) -> int {
        if self.interval_index < INTERVAL_COUNT {
            self.interval_index as int
        } else {
            INTERVAL_COUNT - 1
        }
    }

    pub fn new_default() -> (r: Self)
        ensures
            is_default(r),
            r.in_range(),
    {
        Self {
            magic: MAGIC,
            version: VERSION,
            language: 0,
            utc_offset: 9,
            city_index: 0,
            temp_unit: 0,
            time_format: 0,
            interval_index: 0,
            display_mode: 0,
        }
    }

    /// The city in use; an index past the table selects the last city.
    pub fn city(&self) -> (r: CityEntry)
        ensures
            is_city(r, self.city_slot()),
    {
        let idx = if (self.city_index as usize) < CITY_COUNT {
            self.city_index as usize
        } else {
            CITY_COUNT - 1
        };
        city_entry(idx)
    }

    /// The weather fetch interval in seconds; an index past the table selects
    /// the longest interval.
    pub fn interval_secs(&self) -> (r: u64)
        ensures
            r == interval_value(self.interval_slot()),
    {
        let idx = if (self.interval_index as usize) < INTERVAL_COUNT {
            self.interval_index as usize
        } else {
            INTERVAL_COUNT - 1
        };
        interval_at(idx) as u64
    }

    /// The UTC offset in seconds.
    pub fn utc_offset_seconds(&self) -> (r: i32)
        ensures
            r == self.utc_offset as int * 3600,
    {
        self.utc_offset as i32 * 3600
    }

    /// The byte image of this record (32 bytes).
    pub fn to_bytes(&self) -> (r: Vec<u8>)
        ensures
            r@ == self.image(),
            r@.len() == SETTINGS_RECORD_LEN,
    {
        let mut v: Vec<u8> = Vec::new();
        let m = self.magic;
        v.push((m % 0x100) as u8);
        v.push(((m / 0x100) % 0x100) as u8);
        v.push(((m / 0x1_0000) % 0x100) as u8);
        v.push((m / 0x100_0000) as u8);
        v.push(self.version);
        v.push(self.language);
        v.push(#[verifier::truncate] (self.utc_offset as u8));
        v.push(self.city_index);
        v.push(self.temp_unit);
        v.push(self.time_format);
        v.push(self.interval_index);
        v.push(self.display_mode);
        let ghost head = v@;
        assert(head =~= le_bytes(m) + seq![
            self.version,
            self.language,
            self.utc_offset as u8,
            self.city_index,
            self.temp_unit,
            self.time_format,
            self.interval_index,
            self.display_mode,
        ]);
        while v.len() < SETTINGS_RECORD_LEN
            invariant
                12 <= v@.len() <= 32,
                v@.subrange(0, 12) == head,
                forall|i: int| 12 <= i < v@.len() ==> v@[i] == 0xFF,
            decreases 32 - v@.len(),
        {
            v.push(0xFF);
        }
        assert(v@.subrange(12, 32) =~= Seq::new(20, |i: int| 0xFFu8));
        assert(v@ =~= v@.subrange(0, 12) + v@.subrange(12, 32));
        assert(v@ =~= self.image());
        v
    }

    /// Decode a stored record without checking its header.
    fn from_bytes(bytes: &[u8]) -> (r: Self)
        requires
            bytes@.len() >= 12,
        ensures
            r.magic == le_u32(bytes@),
            r.version == bytes@[4],
            decoded_fields_match(r, bytes@),
    {
        let magic = (bytes[0] as u32) + (bytes[1] as u32) * 0x100 + (bytes[2] as u32) * 0x1_0000
            + (bytes[3] as u32) * 0x100_0000;
        Self {
            magic,
            version: bytes[4],
            language: bytes[5],
            utc_offset: bytes[6] as i8,
            city_index: bytes[7],
            temp_unit: bytes[8],
            time_format: bytes[9],
            interval_index: bytes[10],
            display_mode: bytes[11],
        }
    }

    /// The settings held by the 32 bytes read back from the settings sector:
    /// the stored values when magic and version match, else the defaults.
    pub fn from_stored_bytes(bytes: &[u8]) -> (r: Self)
        requires
            bytes@.len() == SETTINGS_READ_LEN,
        ensures
            loaded_from(r, bytes@),
    {
        let s = Self::from_bytes(bytes);
        if s.magic == MAGIC && s.version == VERSION {
            s
        } else {
            Self::new_default()
        }
    }

    /// The settings at start-up: those held by the 32 bytes read back from
    /// the settings sector, or the defaults when the read failed.
    pub fn from_flash_read(read: Option<&[u8]>) -> (r: Self)
        requires
            read matches Some(b) ==> b@.len() == SETTINGS_READ_LEN,
        ensures
            match read {
                Some(b) => loaded_from(r, b@),
                None => is_default(r),
            },
    {
        match read {
            Some(b) => Self::from_stored_bytes(b),
            None => Self::new_default(),
        }
    }

    /// The 256-byte page that is written to the settings sector: the record
    /// image followed by 0xFF.
    pub fn flash_page(&self) -> (r: Vec<u8>)
        ensures
            r@.len() == SETTINGS_PAGE_LEN,
            r@.subrange(0, 32) == self.image(),
            forall|i: int| 32 <= i < 256 ==> r@[i] == 0xFF,
    {
        let mut page = self.to_bytes();
        while page.len() < SETTINGS_PAGE_LEN
            invariant
                32 <= page@.len() <= 256,
                page@.subrange(0, 32) == self.image(),
                forall|i: int| 32 <= i < page@.len() ==> page@[i] == 0xFF,
            decreases 256 - page@.len(),
        {
            page.push(0xFF);
        }
        page
    }
}

proof fn lemma_le_round_trip(v: u32)
    ensures
        le_u32(le_bytes(v)) == v,
{
    let b = le_bytes(v);
    assert(b[0] as int + b[1] as int * 0x100 + b[2] as int * 0x1_0000 + b[3] as int * 0x100_0000
        == v) by (nonlinear_arith)
        requires
            b[0] == (v % 0x100) as u8,
            b[1] == ((v / 0x100) % 0x100) as u8,
            b[2] == ((v / 0x1_0000) % 0x100) as u8,
            b[3] == (v / 0x100_0000) as u8,
    ;
}

proof fn lemma_i8_u8_round_trip(x: i8)
    ensures
        ((x as u8) as i8) == x,
{
    assert(((x as u8) as i8) == x) by (bit_vector);
}

/// What is written is what is read back: loading the first 32 bytes of the
/// page that `flash_page` writes for settings with a current header gives the
/// same settings.
pub proof fn lemma_flash_round_trip(s: Settings, page: Seq<u8>, t: Settings)
    requires
        s.header_valid(),
        page.len() == SETTINGS_PAGE_LEN,
        page.subrange(0, 32) == s.image(),
        loaded_from(t, page.subrange(0, 32)),
    ensures
        t == s,
{
    let b = page.subrange(0, 32);
    let img = s.image();
    assert(b =~= img);
    lemma_le_round_trip(s.magic);
    lemma_i8_u8_round_trip(s.utc_offset);
    assert(le_bytes(s.magic) =~= img.subrange(0, 4));
    assert(le_u32(b) == le_u32(le_bytes(s.magic)));
    assert(stored_header_valid(b));
    assert(t.magic == s.magic && t.version == s.version);
}

} // verus!
