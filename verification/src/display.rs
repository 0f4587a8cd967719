//! The frame buffer of the 2.9" e-paper panel.
//!
//! The panel is used in landscape, 296 × 128 pixels, while its controller
//! stores a portrait image of 296 rows of 136 pixels, 8 pixels to a byte,
//! most significant bit first. A set bit is white, a clear bit is black.
use vstd::prelude::*;
use vstd::string::StringSliceAdditionalSpecFns;
use vstd::utf8::{decode_utf8, encode_utf8_decode_utf8, is_ascii_chars_encode_utf8, is_char_boundary};

use crate::hangul::{korean_weather, weather_to_korean, weekday_korean, weekday_korean_name};
use crate::hstr::{string32_as_str, string32_bytes, string8_as_str, string8_bytes};
use crate::icons::{
    draw_settings_icon,
    draw_weather_icon,
    draw_wind_arrow,
    gear_model,
    icon_kind_of,
    icon_model,
    wind_arrow_model,
};
use crate::ntp::{weekday_name, DateTime};
use crate::scene::{div_trunc, line, FontSize, Scene, Shape, ShapeModel};
use crate::settings::{city_name, lemma_city_name_ascii, Settings};
use crate::text::{
    decimal,
    decimal_len,
    push_decimal,
    push_signed,
    push_zero_padded,
    signed_decimal,
    signed_len,
    zero_padded,
};
use crate::weather::WeatherData;

verus! {

/// Width of the landscape screen in pixels.
pub const WIDTH: u32 = 296;

/// Height of the landscape screen in pixels.
pub const HEIGHT: u32 = 128;

/// Pixels in one row of the controller's memory.
pub const BUF_W: u32 = 136;

/// Rows of the controller's memory.
pub const BUF_H: u32 = 296;

/// Bytes in one row of the controller's memory.
pub const BUF_BYTES_PER_ROW: u32 = 17;

/// Bytes of the whole image.
pub const BUF_SIZE: usize = 5032;

/// A screen coordinate lies on the screen.
pub open spec fn on_screen(x: int, y: int) -> bool {
    0 <= x < WIDTH && 0 <= y < HEIGHT
}

/// Column of the controller's memory that holds screen row `y` (the image is
/// turned a quarter and shifted by the panel's three hidden columns).
pub open spec fn memory_column(y: int) -> int {
    BUF_W - 1 - y - 3
}

/// The byte that holds screen pixel (`x`, `y`).
pub open spec fn pixel_byte(x: int, y: int) -> int {
    x * BUF_BYTES_PER_ROW + memory_column(y) / 8
}

/// The position of screen pixel (`x`, `y`) within its byte, counted from the
/// most significant bit.
pub open spec fn pixel_bit(y: int) -> int {
    memory_column(y) % 8
}

/// The mask of bit `k` counted from the most significant bit.
pub open spec fn bit_mask(k: int) -> u8 {
    (0x80u8 >> (k as u8)) as u8
}

/// Screen pixel (`x`, `y`) of the image `b` is black.
pub open spec fn pixel_on(b: Seq<u8>, x: int, y: int) -> bool {
    b[pixel_byte(x, y)] & bit_mask(pixel_bit(y)) == 0
}

/// The image with screen pixel (`x`, `y`) set to black (`on`) or white.
pub open spec fn with_pixel(b: Seq<u8>, x: int, y: int, on: bool) -> Seq<u8> {
    let i = pixel_byte(x, y);
    let m = bit_mask(pixel_bit(y));
    if on {
        b.update(i, b[i] & !m)
    } else {
        b.update(i, b[i] | m)
    }
}

/// The image with every bit flipped.
pub open spec fn inverted(b: Seq<u8>) -> Seq<u8> {
    Seq::new(b.len(), |i: int| !b[i])
}

/// An all-white image.
pub open spec fn blank() -> Seq<u8> {
    Seq::new(BUF_SIZE as nat, |i: int| 0xFFu8)
}

/// The image of the whole screen.
pub struct DisplayBuffer {
    buf: Vec<u8>,
}

impl View for DisplayBuffer {
    type V = Seq<u8>;

    closed spec fn view(&self) -> Seq<u8> {
        self.buf@
    }
}

impl DisplayBuffer {
    /// The image holds every byte of the controller's memory.
    pub closed spec fn wf(&self) -> bool {
        self.buf@.len() == BUF_SIZE
    }

    /// A white screen.
    pub fn new() -> (r: Self)
        ensures
            r.wf(),
            r@ == blank(),
    {
        let mut buf: Vec<u8> = Vec::new();
        let mut i: usize = 0;
        while i < BUF_SIZE
            invariant
                i <= BUF_SIZE,
                buf@ == Seq::new(i as nat, |j: int| 0xFFu8),
            decreases BUF_SIZE - i,
        {
            buf.push(0xFF);
            i = i + 1;
            assert(buf@ =~= Seq::new(i as nat, |j: int| 0xFFu8));
        }
        DisplayBuffer { buf }
    }

    /// Makes the whole screen white.
    pub fn clear(&mut self)
        requires
            old(self).wf(),
        ensures
            final(self).wf(),
            final(self)@ == blank(),
    {
        let mut i: usize = 0;
        while i < BUF_SIZE
            invariant
                i <= BUF_SIZE,
                self.buf@.len() == BUF_SIZE,
                forall|j: int| 0 <= j < i ==> self.buf@[j] == 0xFFu8,
            decreases BUF_SIZE - i,
        {
            self.buf.set(i, 0xFF);
            i = i + 1;
        }
        assert(self.buf@ =~= blank());
    }

    /// The bytes to send to the controller.
    pub fn buffer(&self) -> (r: &[u8])
        requires
            self.wf(),
        ensures
            r@ == self@,
            r@.len() == BUF_SIZE,
    {
        self.buf.as_slice()
    }

    /// Flips every pixel (for the inverted display mode).
    pub fn invert(&mut self)
        requires
            old(self).wf(),
        ensures
            final(self).wf(),
            final(self)@ == inverted(old(self)@),
    {
        let ghost start = self.buf@;
        let mut i: usize = 0;
        while i < BUF_SIZE
            invariant
                i <= BUF_SIZE,
                start.len() == BUF_SIZE,
                self.buf@.len() == BUF_SIZE,
                forall|j: int| 0 <= j < i ==> self.buf@[j] == !start[j],
                forall|j: int| i <= j < BUF_SIZE ==> self.buf@[j] == start[j],
            decreases BUF_SIZE - i,
        {
            let b = self.buf[i];
            self.buf.set(i, !b);
            i = i + 1;
        }
        assert(self.buf@ =~= inverted(start));
    }

    /// Paints screen pixel (`x`, `y`) black (`on`) or white; points off the
    /// screen are ignored.
    pub fn set_pixel(&mut self, x: i32, y: i32, on: bool)
        requires
            old(self).wf(),
        ensures
            final(self).wf(),
            on_screen(x as int, y as int) ==> final(self)@ == with_pixel(
                old(self)@,
                x as int,
                y as int,
                on,
            ),
            !on_screen(x as int, y as int) ==> final(self)@ == old(self)@,
    {
        if x < 0 || y < 0 || x >= WIDTH as i32 || y >= HEIGHT as i32 {
            return;
        }
        let buf_x: u32 = (BUF_W as i32 - 1 - y - 3) as u32;
        let buf_y: u32 = x as u32;
        let byte_idx: usize = (buf_y * BUF_BYTES_PER_ROW + buf_x / 8) as usize;
        let k: u32 = buf_x % 8;
        let bit_mask_v: u8 = 0x80u8 >> (k as u8);
        assert(byte_idx == pixel_byte(x as int, y as int));
        assert(bit_mask_v == bit_mask(pixel_bit(y as int)));
        if byte_idx < BUF_SIZE {
            let b = self.buf[byte_idx];
            if on {
                self.buf.set(byte_idx, b & !bit_mask_v);
            } else {
                self.buf.set(byte_idx, b | bit_mask_v);
            }
        }
    }

    /// Screen pixel (`x`, `y`) is black.
    pub fn is_on(&self, x: i32, y: i32) -> (r: bool)
        requires
            self.wf(),
            on_screen(x as int, y as int),
        ensures
            r == pixel_on(self@, x as int, y as int),
    {
        let buf_x: u32 = (BUF_W as i32 - 1 - y - 3) as u32;
        let byte_idx: usize = (x as u32 * BUF_BYTES_PER_ROW + buf_x / 8) as usize;
        let bit_mask_v: u8 = 0x80u8 >> ((buf_x % 8) as u8);
        assert(byte_idx == pixel_byte(x as int, y as int));
        self.buf[byte_idx] & bit_mask_v == 0
    }
}

// ───────────────────────── laws ─────────────────────────

/// A well-formed buffer holds the whole image.
pub proof fn lemma_buffer_size(d: &DisplayBuffer)
    requires
        d.wf(),
    ensures
        d@.len() == BUF_SIZE,
{
}

/// Every screen pixel has its own byte of the image.
pub proof fn lemma_pixel_byte_in_image(x: int, y: int)
    requires
        on_screen(x, y),
    ensures
        0 <= pixel_byte(x, y) < BUF_SIZE,
        0 <= pixel_bit(y) < 8,
{
    assert(0 <= x * 17 <= 295 * 17) by (nonlinear_arith)
        requires
            0 <= x < 296,
    ;
}

/// Two different screen pixels never share both byte and bit.
pub proof fn lemma_pixels_distinct(x1: int, y1: int, x2: int, y2: int)
    requires
        on_screen(x1, y1),
        on_screen(x2, y2),
        x1 != x2 || y1 != y2,
    ensures
        pixel_byte(x1, y1) != pixel_byte(x2, y2) || pixel_bit(y1) != pixel_bit(y2),
{
    let c1 = memory_column(y1);
    let c2 = memory_column(y2);
    if pixel_byte(x1, y1) == pixel_byte(x2, y2) && pixel_bit(y1) == pixel_bit(y2) {
        assert(x1 == x2 && c1 / 8 == c2 / 8) by (nonlinear_arith)
            requires
                x1 * 17 + c1 / 8 == x2 * 17 + c2 / 8,
                0 <= c1 / 8 < 17,
                0 <= c2 / 8 < 17,
        ;
        assert(c1 == 8 * (c1 / 8) + c1 % 8);
        assert(c2 == 8 * (c2 / 8) + c2 % 8);
    }
}

proof fn lemma_bit_ops(b: u8, k1: u8, k2: u8)
    requires
        k1 < 8,
        k2 < 8,
    ensures
        (b & !(0x80u8 >> k1)) & (0x80u8 >> k1) == 0,
        (b | (0x80u8 >> k1)) & (0x80u8 >> k1) != 0,
        k1 != k2 ==> ((b & !(0x80u8 >> k1)) & (0x80u8 >> k2) == 0) == (b & (0x80u8 >> k2) == 0),
        k1 != k2 ==> ((b | (0x80u8 >> k1)) & (0x80u8 >> k2) == 0) == (b & (0x80u8 >> k2) == 0),
{
    assert((b & !(0x80u8 >> k1)) & (0x80u8 >> k1) == 0) by (bit_vector);
    assert((b | (0x80u8 >> k1)) & (0x80u8 >> k1) != 0) by (bit_vector)
        requires
            k1 < 8,
    ;
    assert(k1 != k2 ==> ((b & !(0x80u8 >> k1)) & (0x80u8 >> k2) == 0) == (b & (0x80u8 >> k2)
        == 0)) by (bit_vector)
        requires
            k1 < 8,
            k2 < 8,
    ;
    assert(k1 != k2 ==> ((b | (0x80u8 >> k1)) & (0x80u8 >> k2) == 0) == (b & (0x80u8 >> k2)
        == 0)) by (bit_vector)
        requires
            k1 < 8,
            k2 < 8,
    ;
}

/// Painting a pixel makes it read back as painted and leaves every other
/// pixel of the screen as it was.
pub proof fn lemma_paint_then_read(b: Seq<u8>, x: int, y: int, on: bool, x2: int, y2: int)
    requires
        b.len() == BUF_SIZE,
        on_screen(x, y),
        on_screen(x2, y2),
    ensures
        pixel_on(with_pixel(b, x, y, on), x, y) == on,
        (x2 != x || y2 != y) ==> pixel_on(with_pixel(b, x, y, on), x2, y2) == pixel_on(b, x2, y2),
        with_pixel(b, x, y, on).len() == BUF_SIZE,
{
    lemma_pixel_byte_in_image(x, y);
    lemma_pixel_byte_in_image(x2, y2);
    let i = pixel_byte(x, y);
    let k1 = pixel_bit(y) as u8;
    let k2 = pixel_bit(y2) as u8;
    lemma_bit_ops(b[i], k1, k2);
    if x2 != x || y2 != y {
        lemma_pixels_distinct(x, y, x2, y2);
        let i2 = pixel_byte(x2, y2);
        if i2 == i {
            assert(k1 != k2);
        }
    }
}

/// Inverting an image twice gives it back.
pub proof fn lemma_invert_twice(b: Seq<u8>)
    ensures
        inverted(inverted(b)) == b,
{
    assert forall|i: int| 0 <= i < b.len() implies #[trigger] inverted(inverted(b))[i] == b[i] by {
        let v = b[i];
        assert(!(!v) == v) by (bit_vector);
    }
    assert(inverted(inverted(b)) =~= b);
}

/// Inverting an image flips every pixel of the screen.
pub proof fn lemma_invert_flips(b: Seq<u8>, x: int, y: int)
    requires
        b.len() == BUF_SIZE,
        on_screen(x, y),
    ensures
        pixel_on(inverted(b), x, y) == !pixel_on(b, x, y),
{
    lemma_pixel_byte_in_image(x, y);
    let v = b[pixel_byte(x, y)];
    let k = pixel_bit(y) as u8;
    assert(((!v) & (0x80u8 >> k) == 0) == !(v & (0x80u8 >> k) == 0)) by (bit_vector)
        requires
            k < 8,
    ;
}

/// A cleared screen has no black pixel.
pub proof fn lemma_blank_is_white(x: int, y: int)
    requires
        on_screen(x, y),
    ensures
        !pixel_on(blank(), x, y),
{
    lemma_pixel_byte_in_image(x, y);
    let k = pixel_bit(y) as u8;
    assert(0xFFu8 & (0x80u8 >> k) != 0) by (bit_vector)
        requires
            k < 8,
    ;
}

// ───────────────────────── screens ─────────────────────────

/// The value behind an optional reference.
pub open spec fn deref_opt<T>(o: Option<&T>) -> Option<T> {
    match o {
        Some(v) => Some(*v),
        None => None,
    }
}

pub open spec fn text_model(text: Seq<char>, x: int, y: int, font: FontSize) -> ShapeModel {
    ShapeModel::Text { text, x, y, font }
}

/// The boot screen: one message on the left of the middle row.
pub open spec fn boot_model(msg: Seq<char>) -> Seq<ShapeModel> {
    seq![text_model(msg, 8, 64, FontSize::Medium)]
}

/// A screen with one status message.
pub fn render_boot(msg: &str) -> (r: Scene)
    ensures
        r@ == boot_model(msg@),
        !r.inverted,
{
    let mut scene = Scene::new();
    scene.text(msg, 8, 64, FontSize::Medium);
    assert(scene@ =~= boot_model(msg@));
    scene
}

/// `YYYY.MM.DD`
pub open spec fn date_digits(t: DateTime) -> Seq<char> {
    zero_padded(t.year as nat, 4) + "."@ + zero_padded(t.month as nat, 2) + "."@ + zero_padded(
        t.day as nat,
        2,
    )
}

/// The date line at the top of the left panel: `YYYY.MM.DD (요일)` in
/// Korean, `YYYY.MM.DD Www` in English, dashes without a time.
pub open spec fn date_model(time: Option<DateTime>, s: Settings) -> Seq<ShapeModel> {
    match time {
        Some(t) => if s.language == 0 {
            seq![
                ShapeModel::HangulText {
                    text: date_digits(t) + " ("@ + weekday_korean_name(t.weekday) + ")"@,
                    x: 20,
                    y: 2,
                    font: FontSize::Medium,
                },
            ]
        } else {
            seq![text_model(date_digits(t) + " "@ + weekday_name(t.weekday), 25, 14, FontSize::Medium)]
        },
        None => seq![text_model("----.--.-- (--)"@, 8, 14, FontSize::Medium)],
    }
}

/// The hour on a 12-hour clock.
pub open spec fn hour12(h: u8) -> u8 {
    if h == 0 {
        12
    } else if h > 12 {
        (h - 12) as u8
    } else {
        h
    }
}

/// The clock in the middle of the left panel: `HH:MM` in large digits, on a
/// 12-hour clock followed by a small AM or PM; dashes without a time.
pub open spec fn clock_model(time: Option<DateTime>, s: Settings) -> Seq<ShapeModel> {
    match time {
        Some(t) => if s.time_format == 0 {
            seq![
                text_model(
                    zero_padded(t.hour as nat, 2) + ":"@ + zero_padded(t.minute as nat, 2),
                    39,
                    78,
                    FontSize::Large,
                ),
            ]
        } else {
            seq![
                text_model(
                    zero_padded(hour12(t.hour) as nat, 2) + ":"@ + zero_padded(t.minute as nat, 2),
                    31,
                    78,
                    FontSize::Large,
                ),
                text_model(
                    if t.hour < 12 {
                        "AM"@
                    } else {
                        "PM"@
                    },
                    112,
                    78,
                    FontSize::Small,
                ),
            ]
        },
        None => seq![text_model("--:--"@, 39, 78, FontSize::Large)],
    }
}

/// The bottom of the left panel: the 16 × 16 settings gear, then the city
/// name, centred at 7 pixels a letter. The gear stands 4 pixels before the
/// name, its bottom row on the name's baseline.
pub open spec fn city_model(s: Settings) -> Seq<ShapeModel> {
    let name = city_name(s.city_slot());
    let x = div_trunc(148 - name.len() * 7, 2);
    gear_model(x - 20, 103) + seq![text_model(name, x, 118, FontSize::Medium)]
}

/// A Celsius temperature in Fahrenheit, as the firmware computes it in `i32`
/// and stores it in `i16`.
pub open spec fn fahrenheit(c: i16) -> i16 {
    (div_trunc(c as int * 9, 5) + 32) as i16
}

/// The temperature in the chosen unit.
pub open spec fn shown_temp(t: i16, s: Settings) -> i16 {
    if s.temp_unit == 0 {
        t
    } else {
        fahrenheit(t)
    }
}

/// The icon code can be cut after two bytes (needed by the icon choice).
pub open spec fn icon_code_cuttable(w: WeatherData) -> bool {
    string8_bytes(w.icon_code).len() >= 2 ==> is_char_boundary(string8_bytes(w.icon_code), 2)
}

/// The icon and the temperature with its degree sign and unit, centred as
/// one row in the right panel (icon 32, gap 6, 14 a digit, 7 and 14 for the
/// sign and the unit).
pub open spec fn temperature_model(w: WeatherData, s: Settings) -> Seq<ShapeModel> {
    let temp_s = signed_decimal(shown_temp(w.temp_int, s) as int);
    let row_w = 32 + 6 + temp_s.len() * 14 + 7 + 14;
    let row_x = 152 + div_trunc(144 - row_w, 2);
    icon_model(icon_kind_of(string8_bytes(w.icon_code)), row_x, 16) + seq![
        text_model(temp_s, row_x + 38, 42, FontSize::Large),
        ShapeModel::RingAfter { dx: 1, y: 18, diameter: 4, stroke: 1 },
        ShapeModel::TextAfter {
            text: if s.temp_unit == 0 {
                "C"@
            } else {
                "F"@
            },
            dx: 8,
            y: 42,
            font: FontSize::Large,
        },
    ]
}

/// The condition: its Korean word centred, or the English word centred at
/// 7 pixels a byte.
pub open spec fn description_model(w: WeatherData, s: Settings) -> Seq<ShapeModel> {
    let desc = decode_utf8(string32_bytes(w.description));
    if s.language == 0 {
        seq![
            ShapeModel::CenteredHangulText {
                text: korean_weather(desc),
                left: 152,
                width: 144,
                y: 58,
                font: FontSize::Medium,
            },
        ]
    } else {
        let dw = string32_bytes(w.description).len() * 7;
        seq![text_model(desc, 152 + div_trunc(144 - dw, 2), 71, FontSize::Medium)]
    }
}

/// The wind speed, `N.Nm/s`.
pub open spec fn wind_text(w: WeatherData) -> Seq<char> {
    decimal((w.wind_speed_10x / 10) as nat) + "."@ + decimal((w.wind_speed_10x % 10) as nat)
        + "m/s"@
}

/// Humidity, the wind arrow and the wind speed, centred as one row at the
/// bottom of the right panel.
pub open spec fn humidity_wind_model(w: WeatherData, s: Settings) -> Seq<ShapeModel> {
    let wind = wind_text(w);
    if s.language == 0 {
        let hum = "습도 "@ + decimal(w.humidity as nat) + "%"@;
        let bw = 56 + 8 + 12 + wind.len() * 6;
        let bx = 152 + div_trunc(144 - bw, 2);
        seq![ShapeModel::HangulText { text: hum, x: bx, y: 96, font: FontSize::Small }]
            + wind_arrow_model(bx + 64, 99) + seq![text_model(wind, bx + 78, 109, FontSize::Small)]
    } else {
        let hum = "Hum "@ + decimal(w.humidity as nat) + "%"@;
        let bw = hum.len() * 6 + 8 + 12 + wind.len() * 6;
        let bx = 152 + div_trunc(144 - bw, 2);
        let hum_end = bx + hum.len() * 6 + 8;
        seq![text_model(hum, bx, 109, FontSize::Small)] + wind_arrow_model(hum_end, 99) + seq![
            text_model(wind, hum_end + 14, 109, FontSize::Small),
        ]
    }
}

/// The right panel: the weather, or "No data".
pub open spec fn weather_panel_model(weather: Option<WeatherData>, s: Settings) -> Seq<ShapeModel> {
    match weather {
        Some(w) => temperature_model(w, s) + description_model(w, s) + humidity_wind_model(w, s),
        None => seq![text_model("No data"@, 185, 65, FontSize::Medium)],
    }
}

/// The main screen: date, clock, and gear and city on the left, a divider at x = 148,
/// the weather on the right.
pub open spec fn main_screen_model(time: Option<DateTime>, weather: Option<WeatherData>, s: Settings) -> Seq<
    ShapeModel,
> {
    date_model(time, s) + clock_model(time, s) + city_model(s) + seq![line(148, 8, 148, 120, 1)]
        + weather_panel_model(weather, s)
}

fn draw_date(scene: &mut Scene, time: Option<&DateTime>, settings: &Settings)
    ensures
        final(scene)@ == old(scene)@ + date_model(deref_opt(time), *settings),
        final(scene).inverted == old(scene).inverted,
{
    match time {
        Some(t) => {
            let mut s = String::new();
            push_zero_padded(&mut s, t.year as u32, 4);
            s.append(".");
            push_zero_padded(&mut s, t.month as u32, 2);
            s.append(".");
            push_zero_padded(&mut s, t.day as u32, 2);
            assert(s@ =~= date_digits(*t));
            if settings.language == 0 {
                s.append(" (");
                s.append(weekday_korean(t.weekday));
                s.append(")");
                scene.add(Shape::HangulText { text: s, x: 20, y: 2, font: FontSize::Medium });
            } else {
                s.append(" ");
                s.append(t.weekday_str());
                scene.add(Shape::Text { text: s, x: 25, y: 14, font: FontSize::Medium });
            }
        },
        None => {
            scene.text("----.--.-- (--)", 8, 14, FontSize::Medium);
        },
    }
    assert(scene@ =~= old(scene)@ + date_model(deref_opt(time), *settings));
}

fn draw_clock(scene: &mut Scene, time: Option<&DateTime>, settings: &Settings)
    ensures
        final(scene)@ == old(scene)@ + clock_model(deref_opt(time), *settings),
        final(scene).inverted == old(scene).inverted,
{
    match time {
        Some(t) => {
            let mut s = String::new();
            if settings.time_format == 0 {
                push_zero_padded(&mut s, t.hour as u32, 2);
                s.append(":");
                push_zero_padded(&mut s, t.minute as u32, 2);
                scene.add(Shape::Text { text: s, x: 39, y: 78, font: FontSize::Large });
            } else {
                let h12: u8 = if t.hour == 0 {
                    12
                } else if t.hour > 12 {
                    t.hour - 12
                } else {
                    t.hour
                };
                let ampm = if t.hour < 12 {
                    "AM"
                } else {
                    "PM"
                };
                push_zero_padded(&mut s, h12 as u32, 2);
                s.append(":");
                push_zero_padded(&mut s, t.minute as u32, 2);
                scene.add(Shape::Text { text: s, x: 31, y: 78, font: FontSize::Large });
                scene.text(ampm, 112, 78, FontSize::Small);
            }
        },
        None => {
            scene.text("--:--", 39, 78, FontSize::Large);
        },
    }
    assert(scene@ =~= old(scene)@ + clock_model(deref_opt(time), *settings));
}

fn draw_city(scene: &mut Scene, settings: &Settings)
    ensures
        final(scene)@ == old(scene)@ + city_model(*settings),
        final(scene).inverted == old(scene).inverted,
{
    let name = settings.city().name;
    proof {
        lemma_city_name_ascii(settings.city_slot());
        is_ascii_chars_encode_utf8(name@);
    }
    let w: i32 = name.len() as i32 * 7;
    let x = (148 - w) / 2;
    draw_settings_icon(scene, x - 20, 103);
    scene.text(name, x, 118, FontSize::Medium);
    assert(scene@ =~= old(scene)@ + city_model(*settings));
}

fn draw_temperature(scene: &mut Scene, w: &WeatherData, settings: &Settings)
    requires
        icon_code_cuttable(*w),
    ensures
        final(scene)@ == old(scene)@ + temperature_model(*w, *settings),
        final(scene).inverted == old(scene).inverted,
{
    let temp: i16 = if settings.temp_unit == 0 {
        w.temp_int
    } else {
        ((w.temp_int as i32) * 9 / 5 + 32) as i16
    };
    let mut temp_s = String::new();
    push_signed(&mut temp_s, temp as i32);
    let temp_chars = signed_len(temp as i32);
    assert(temp_chars <= 3279);
    let unit = if settings.temp_unit == 0 {
        "C"
    } else {
        "F"
    };
    let row_w: i32 = 32 + 6 + temp_chars as i32 * 14 + 7 + 14;
    let row_x: i32 = 152 + (144 - row_w) / 2;
    let code = string8_as_str(&w.icon_code);
    draw_weather_icon(scene, row_x, 16, code);
    scene.add(Shape::Text { text: temp_s, x: row_x + 38, y: 42, font: FontSize::Large });
    scene.add(Shape::RingAfter { dx: 1, y: 18, diameter: 4, stroke: 1 });
    scene.add(Shape::TextAfter { text: String::from_str(unit), dx: 8, y: 42, font: FontSize::Large });
    assert(scene@ =~= old(scene)@ + temperature_model(*w, *settings));
}

fn draw_description(scene: &mut Scene, w: &WeatherData, settings: &Settings)
    ensures
        final(scene)@ == old(scene)@ + description_model(*w, *settings),
        final(scene).inverted == old(scene).inverted,
{
    let d = string32_as_str(&w.description);
    proof {
        encode_utf8_decode_utf8(d@);
    }
    if settings.language == 0 {
        let kr = weather_to_korean(d);
        scene.add(
            Shape::CenteredHangulText {
                text: String::from_str(kr),
                left: 152,
                width: 144,
                y: 58,
                font: FontSize::Medium,
            },
        );
    } else {
        let dw: i32 = d.len() as i32 * 7;
        scene.text(d, 152 + (144 - dw) / 2, 71, FontSize::Medium);
    }
    assert(scene@ =~= old(scene)@ + description_model(*w, *settings));
}

fn draw_humidity_wind(scene: &mut Scene, w: &WeatherData, settings: &Settings)
    ensures
        final(scene)@ == old(scene)@ + humidity_wind_model(*w, *settings),
        final(scene).inverted == old(scene).inverted,
{
    proof {
        reveal_strlit(".");
        reveal_strlit("m/s");
        reveal_strlit("Hum ");
        reveal_strlit("%");
    }
    let tens = (w.wind_speed_10x / 10) as u32;
    let ones = (w.wind_speed_10x % 10) as u32;
    let mut wind_s = String::new();
    push_decimal(&mut wind_s, tens);
    wind_s.append(".");
    push_decimal(&mut wind_s, ones);
    wind_s.append("m/s");
    assert(wind_s@ =~= wind_text(*w));
    let wind_len: i32 = (decimal_len(tens) + 1 + decimal_len(ones) + 3) as i32;
    assert(wind_len == wind_text(*w).len());
    let h_len: i32 = decimal_len(w.humidity as u32) as i32;
    if settings.language == 0 {
        let mut hum_s = String::from_str("습도 ");
        push_decimal(&mut hum_s, w.humidity as u32);
        hum_s.append("%");
        let bottom_w: i32 = 56 + 8 + 12 + wind_len * 6;
        let bx: i32 = 152 + (144 - bottom_w) / 2;
        scene.add(Shape::HangulText { text: hum_s, x: bx, y: 96, font: FontSize::Small });
        draw_wind_arrow(scene, bx + 64, 99);
        scene.add(Shape::Text { text: wind_s, x: bx + 78, y: 109, font: FontSize::Small });
    } else {
        let mut hum_s = String::from_str("Hum ");
        push_decimal(&mut hum_s, w.humidity as u32);
        hum_s.append("%");
        let hum_len: i32 = 4 + h_len + 1;
        assert(hum_len == hum_s@.len());
        let bottom_w: i32 = hum_len * 6 + 8 + 12 + wind_len * 6;
        let bx: i32 = 152 + (144 - bottom_w) / 2;
        scene.add(Shape::Text { text: hum_s, x: bx, y: 109, font: FontSize::Small });
        let hum_end: i32 = bx + hum_len * 6 + 8;
        draw_wind_arrow(scene, hum_end, 99);
        scene.add(Shape::Text { text: wind_s, x: hum_end + 14, y: 109, font: FontSize::Small });
    }
    assert(scene@ =~= old(scene)@ + humidity_wind_model(*w, *settings));
}

/// The main screen for the given time, weather and settings, inverted in
/// the inverted display mode.
pub fn render_to_buffer(
    time: Option<&DateTime>,
    weather: Option<&WeatherData>,
    settings: &Settings,
) -> (r: Scene)
    requires
        weather matches Some(w) ==> icon_code_cuttable(*w),
    ensures
        r@ == main_screen_model(deref_opt(time), deref_opt(weather), *settings),
        r.inverted == (settings.display_mode == 1),
{
    let mut scene = Scene::new();
    draw_date(&mut scene, time, settings);
    draw_clock(&mut scene, time, settings);
    draw_city(&mut scene, settings);
    scene.line(148, 8, 148, 120, 1);
    match weather {
        Some(w) => {
            draw_temperature(&mut scene, w, settings);
            draw_description(&mut scene, w, settings);
            draw_humidity_wind(&mut scene, w, settings);
        },
        None => {
            scene.text("No data", 185, 65, FontSize::Medium);
        },
    }
    if settings.display_mode == 1 {
        scene.inverted = true;
    }
    assert(scene@ =~= main_screen_model(deref_opt(time), deref_opt(weather), *settings));
    scene
}

/// The display mode changes nothing of the weather screen but whether it is
/// inverted: screens for settings that differ only in it hold the same shapes
/// (and `render_to_buffer` inverts exactly in mode 1, which flips every pixel,
/// see `lemma_invert_flips`).
pub proof fn lemma_display_mode_only_inverts(
    time: Option<DateTime>,
    weather: Option<WeatherData>,
    s0: Settings,
    s1: Settings,
)
    requires
        s1 == (Settings { display_mode: s1.display_mode, ..s0 }),
    ensures
        main_screen_model(time, weather, s0) == main_screen_model(time, weather, s1),
{
}

/// The temperature is drawn in the unit the settings choose, and labelled
/// with that unit: in Celsius (`temp_unit` 0) the reading itself followed by
/// `C`, otherwise the reading converted to Fahrenheit (nine fifths of it,
/// rounded toward zero, plus 32) followed by `F`. The letter stands on the
/// weather screen after the degree ring.
pub proof fn lemma_temperature_unit(time: Option<DateTime>, w: WeatherData, s: Settings)
    ensures
        ({
            let t = temperature_model(w, s);
            let n = t.len() as int;
            let screen = main_screen_model(time, Some(w), s);
            &&& n >= 3
            &&& t[n - 2] == (ShapeModel::RingAfter { dx: 1, y: 18, diameter: 4, stroke: 1 })
            &&& s.temp_unit == 0 ==> t[n - 1] == (ShapeModel::TextAfter {
                text: "C"@,
                dx: 8,
                y: 42,
                font: FontSize::Large,
            }) && screen.contains(t[n - 1]) && (t[n - 3] matches ShapeModel::Text {
                text,
                y,
                font,
                ..
            } && text == signed_decimal(w.temp_int as int) && y == 42 && font == FontSize::Large)
            &&& s.temp_unit != 0 ==> t[n - 1] == (ShapeModel::TextAfter {
                text: "F"@,
                dx: 8,
                y: 42,
                font: FontSize::Large,
            }) && screen.contains(t[n - 1]) && (t[n - 3] matches ShapeModel::Text {
                text,
                y,
                font,
                ..
            } && (-18000 <= w.temp_int <= 18000 ==> text == signed_decimal(
                div_trunc(w.temp_int * 9, 5) + 32,
            )) && y == 42 && font == FontSize::Large)
        }),
{
    let t = temperature_model(w, s);
    let n = t.len() as int;
    let head = date_model(time, s) + clock_model(time, s) + city_model(s) + seq![
        line(148, 8, 148, 120, 1),
    ];
    let screen = main_screen_model(time, Some(w), s);
    let rest = description_model(w, s) + humidity_wind_model(w, s);
    assert(screen == head + (t + rest));
    assert(screen[head.len() + n - 1] == t[n - 1]);
}

} // verus!
