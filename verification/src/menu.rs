//! Touch settings menu: the screens, how a touch changes the menu, and the
//! texts it shows for each setting.
use vstd::prelude::*;

use crate::settings::{
    city_entry,
    city_name,
    interval_value,
    Settings,
    CITY_COUNT,
    INTERVAL_COUNT,
};
use crate::display::text_model;
use crate::scene::{line, FontSize, Scene, Shape, ShapeModel};
use crate::text::{decimal, push_decimal, push_signed, signed_decimal};
use crate::touch::TouchPoint;

verus! {

/// Height of the header bar.
pub const HEADER_H: i32 = 22;

/// The back button covers x < BACK_X, y < BACK_Y.
pub const BACK_X: i32 = 40;

pub const BACK_Y: i32 = 22;

/// Height of one menu row.
pub const MENU_ROW_H: i32 = 26;

/// Rows visible on one page of the main menu.
pub const MENU_VISIBLE: usize = 4;

/// Number of main menu items.
pub const MENU_ITEMS: usize = 7;

/// Rows visible on one page of the city list.
pub const CITY_VISIBLE: usize = 4;

/// The screen the menu shows.
#[derive(Clone, Copy, Debug, PartialEq, Eq)]
pub enum MenuScreen {
    /// The list of settings, starting at item `scroll`.
    Main { scroll: u8 },
    /// The city list, starting at city `scroll`.
    EditCity { scroll: u8 },
    /// The UTC offset editor.
    EditTimezone,
}

/// What the caller should do after a touch.
#[derive(Clone, Copy, Debug, PartialEq, Eq)]
pub enum MenuAction {
    NoChange,
    Redraw,
    Exit,
}

/// The settings menu: the settings being edited and the screen shown.
pub struct Menu {
    pub settings: Settings,
    pub screen: MenuScreen,
}

// ───────────────────────── model of a touch ─────────────────────────

pub open spec fn in_back_button(p: TouchPoint) -> bool {
    p.x < BACK_X && p.y < BACK_Y
}

pub open spec fn in_scroll_up(p: TouchPoint) -> bool {
    230 <= p.x < 262 && p.y < BACK_Y
}

pub open spec fn in_scroll_down(p: TouchPoint) -> bool {
    p.x >= 262 && p.y < BACK_Y
}

/// The row (0-based, below the header) that a touch at or below the header lies in.
pub open spec fn row_of(p: TouchPoint) -> int {
    (p.y - HEADER_H) / (MENU_ROW_H as int)
}

/// 0 becomes 1; anything else becomes 0.
pub open spec fn toggled(v: u8) -> u8 {
    if v == 0 {
        1
    } else {
        0
    }
}

/// The next interval index: one up, wrapping in 8 bits, modulo the table size.
pub open spec fn next_interval(i: u8) -> u8 {
    (((i + 1) % 256) % (INTERVAL_COUNT as int)) as u8
}

/// The settings after main menu item `item` was touched.
pub open spec fn settings_after_item(s: Settings, item: int) -> Settings {
    if item == 0 {
        Settings { language: toggled(s.language), ..s }
    } else if item == 3 {
        Settings { temp_unit: toggled(s.temp_unit), ..s }
    } else if item == 4 {
        Settings { time_format: toggled(s.time_format), ..s }
    } else if item == 5 {
        Settings { interval_index: next_interval(s.interval_index), ..s }
    } else if item == 6 {
        Settings { display_mode: toggled(s.display_mode), ..s }
    } else {
        s
    }
}

/// The screen after main menu item `item` was touched.
pub open spec fn screen_after_item(scroll: u8, item: int) -> MenuScreen {
    if item == 1 {
        MenuScreen::EditTimezone
    } else if item == 2 {
        MenuScreen::EditCity { scroll: 0 }
    } else {
        MenuScreen::Main { scroll }
    }
}

/// Effect of a touch on the main screen scrolled to `scroll`.
pub open spec fn main_step(s: Settings, scroll: u8, p: TouchPoint) -> (
    Settings,
    MenuScreen,
    MenuAction,
) {
    if in_back_button(p) {
        (s, MenuScreen::Main { scroll }, MenuAction::Exit)
    } else if in_scroll_up(p) {
        (s, MenuScreen::Main { scroll: 0 }, MenuAction::Redraw)
    } else if in_scroll_down(p) {
        (
            s,
            MenuScreen::Main {
                scroll: if scroll == 0 {
                    MENU_VISIBLE as u8
                } else {
                    scroll
                },
            },
            MenuAction::Redraw,
        )
    } else if p.y < HEADER_H {
        (s, MenuScreen::Main { scroll }, MenuAction::NoChange)
    } else {
        let item = scroll + row_of(p);
        if 0 <= item < MENU_ITEMS {
            (settings_after_item(s, item), screen_after_item(scroll, item), MenuAction::Redraw)
        } else {
            (s, MenuScreen::Main { scroll }, MenuAction::NoChange)
        }
    }
}

/// Effect of a touch on the city list scrolled to `scroll`.
pub open spec fn city_step(s: Settings, scroll: u8, p: TouchPoint) -> (
    Settings,
    MenuScreen,
    MenuAction,
) {
    if in_back_button(p) {
        (s, MenuScreen::Main { scroll: 0 }, MenuAction::Redraw)
    } else if in_scroll_up(p) {
        (
            s,
            MenuScreen::EditCity {
                scroll: if scroll >= CITY_VISIBLE {
                    (scroll - CITY_VISIBLE) as u8
                } else {
                    scroll
                },
            },
            MenuAction::Redraw,
        )
    } else if in_scroll_down(p) {
        (
            s,
            MenuScreen::EditCity {
                scroll: if scroll + CITY_VISIBLE < CITY_COUNT {
                    (scroll + CITY_VISIBLE) as u8
                } else {
                    scroll
                },
            },
            MenuAction::Redraw,
        )
    } else if p.y >= HEADER_H && row_of(p) < CITY_VISIBLE && scroll + row_of(p) < CITY_COUNT {
        (
            Settings { city_index: (scroll + row_of(p)) as u8, ..s },
            MenuScreen::Main { scroll: 0 },
            MenuAction::Redraw,
        )
    } else {
        (s, MenuScreen::EditCity { scroll }, MenuAction::NoChange)
    }
}

/// A touch inside the band of the "-" and "+" buttons.
pub open spec fn in_offset_band(p: TouchPoint) -> bool {
    75 <= p.y <= 125
}

/// Effect of a touch on the UTC offset editor.
pub open spec fn timezone_step(s: Settings, p: TouchPoint) -> (Settings, MenuScreen, MenuAction) {
    if in_back_button(p) {
        (s, MenuScreen::Main { scroll: 0 }, MenuAction::Redraw)
    } else if p.x <= 148 && in_offset_band(p) {
        (
            Settings {
                utc_offset: if s.utc_offset > -12 {
                    (s.utc_offset - 1) as i8
                } else {
                    s.utc_offset
                },
                ..s
            },
            MenuScreen::EditTimezone,
            MenuAction::Redraw,
        )
    } else if p.x > 148 && in_offset_band(p) {
        (
            Settings {
                utc_offset: if s.utc_offset < 14 {
                    (s.utc_offset + 1) as i8
                } else {
                    s.utc_offset
                },
                ..s
            },
            MenuScreen::EditTimezone,
            MenuAction::Redraw,
        )
    } else {
        (s, MenuScreen::EditTimezone, MenuAction::NoChange)
    }
}

/// Effect of a touch on a menu showing `screen` with settings `s`: the new
/// settings, the new screen and the action for the caller.
pub open spec fn menu_step(s: Settings, screen: MenuScreen, p: TouchPoint) -> (
    Settings,
    MenuScreen,
    MenuAction,
) {
    match screen {
        MenuScreen::Main { scroll } => main_step(s, scroll, p),
        MenuScreen::EditCity { scroll } => city_step(s, scroll, p),
        MenuScreen::EditTimezone => timezone_step(s, p),
    }
}

/// The screen is one the menu can reach: the main list starts at its first or
/// second page, the city list at the first, second or third.
pub open spec fn screen_wf(screen: MenuScreen) -> bool {
    match screen {
        MenuScreen::Main { scroll } => scroll == 0 || scroll == MENU_VISIBLE,
        MenuScreen::EditCity { scroll } => scroll == 0 || scroll == 4 || scroll == 8,
        MenuScreen::EditTimezone => true,
    }
}

// ───────────────────────── labels ─────────────────────────

pub open spec fn language_label(v: u8) -> Seq<char> {
    if v == 0 {
        "Korean"@
    } else {
        "English"@
    }
}

pub open spec fn temp_unit_label(v: u8) -> Seq<char> {
    if v == 0 {
        "C"@
    } else {
        "F"@
    }
}

pub open spec fn time_format_label(v: u8) -> Seq<char> {
    if v == 0 {
        "24h"@
    } else {
        "12h"@
    }
}

pub open spec fn display_mode_label(v: u8) -> Seq<char> {
    if v == 0 {
        "Normal"@
    } else {
        "Inverted"@
    }
}

/// Label of an interval length in seconds.
pub open spec fn interval_label(secs: u32) -> Seq<char> {
    if secs == 3600 {
        "1hr"@
    } else if secs == 7200 {
        "2hr"@
    } else if secs == 10800 {
        "3hr"@
    } else if secs == 21600 {
        "6hr"@
    } else if secs == 43200 {
        "12hr"@
    } else {
        "??"@
    }
}

/// "UTC+n" for a non-negative offset, "UTC-n" for a negative one.
pub open spec fn offset_label(off: i8) -> Seq<char> {
    if off >= 0 {
        "UTC+"@ + signed_decimal(off as int)
    } else {
        "UTC"@ + signed_decimal(off as int)
    }
}

/// The value shown beside main menu item `idx`.
pub open spec fn item_value(s: Settings, idx: int) -> Seq<char> {
    if idx == 0 {
        language_label(s.language)
    } else if idx == 1 {
        offset_label(s.utc_offset)
    } else if idx == 2 {
        city_name(s.city_slot())
    } else if idx == 3 {
        temp_unit_label(s.temp_unit)
    } else if idx == 4 {
        time_format_label(s.time_format)
    } else if idx == 5 {
        interval_label(interval_value(s.interval_slot()))
    } else if idx == 6 {
        display_mode_label(s.display_mode)
    } else {
        Seq::empty()
    }
}

/// The text "UTC+n" / "UTC-n" for an offset in hours.
pub fn offset_text(off: i8) -> (r: String)
    ensures
        r@ == offset_label(off),
{
    let mut s = String::new();
    if off >= 0 {
        s.append("UTC+");
    } else {
        s.append("UTC");
    }
    push_signed(&mut s, off as i32);
    s
}

impl Menu {
    pub fn new(settings: Settings) -> (r: Self)
        ensures
            r.settings == settings,
            r.screen == (MenuScreen::Main { scroll: 0 }),
    {
        Self { settings, screen: MenuScreen::Main { scroll: 0 } }
    }

    /// Apply a touch: updates the settings and the screen, and tells the
    /// caller whether to redraw, leave the menu, or do nothing.
    pub fn handle_touch(&mut self, point: TouchPoint) -> (r: MenuAction)
        ensures
            (final(self).settings, final(self).screen, r) == menu_step(
                old(self).settings,
                old(self).screen,
                point,
            ),
    {
        match self.screen {
            MenuScreen::Main { .. } => self.handle_main_touch(point),
            MenuScreen::EditCity { .. } => self.handle_city_touch(point),
            MenuScreen::EditTimezone => self.handle_timezone_touch(point),
        }
    }

    fn handle_main_touch(&mut self, point: TouchPoint) -> (r: MenuAction)
        requires
            old(self).screen is Main,
        ensures
            (final(self).settings, final(self).screen, r) == main_step(
                old(self).settings,
                old(self).screen->Main_scroll,
                point,
            ),
    {
        let x = point.x as i32;
        let y = point.y as i32;
        let scroll = match self.screen {
            MenuScreen::Main { scroll } => scroll,
            _ => 0,
        };
        if x < BACK_X && y < BACK_Y {
            return MenuAction::Exit;
        }
        if x >= 230 && x < 262 && y < BACK_Y {
            if scroll > 0 {
                self.screen = MenuScreen::Main { scroll: 0 };
            }
            return MenuAction::Redraw;
        }
        if x >= 262 && y < BACK_Y {
            if scroll == 0 {
                self.screen = MenuScreen::Main { scroll: MENU_VISIBLE as u8 };
            }
            return MenuAction::Redraw;
        }
        if y < HEADER_H {
            return MenuAction::NoChange;
        }
        let row_in_view = (y - HEADER_H) / MENU_ROW_H;
        let item = scroll as i32 + row_in_view;
        match item {
            0 => {
                self.settings.language = if self.settings.language == 0 {
                    1
                } else {
                    0
                };
                MenuAction::Redraw
            },
            1 => {
                self.screen = MenuScreen::EditTimezone;
                MenuAction::Redraw
            },
            2 => {
                self.screen = MenuScreen::EditCity { scroll: 0 };
                MenuAction::Redraw
            },
            3 => {
                self.settings.temp_unit = if self.settings.temp_unit == 0 {
                    1
                } else {
                    0
                };
                MenuAction::Redraw
            },
            4 => {
                self.settings.time_format = if self.settings.time_format == 0 {
                    1
                } else {
                    0
                };
                MenuAction::Redraw
            },
            5 => {
                self.settings.interval_index = self.settings.interval_index.wrapping_add(1)
                    % (INTERVAL_COUNT as u8);
                MenuAction::Redraw
            },
            6 => {
                self.settings.display_mode = if self.settings.display_mode == 0 {
                    1
                } else {
                    0
                };
                MenuAction::Redraw
            },
            _ => MenuAction::NoChange,
        }
    }

    fn handle_city_touch(&mut self, point: TouchPoint) -> (r: MenuAction)
        requires
            old(self).screen is EditCity,
        ensures
            (final(self).settings, final(self).screen, r) == city_step(
                old(self).settings,
                old(self).screen->EditCity_scroll,
                point,
            ),
    {
        let x = point.x as i32;
        let y = point.y as i32;
        let scroll = match self.screen {
            MenuScreen::EditCity { scroll } => scroll,
            _ => 0,
        };
        if x < BACK_X && y < BACK_Y {
            self.screen = MenuScreen::Main { scroll: 0 };
            return MenuAction::Redraw;
        }
        if x >= 230 && x < 262 && y < BACK_Y {
            if scroll >= CITY_VISIBLE as u8 {
                self.screen = MenuScreen::EditCity { scroll: scroll - CITY_VISIBLE as u8 };
            }
            return MenuAction::Redraw;
        }
        if x >= 262 && y < BACK_Y {
            if (scroll as usize) + CITY_VISIBLE < CITY_COUNT {
                self.screen = MenuScreen::EditCity { scroll: scroll + CITY_VISIBLE as u8 };
            }
            return MenuAction::Redraw;
        }
        if y >= HEADER_H {
            let row = (y - HEADER_H) / MENU_ROW_H;
            if (row as usize) < CITY_VISIBLE {
                let idx = scroll as usize + row as usize;
                if idx < CITY_COUNT {
                    self.settings.city_index = idx as u8;
                    self.screen = MenuScreen::Main { scroll: 0 };
                    return MenuAction::Redraw;
                }
            }
        }
        MenuAction::NoChange
    }

    fn handle_timezone_touch(&mut self, point: TouchPoint) -> (r: MenuAction)
        requires
            old(self).screen is EditTimezone,
        ensures
            (final(self).settings, final(self).screen, r) == timezone_step(
                old(self).settings,
                point,
            ),
    {
        let x = point.x as i32;
        let y = point.y as i32;
        if x < BACK_X && y < BACK_Y {
            self.screen = MenuScreen::Main { scroll: 0 };
            return MenuAction::Redraw;
        }
        if x <= 148 && y >= 75 && y <= 125 {
            if self.settings.utc_offset > -12 {
                self.settings.utc_offset = self.settings.utc_offset - 1;
            }
            return MenuAction::Redraw;
        }
        if x > 148 && y >= 75 && y <= 125 {
            if self.settings.utc_offset < 14 {
                self.settings.utc_offset = self.settings.utc_offset + 1;
            }
            return MenuAction::Redraw;
        }
        MenuAction::NoChange
    }

    pub fn language_val(&self) -> (r: &'static str)
        ensures
            r@ == language_label(self.settings.language),
    {
        match self.settings.language {
            0 => "Korean",
            _ => "English",
        }
    }

    pub fn temp_unit_val(&self) -> (r: &'static str)
        ensures
            r@ == temp_unit_label(self.settings.temp_unit),
    {
        match self.settings.temp_unit {
            0 => "C",
            _ => "F",
        }
    }

    pub fn time_format_val(&self) -> (r: &'static str)
        ensures
            r@ == time_format_label(self.settings.time_format),
    {
        match self.settings.time_format {
            0 => "24h",
            _ => "12h",
        }
    }

    pub fn display_mode_val(&self) -> (r: &'static str)
        ensures
            r@ == display_mode_label(self.settings.display_mode),
    {
        match self.settings.display_mode {
            0 => "Normal",
            _ => "Inverted",
        }
    }

    pub fn interval_val(&self) -> (r: &'static str)
        ensures
            r@ == interval_label(interval_value(self.settings.interval_slot())),
    {
        let secs = self.settings.interval_secs();
        match secs {
            3600 => "1hr",
            7200 => "2hr",
            10800 => "3hr",
            21600 => "6hr",
            43200 => "12hr",
            _ => "??",
        }
    }

    /// The value shown beside main menu item `idx`; empty past the last item.
    pub fn item_value_str(&self, idx: usize) -> (r: String)
        ensures
            r@ == item_value(self.settings, idx as int),
    {
        let mut s = String::new();
        match idx {
            0 => s.append(self.language_val()),
            1 => {
                s = offset_text(self.settings.utc_offset);
            },
            2 => s.append(self.settings.city().name),
            3 => s.append(self.temp_unit_val()),
            4 => s.append(self.time_format_val()),
            5 => s.append(self.interval_val()),
            6 => s.append(self.display_mode_val()),
            _ => {},
        }
        s
    }
}

// ───────────────────────── drawing ─────────────────────────

/// The header: a back button `<`, the title, and a line under it.
pub open spec fn header_model(s: Settings, kr_title: Seq<char>, en_title: Seq<char>) -> Seq<ShapeModel> {
    seq![
        ShapeModel::Rect { x: 0, y: 0, w: 20, h: 20, stroke: 1 },
        text_model("<"@, 5, 15, FontSize::Medium),
    ] + (if s.language == 0 {
        seq![ShapeModel::HangulText { text: kr_title, x: 24, y: 3, font: FontSize::Medium }]
    } else {
        seq![text_model(en_title, 24, 15, FontSize::Medium)]
    }) + seq![line(0, HEADER_H - 1, 295, HEADER_H - 1, 1)]
}

/// The scroll buttons `^` and `v` at the top right.
pub open spec fn scroll_buttons_model() -> Seq<ShapeModel> {
    seq![
        ShapeModel::Rect { x: 230, y: 0, w: 32, h: 20, stroke: 1 },
        text_model("^"@, 242, 15, FontSize::Medium),
        ShapeModel::Rect { x: 264, y: 0, w: 32, h: 20, stroke: 1 },
        text_model("v"@, 276, 15, FontSize::Medium),
    ]
}

/// English label of main menu item `i`.
pub open spec fn item_label_en(i: int) -> Seq<char> {
    if i == 0 {
        "Language"@
    } else if i == 1 {
        "Timezone"@
    } else if i == 2 {
        "City"@
    } else if i == 3 {
        "Temp Unit"@
    } else if i == 4 {
        "Time Fmt"@
    } else if i == 5 {
        "Interval"@
    } else {
        "Display"@
    }
}

/// Korean label of main menu item `i`.
pub open spec fn item_label_kr(i: int) -> Seq<char> {
    if i == 0 {
        "언어"@
    } else if i == 1 {
        "시간대"@
    } else if i == 2 {
        "도시"@
    } else if i == 3 {
        "온도"@
    } else if i == 4 {
        "시간"@
    } else if i == 5 {
        "주기"@
    } else {
        "반전"@
    }
}

/// Number of rows a page shows when it starts at `first` of `total`.
pub open spec fn rows_shown(first: int, total: int, visible: int) -> nat {
    if first >= total {
        0
    } else if total - first < visible {
        (total - first) as nat
    } else {
        visible as nat
    }
}

/// Row `vi` of the main menu, showing item `item`: its label on the left,
/// its value at x = 180, and a line under it.
pub open spec fn main_row_model(s: Settings, item: int, vi: int) -> Seq<ShapeModel> {
    let y = HEADER_H + vi * MENU_ROW_H;
    (if s.language == 0 {
        seq![ShapeModel::HangulText { text: item_label_kr(item), x: 8, y: y + 5, font: FontSize::Medium }]
    } else {
        seq![text_model(item_label_en(item), 8, y + 19, FontSize::Medium)]
    }) + seq![
        text_model(item_value(s, item), 180, y + 19, FontSize::Medium),
        line(0, y + MENU_ROW_H - 1, 295, y + MENU_ROW_H - 1, 1),
    ]
}

/// The first `n` rows of the main menu from item `scroll`.
pub open spec fn main_rows(s: Settings, scroll: int, n: nat) -> Seq<ShapeModel>
    decreases n,
{
    if n == 0 {
        Seq::empty()
    } else {
        main_rows(s, scroll, (n - 1) as nat) + main_row_model(s, scroll + n - 1, n - 1)
    }
}

/// The main menu from item `scroll`: header, scroll buttons, up to four
/// rows, and the page number `1/2` or `2/2`.
pub open spec fn main_menu_model(s: Settings, scroll: u8) -> Seq<ShapeModel> {
    let page: nat = if scroll >= MENU_VISIBLE {
        2
    } else {
        1
    };
    header_model(s, "설정"@, "Settings"@) + scroll_buttons_model() + main_rows(
        s,
        scroll as int,
        rows_shown(scroll as int, MENU_ITEMS as int, MENU_VISIBLE as int),
    ) + seq![text_model(decimal(page) + "/2"@, 264, 118, FontSize::Small)]
}

/// Row `i` of the city list, showing city `idx`, marked `> ` when it is the
/// chosen one.
pub open spec fn city_row_model(s: Settings, idx: int, i: int) -> Seq<ShapeModel> {
    let y = HEADER_H + i * MENU_ROW_H;
    let marker = if idx == s.city_index {
        "> "@
    } else {
        "  "@
    };
    seq![
        text_model(marker + city_name(idx), 16, y + 19, FontSize::Medium),
        line(0, y + MENU_ROW_H - 1, 295, y + MENU_ROW_H - 1, 1),
    ]
}

/// The first `n` rows of the city list from city `scroll`.
pub open spec fn city_rows(s: Settings, scroll: int, n: nat) -> Seq<ShapeModel>
    decreases n,
{
    if n == 0 {
        Seq::empty()
    } else {
        city_rows(s, scroll, (n - 1) as nat) + city_row_model(s, scroll + n - 1, n - 1)
    }
}

/// The city list from city `scroll`: header, scroll buttons, up to four
/// rows, and the page number out of three.
pub open spec fn city_menu_model(s: Settings, scroll: u8) -> Seq<ShapeModel> {
    header_model(s, "도시"@, "City"@) + scroll_buttons_model() + city_rows(
        s,
        scroll as int,
        rows_shown(scroll as int, CITY_COUNT as int, CITY_VISIBLE as int),
    ) + seq![
        text_model(
            decimal((scroll / 4 + 1) as nat) + "/"@ + decimal(3),
            264,
            118,
            FontSize::Small,
        ),
    ]
}

/// The offset editor: header, the offset in large type, and the `-` and `+`
/// buttons.
pub open spec fn timezone_menu_model(s: Settings) -> Seq<ShapeModel> {
    header_model(s, "시간대"@, "Timezone"@) + seq![
        text_model(offset_label(s.utc_offset), 90, 60, FontSize::Large),
        ShapeModel::Rect { x: 10, y: 75, w: 120, h: 45, stroke: 2 },
        text_model("-"@, 60, 105, FontSize::Large),
        ShapeModel::Rect { x: 166, y: 75, w: 120, h: 45, stroke: 2 },
        text_model("+"@, 214, 105, FontSize::Large),
    ]
}

/// What the menu shows on its current screen.
pub open spec fn menu_model(s: Settings, screen: MenuScreen) -> Seq<ShapeModel> {
    match screen {
        MenuScreen::Main { scroll } => main_menu_model(s, scroll),
        MenuScreen::EditCity { scroll } => city_menu_model(s, scroll),
        MenuScreen::EditTimezone => timezone_menu_model(s),
    }
}

/// English label of an item, as text.
fn item_label_en_str(i: usize) -> (r: &'static str)
    ensures
        r@ == item_label_en(i as int),
{
    match i {
        0 => "Language",
        1 => "Timezone",
        2 => "City",
        3 => "Temp Unit",
        4 => "Time Fmt",
        5 => "Interval",
        _ => "Display",
    }
}

/// Korean label of an item, as text.
fn item_label_kr_str(i: usize) -> (r: &'static str)
    ensures
        r@ == item_label_kr(i as int),
{
    match i {
        0 => "언어",
        1 => "시간대",
        2 => "도시",
        3 => "온도",
        4 => "시간",
        5 => "주기",
        _ => "반전",
    }
}

impl Menu {
    fn render_header(&self, scene: &mut Scene, kr_title: &str, en_title: &str)
        ensures
            final(scene)@ == old(scene)@ + header_model(self.settings, kr_title@, en_title@),
            final(scene).inverted == old(scene).inverted,
    {
        scene.add(Shape::Rect { x: 0, y: 0, w: 20, h: 20, stroke: 1 });
        scene.text("<", 5, 15, FontSize::Medium);
        if self.settings.language == 0 {
            scene.add(
                Shape::HangulText {
                    text: String::from_str(kr_title),
                    x: 24,
                    y: 3,
                    font: FontSize::Medium,
                },
            );
        } else {
            scene.text(en_title, 24, 15, FontSize::Medium);
        }
        scene.line(0, HEADER_H - 1, 295, HEADER_H - 1, 1);
        assert(scene@ =~= old(scene)@ + header_model(self.settings, kr_title@, en_title@));
    }

    fn render_scroll_buttons(scene: &mut Scene)
        ensures
            final(scene)@ == old(scene)@ + scroll_buttons_model(),
            final(scene).inverted == old(scene).inverted,
    {
        scene.add(Shape::Rect { x: 230, y: 0, w: 32, h: 20, stroke: 1 });
        scene.text("^", 242, 15, FontSize::Medium);
        scene.add(Shape::Rect { x: 264, y: 0, w: 32, h: 20, stroke: 1 });
        scene.text("v", 276, 15, FontSize::Medium);
        assert(scene@ =~= old(scene)@ + scroll_buttons_model());
    }

    fn render_main(&self, scene: &mut Scene, scroll: u8)
        ensures
            final(scene)@ == old(scene)@ + main_menu_model(self.settings, scroll),
            final(scene).inverted == old(scene).inverted,
    {
        let ghost start = scene@;
        let ghost inv = scene.inverted;
        self.render_header(scene, "설정", "Settings");
        Self::render_scroll_buttons(scene);
        let ghost top = scene@;
        let mut vi: usize = 0;
        while vi < MENU_VISIBLE
            invariant_except_break
                vi <= MENU_VISIBLE,
                scroll as int + vi <= MENU_ITEMS || vi == 0,
                scene@ == top + main_rows(self.settings, scroll as int, vi as nat),
                scene.inverted == inv,
            ensures
                scene@ == top + main_rows(
                    self.settings,
                    scroll as int,
                    rows_shown(scroll as int, MENU_ITEMS as int, MENU_VISIBLE as int),
                ),
                scene.inverted == inv,
            decreases MENU_VISIBLE - vi,
        {
            let item_idx = scroll as usize + vi;
            if item_idx >= MENU_ITEMS {
                break;
            }
            let y: i32 = HEADER_H + (vi as i32) * MENU_ROW_H;
            let text_y = y + 19;
            let ghost before = scene@;
            if self.settings.language == 0 {
                scene.add(
                    Shape::HangulText {
                        text: String::from_str(item_label_kr_str(item_idx)),
                        x: 8,
                        y: y + 5,
                        font: FontSize::Medium,
                    },
                );
            } else {
                scene.text(item_label_en_str(item_idx), 8, text_y, FontSize::Medium);
            }
            let val_str = self.item_value_str(item_idx);
            scene.add(Shape::Text { text: val_str, x: 180, y: text_y, font: FontSize::Medium });
            let line_y = y + MENU_ROW_H - 1;
            scene.line(0, line_y, 295, line_y, 1);
            proof {
                let row = main_row_model(self.settings, item_idx as int, vi as int);
                assert(scene@ =~= before + row);
                assert(main_rows(self.settings, scroll as int, (vi + 1) as nat) == main_rows(
                    self.settings,
                    scroll as int,
                    vi as nat,
                ) + row);
                assert(scene@ =~= top + main_rows(self.settings, scroll as int, (vi + 1) as nat));
            }
            vi = vi + 1;
        }
        let page: u32 = if scroll as usize >= MENU_VISIBLE {
            2
        } else {
            1
        };
        let mut pos = String::new();
        push_decimal(&mut pos, page);
        pos.append("/2");
        scene.add(Shape::Text { text: pos, x: 264, y: 118, font: FontSize::Small });
        assert(scene@ =~= start + main_menu_model(self.settings, scroll));
    }

    fn render_city(&self, scene: &mut Scene, scroll: u8)
        ensures
            final(scene)@ == old(scene)@ + city_menu_model(self.settings, scroll),
            final(scene).inverted == old(scene).inverted,
    {
        let ghost start = scene@;
        let ghost inv = scene.inverted;
        self.render_header(scene, "도시", "City");
        Self::render_scroll_buttons(scene);
        let ghost top = scene@;
        let mut i: usize = 0;
        while i < CITY_VISIBLE
            invariant_except_break
                i <= CITY_VISIBLE,
                scroll as int + i <= CITY_COUNT || i == 0,
                scene@ == top + city_rows(self.settings, scroll as int, i as nat),
                scene.inverted == inv,
            ensures
                scene@ == top + city_rows(
                    self.settings,
                    scroll as int,
                    rows_shown(scroll as int, CITY_COUNT as int, CITY_VISIBLE as int),
                ),
                scene.inverted == inv,
            decreases CITY_VISIBLE - i,
        {
            let idx = scroll as usize + i;
            if idx >= CITY_COUNT {
                break;
            }
            let y: i32 = HEADER_H + (i as i32) * MENU_ROW_H;
            let text_y = y + 19;
            let selected = idx == self.settings.city_index as usize;
            let marker = if selected {
                "> "
            } else {
                "  "
            };
            let ghost before = scene@;
            let mut s = String::from_str(marker);
            s.append(city_entry(idx).name);
            scene.add(Shape::Text { text: s, x: 16, y: text_y, font: FontSize::Medium });
            let line_y = y + MENU_ROW_H - 1;
            scene.line(0, line_y, 295, line_y, 1);
            proof {
                let row = city_row_model(self.settings, idx as int, i as int);
                assert(scene@ =~= before + row);
                assert(city_rows(self.settings, scroll as int, (i + 1) as nat) == city_rows(
                    self.settings,
                    scroll as int,
                    i as nat,
                ) + row);
                assert(scene@ =~= top + city_rows(self.settings, scroll as int, (i + 1) as nat));
            }
            i = i + 1;
        }
        let total_pages: u32 = ((CITY_COUNT + CITY_VISIBLE - 1) / CITY_VISIBLE) as u32;
        let current_page: u32 = (scroll as u32) / (CITY_VISIBLE as u32) + 1;
        let mut pos = String::new();
        push_decimal(&mut pos, current_page);
        pos.append("/");
        push_decimal(&mut pos, total_pages);
        scene.add(Shape::Text { text: pos, x: 264, y: 118, font: FontSize::Small });
        assert(scene@ =~= start + city_menu_model(self.settings, scroll));
    }

    fn render_timezone(&self, scene: &mut Scene)
        ensures
            final(scene)@ == old(scene)@ + timezone_menu_model(self.settings),
            final(scene).inverted == old(scene).inverted,
    {
        self.render_header(scene, "시간대", "Timezone");
        let s = offset_text(self.settings.utc_offset);
        scene.add(Shape::Text { text: s, x: 90, y: 60, font: FontSize::Large });
        scene.add(Shape::Rect { x: 10, y: 75, w: 120, h: 45, stroke: 2 });
        scene.text("-", 60, 105, FontSize::Large);
        scene.add(Shape::Rect { x: 166, y: 75, w: 120, h: 45, stroke: 2 });
        scene.text("+", 214, 105, FontSize::Large);
        assert(scene@ =~= old(scene)@ + timezone_menu_model(self.settings));
    }

    /// The menu's current screen.
    pub fn render(&self) -> (r: Scene)
        ensures
            r@ == menu_model(self.settings, self.screen),
            !r.inverted,
    {
        let mut scene = Scene::new();
        match self.screen {
            MenuScreen::Main { scroll } => self.render_main(&mut scene, scroll),
            MenuScreen::EditCity { scroll } => self.render_city(&mut scene, scroll),
            MenuScreen::EditTimezone => self.render_timezone(&mut scene),
        }
        assert(scene@ =~= menu_model(self.settings, self.screen));
        scene
    }
}

// ───────────────────────── laws ─────────────────────────

/// A touch keeps the menu on a reachable screen, and keeps settings whose
/// values all lie in range in range.
pub proof fn lemma_step_preserves_wf(s: Settings, screen: MenuScreen, p: TouchPoint)
    requires
        screen_wf(screen),
    ensures
        screen_wf(menu_step(s, screen, p).1),
        s.in_range() ==> menu_step(s, screen, p).0.in_range(),
{
}

/// Only the back button of the main screen leaves the menu, and it leaves the
/// settings as they are.
pub proof fn lemma_exit_only_from_main_back(s: Settings, screen: MenuScreen, p: TouchPoint)
    requires
        menu_step(s, screen, p).2 == MenuAction::Exit,
    ensures
        screen is Main,
        in_back_button(p),
        menu_step(s, screen, p).0 == s,
{
}

/// The back button of a sub-screen returns to the first page of the main
/// screen without changing the settings.
pub proof fn lemma_back_returns_to_main(s: Settings, screen: MenuScreen, p: TouchPoint)
    requires
        !(screen is Main),
        in_back_button(p),
    ensures
        menu_step(s, screen, p) == (s, MenuScreen::Main { scroll: 0 }, MenuAction::Redraw),
{
}

/// Touching the same toggle row twice restores the setting it toggles, for
/// settings whose toggles hold 0 or 1.
pub proof fn lemma_toggle_twice_restores(s: Settings, scroll: u8, p: TouchPoint)
    requires
        s.in_range(),
        scroll == 0 || scroll == MENU_VISIBLE,
        !in_back_button(p),
        !in_scroll_up(p),
        !in_scroll_down(p),
        p.y >= HEADER_H,
        ({
            let item = scroll + row_of(p);
            item == 0 || item == 3 || item == 4 || item == 6
        }),
    ensures
        ({
            let (s1, sc1, a1) = main_step(s, scroll, p);
            let (s2, sc2, a2) = main_step(s1, scroll, p);
            s2 == s && sc1 == (MenuScreen::Main { scroll }) && a1 == MenuAction::Redraw
        }),
{
}

/// Stepping the UTC offset down and then up (or up and then down) away from
/// the ends of the range returns to the same offset.
pub proof fn lemma_offset_steps_cancel(s: Settings, minus: TouchPoint, plus: TouchPoint)
    requires
        -12 < s.utc_offset < 14,
        minus.x <= 148 && in_offset_band(minus) && !in_back_button(minus),
        plus.x > 148 && in_offset_band(plus),
    ensures
        timezone_step(timezone_step(s, minus).0, plus).0 == s,
        timezone_step(timezone_step(s, plus).0, minus).0 == s,
{
}

/// Selecting a city sets exactly the city index to that city and returns to
/// the main screen.
pub proof fn lemma_city_selection(s: Settings, scroll: u8, p: TouchPoint)
    requires
        screen_wf(MenuScreen::EditCity { scroll }),
        !in_back_button(p),
        !in_scroll_up(p),
        !in_scroll_down(p),
        p.y >= HEADER_H,
        row_of(p) < CITY_VISIBLE,
        scroll + row_of(p) < CITY_COUNT,
    ensures
        city_step(s, scroll, p).0.city_index == scroll + row_of(p),
        city_step(s, scroll, p).0 == (Settings { city_index: (scroll + row_of(p)) as u8, ..s }),
        city_step(s, scroll, p).1 == (MenuScreen::Main { scroll: 0 }),
{
}

/// Touching the interval row (the second row of the second page) advances
/// the interval to the next of the five, changing nothing else; five touches
/// restore it.
pub proof fn lemma_interval_cycles(s: Settings, p: TouchPoint)
    requires
        s.interval_index < INTERVAL_COUNT,
        p.y >= HEADER_H,
        row_of(p) == 1,
    ensures
        ({
            let (s1, sc1, a1) = main_step(s, MENU_VISIBLE as u8, p);
            &&& s1 == (Settings { interval_index: ((s.interval_index + 1) % 5) as u8, ..s })
            &&& sc1 == (MenuScreen::Main { scroll: MENU_VISIBLE as u8 })
            &&& a1 == MenuAction::Redraw
            &&& main_step(
                main_step(
                    main_step(main_step(s1, MENU_VISIBLE as u8, p).0, MENU_VISIBLE as u8, p).0,
                    MENU_VISIBLE as u8,
                    p,
                ).0,
                MENU_VISIBLE as u8,
                p,
            ).0 == s
        }),
{
}

/// Paging through the city list: down moves four cities on and stops at the
/// last page, up moves four back and stops at the first, and a row below the
/// last city changes nothing; the list stays on one of its three pages or
/// returns to the main screen.
pub proof fn lemma_city_paging(s: Settings, scroll: u8, p: TouchPoint)
    requires
        screen_wf(MenuScreen::EditCity { scroll }),
    ensures
        ({
            let (s1, sc1, a1) = city_step(s, scroll, p);
            &&& screen_wf(sc1)
            &&& sc1 is EditCity || sc1 == (MenuScreen::Main { scroll: 0 })
            &&& in_scroll_down(p) ==> sc1 == (MenuScreen::EditCity {
                scroll: if scroll == 8 {
                    8
                } else {
                    (scroll + 4) as u8
                },
            })
            &&& in_scroll_up(p) ==> sc1 == (MenuScreen::EditCity {
                scroll: if scroll == 0 {
                    0
                } else {
                    (scroll - 4) as u8
                },
            })
            &&& (p.y >= HEADER_H && scroll + row_of(p) >= CITY_COUNT) ==> (s1, sc1, a1) == (
                s,
                MenuScreen::EditCity { scroll },
                MenuAction::NoChange,
            )
        }),
{
}

/// The offset editor keeps the offset within -12..=14 and moves it by at
/// most one hour: down exactly when the left button is touched above -12,
/// up exactly when the right button is touched below 14; either button
/// redraws the editor. No other setting changes.
pub proof fn lemma_timezone_step(s: Settings, p: TouchPoint)
    requires
        -12 <= s.utc_offset <= 14,
    ensures
        ({
            let (s1, sc1, a1) = timezone_step(s, p);
            &&& -12 <= s1.utc_offset <= 14
            &&& -1 <= s1.utc_offset - s.utc_offset <= 1
            &&& s1 == (Settings { utc_offset: s1.utc_offset, ..s })
            &&& (s1.utc_offset == s.utc_offset - 1) == (p.x <= 148 && in_offset_band(p)
                && s.utc_offset > -12)
            &&& (s1.utc_offset == s.utc_offset + 1) == (p.x > 148 && in_offset_band(p)
                && s.utc_offset < 14)
            &&& in_offset_band(p) ==> a1 == MenuAction::Redraw && sc1 == MenuScreen::EditTimezone
        }),
{
}

/// Touching a row of the main screen changes exactly the setting of the item
/// in that row, or opens its editor: item 0 switches the language, 1 opens
/// the offset editor, 2 opens the first page of the city list, 3 switches
/// the temperature unit, 4 the clock format, 5 steps the interval, 6 the
/// display inversion. Every such touch redraws.
pub proof fn lemma_main_item_effects(s: Settings, scroll: u8, p: TouchPoint)
    requires
        !in_back_button(p),
        !in_scroll_up(p),
        !in_scroll_down(p),
        p.y >= HEADER_H,
        0 <= scroll + row_of(p) < MENU_ITEMS,
    ensures
        ({
            let item = scroll + row_of(p);
            let (s1, sc1, a1) = main_step(s, scroll, p);
            &&& a1 == MenuAction::Redraw
            &&& item == 0 ==> s1 == (Settings {
                language: if s.language == 0 {
                    1u8
                } else {
                    0u8
                },
                ..s
            }) && sc1 == (MenuScreen::Main { scroll })
            &&& item == 1 ==> s1 == s && sc1 == MenuScreen::EditTimezone
            &&& item == 2 ==> s1 == s && sc1 == (MenuScreen::EditCity { scroll: 0 })
            &&& item == 3 ==> s1 == (Settings {
                temp_unit: if s.temp_unit == 0 {
                    1u8
                } else {
                    0u8
                },
                ..s
            }) && sc1 == (MenuScreen::Main { scroll })
            &&& item == 4 ==> s1 == (Settings {
                time_format: if s.time_format == 0 {
                    1u8
                } else {
                    0u8
                },
                ..s
            }) && sc1 == (MenuScreen::Main { scroll })
            &&& item == 5 ==> s1 == (Settings {
                interval_index: ((s.interval_index + 1) % 256 % 5) as u8,
                ..s
            }) && sc1 == (MenuScreen::Main { scroll })
            &&& item == 6 ==> s1 == (Settings {
                display_mode: if s.display_mode == 0 {
                    1u8
                } else {
                    0u8
                },
                ..s
            }) && sc1 == (MenuScreen::Main { scroll })
        }),
{
}

/// The label shape of row `r` of a main menu page is among `shapes`: the
/// Korean text `kr` at the row's top when the language is Korean, else the
/// English text `en` on the row's baseline.
pub open spec fn row_label_drawn(
    shapes: Seq<ShapeModel>,
    s: Settings,
    r: int,
    kr: Seq<char>,
    en: Seq<char>,
) -> bool {
    exists|i: int|
        0 <= i < shapes.len() && #[trigger] shapes[i] == (if s.language == 0 {
            ShapeModel::HangulText {
                text: kr,
                x: 8,
                y: HEADER_H + r * MENU_ROW_H + 5,
                font: FontSize::Medium,
            }
        } else {
            ShapeModel::Text { text: en, x: 8, y: HEADER_H + r * MENU_ROW_H + 19, font: FontSize::Medium }
        })
}

// Each row of the main menu is three shapes, the label first.
proof fn lemma_main_rows_label(s: Settings, scroll: int, n: nat, j: int)
    requires
        0 <= j < n,
    ensures
        main_rows(s, scroll, n).len() == 3 * n,
        main_rows(s, scroll, n)[3 * j] == main_row_model(s, scroll + j, j)[0],
    decreases n,
{
    let prev = main_rows(s, scroll, (n - 1) as nat);
    let row = main_row_model(s, scroll + n - 1, n - 1);
    assert(row.len() == 3);
    if n > 1 {
        lemma_main_rows_label(s, scroll, (n - 1) as nat, if j < n - 1 {
            j
        } else {
            0
        });
    } else {
        assert(prev.len() == 0);
    }
    assert(main_rows(s, scroll, n) == prev + row);
    if j < n - 1 {
        assert((prev + row)[3 * j] == prev[3 * j]);
    } else {
        assert((prev + row)[3 * j] == row[0]);
    }
}

/// A touched row of the main screen is labelled with what the touch does:
/// the row that opens the offset editor reads Timezone (시간대), the one that
/// opens the city list City (도시), and the row whose touch changes the
/// language, temperature unit, clock format, interval or inversion reads
/// Language (언어), Temp Unit (온도), Time Fmt (시간), Interval (주기) or
/// Display (반전).
pub proof fn lemma_touched_row_label(s: Settings, scroll: u8, p: TouchPoint)
    requires
        screen_wf(MenuScreen::Main { scroll }),
        !in_back_button(p),
        !in_scroll_up(p),
        !in_scroll_down(p),
        p.y >= HEADER_H,
        row_of(p) < MENU_VISIBLE,
        scroll + row_of(p) < MENU_ITEMS,
    ensures
        ({
            let r = row_of(p);
            let shapes = main_menu_model(s, scroll);
            let (s1, sc1, a1) = main_step(s, scroll, p);
            &&& sc1 == MenuScreen::EditTimezone ==> row_label_drawn(shapes, s, r, "시간대"@, "Timezone"@)
            &&& sc1 == (MenuScreen::EditCity { scroll: 0 }) ==> row_label_drawn(
                shapes,
                s,
                r,
                "도시"@,
                "City"@,
            )
            &&& s1.language != s.language ==> row_label_drawn(shapes, s, r, "언어"@, "Language"@)
            &&& s1.temp_unit != s.temp_unit ==> row_label_drawn(shapes, s, r, "온도"@, "Temp Unit"@)
            &&& s1.time_format != s.time_format ==> row_label_drawn(shapes, s, r, "시간"@, "Time Fmt"@)
            &&& s1.interval_index != s.interval_index ==> row_label_drawn(
                shapes,
                s,
                r,
                "주기"@,
                "Interval"@,
            )
            &&& s1.display_mode != s.display_mode ==> row_label_drawn(shapes, s, r, "반전"@, "Display"@)
        }),
{
    let r = row_of(p);
    let item = scroll + r;
    let n = rows_shown(scroll as int, MENU_ITEMS as int, MENU_VISIBLE as int);
    assert(r < n);
    lemma_main_rows_label(s, scroll as int, n, r);
    let head = header_model(s, "설정"@, "Settings"@) + scroll_buttons_model();
    let rows = main_rows(s, scroll as int, n);
    let shapes = main_menu_model(s, scroll);
    assert(head.len() == 8);
    assert(shapes[8 + 3 * r] == rows[3 * r]);
    let label = main_row_model(s, item, r)[0];
    assert(shapes[8 + 3 * r] == label);
    if s.language == 0 {
        assert(label == ShapeModel::HangulText {
            text: item_label_kr(item),
            x: 8,
            y: HEADER_H + r * MENU_ROW_H + 5,
            font: FontSize::Medium,
        });
    } else {
        assert(label == ShapeModel::Text {
            text: item_label_en(item),
            x: 8,
            y: HEADER_H + r * MENU_ROW_H + 19,
            font: FontSize::Medium,
        });
    }
}

} // verus!
