//! The firmware's main loop, as a state machine: the caller waits for a
//! minute tick or a touch, hands the event over, and performs the commands
//! that come back, in order.
//!
//! On the weather screen every tick reads the time again and redraws it with
//! a partial refresh; every `interval / 60` ticks the weather is fetched too
//! and the screen fully refreshed. A touch on the lower left opens the menu,
//! which takes touches until it is left, when the settings are saved and the
//! weather screen comes back with fresh data.
use vstd::prelude::*;

use crate::menu::{lemma_step_preserves_wf, menu_step, screen_wf, Menu, MenuAction, MenuScreen};
use crate::settings::{interval_value, Settings};
use crate::touch::TouchPoint;

verus! {

/// Attempts to join the network before giving up.
pub const WIFI_MAX_RETRIES: u8 = 10;

/// Seconds to wait after failed join attempt `attempt` (counted from 0):
/// 5, 10, 30, then 60.
pub open spec fn wifi_delay(attempt: u8) -> u64 {
    if attempt == 0 {
        5
    } else if attempt == 1 {
        10
    } else if attempt == 2 {
        30
    } else {
        60
    }
}

/// The pause after a failed join attempt.
pub fn wifi_retry_delay_secs(attempt: u8) -> (r: u64)
    ensures
        r == wifi_delay(attempt),
{
    let delays: [u64; 5] = [5, 10, 30, 60, 60];
    let k: usize = if attempt < 4 {
        attempt as usize
    } else {
        4
    };
    delays[k]
}

/// What follows a join attempt.
#[derive(Clone, Copy, Debug, PartialEq, Eq, Structural)]
pub enum WifiStep {
    /// The network is joined.
    Connected,
    /// Wait this long, then try again.
    Retry { wait_secs: u64 },
    /// Wait this long, then give up.
    GiveUp { wait_secs: u64 },
}

/// The step after join attempt `attempt` (counted from 0) succeeded or
/// failed: a failure waits its pause, then tries again unless it was the
/// last attempt.
pub open spec fn wifi_next(attempt: u8, joined: bool) -> WifiStep {
    if joined {
        WifiStep::Connected
    } else if attempt + 1 < WIFI_MAX_RETRIES {
        WifiStep::Retry { wait_secs: wifi_delay(attempt) }
    } else {
        WifiStep::GiveUp { wait_secs: wifi_delay(attempt) }
    }
}

/// Decides what follows a join attempt.
pub fn wifi_step(attempt: u8, joined: bool) -> (r: WifiStep)
    requires
        attempt < WIFI_MAX_RETRIES,
    ensures
        r == wifi_next(attempt, joined),
{
    if joined {
        WifiStep::Connected
    } else if attempt + 1 < WIFI_MAX_RETRIES {
        WifiStep::Retry { wait_secs: wifi_retry_delay_secs(attempt) }
    } else {
        WifiStep::GiveUp { wait_secs: wifi_retry_delay_secs(attempt) }
    }
}

/// The touch lies on the lower left of the weather screen (the city name),
/// which opens the menu.
pub open spec fn gear_touch(x: u16, y: u16) -> bool {
    x <= 148 && y >= 100
}

/// A touch opens the menu.
pub fn is_gear_touch(x: u16, y: u16) -> (r: bool)
    ensures
        r == gear_touch(x, y),
{
    x <= 148 && y >= 100
}

/// Minute ticks between weather fetches: the interval in minutes, at least 1.
pub open spec fn weather_ticks(s: Settings) -> int {
    let m = interval_value(s.interval_slot()) / 60;
    if m >= 1 {
        m as int
    } else {
        1
    }
}

/// Minute ticks between weather fetches.
pub fn weather_ticks_of(s: &Settings) -> (r: u32)
    ensures
        r == weather_ticks(*s),
        1 <= r <= 720,
{
    let m = s.interval_secs() / 60;
    let r = if m >= 1 {
        m
    } else {
        1
    };
    r as u32
}

/// What the caller does, in the order given.
#[derive(Clone, Copy, Debug, PartialEq, Eq, Structural)]
pub enum Command {
    /// Read the time again (keeping nothing on failure).
    FetchTime,
    /// Fetch the current weather again (keeping nothing on failure).
    FetchWeather,
    /// Store the settings in flash.
    SaveSettings,
    /// Draw the weather screen into the frame buffer.
    DrawMain,
    /// Draw the menu into the frame buffer.
    DrawMenu,
    /// Initialise the display for full refresh.
    InitDisplay,
    /// Show the frame buffer with a full refresh.
    FullRefresh,
    /// Prepare the display for partial refresh.
    PreparePartial,
    /// Show the frame buffer with a partial refresh.
    PartialRefresh,
}

/// What the main loop waits for.
#[derive(Clone, Copy, Debug)]
pub enum Event {
    /// Sixty seconds passed.
    Tick,
    /// The screen was touched.
    Touch(TouchPoint),
}

/// The state of the main loop.
pub struct Controller {
    /// The settings in use (and saved).
    pub settings: Settings,
    /// The menu, while it is open.
    pub menu: Menu,
    pub in_menu: bool,
    /// Minute ticks since the last weather fetch.
    pub minute_counter: u32,
}

/// The commands after a tick that fetches the weather.
pub open spec fn full_tick_commands() -> Seq<Command> {
    seq![
        Command::FetchTime,
        Command::FetchWeather,
        Command::DrawMain,
        Command::InitDisplay,
        Command::FullRefresh,
        Command::PreparePartial,
    ]
}

/// The commands after a tick that only updates the time.
pub open spec fn partial_tick_commands() -> Seq<Command> {
    seq![Command::FetchTime, Command::DrawMain, Command::PartialRefresh]
}

/// The commands after the menu is left.
pub open spec fn exit_commands() -> Seq<Command> {
    seq![
        Command::SaveSettings,
        Command::FetchTime,
        Command::FetchWeather,
        Command::DrawMain,
        Command::InitDisplay,
        Command::FullRefresh,
        Command::PreparePartial,
    ]
}

/// The commands that show the weather screen the first time.
pub open spec fn start_commands() -> Seq<Command> {
    seq![
        Command::FetchTime,
        Command::FetchWeather,
        Command::DrawMain,
        Command::FullRefresh,
        Command::PreparePartial,
    ]
}

/// The next state and the commands for an event. A tick while the menu is
/// open (the loop does not wait for one then) does nothing.
pub open spec fn control_step(c: Controller, ev: Event) -> (Controller, Seq<Command>) {
    if !c.in_menu {
        match ev {
            Event::Tick => if c.minute_counter + 1 >= weather_ticks(c.settings) {
                (Controller { minute_counter: 0, ..c }, full_tick_commands())
            } else {
                (
                    Controller { minute_counter: (c.minute_counter + 1) as u32, ..c },
                    partial_tick_commands(),
                )
            },
            Event::Touch(p) => if gear_touch(p.x, p.y) {
                (
                    Controller {
                        menu: Menu { settings: c.settings, screen: MenuScreen::Main { scroll: 0 } },
                        in_menu: true,
                        ..c
                    },
                    seq![Command::DrawMenu, Command::InitDisplay, Command::FullRefresh],
                )
            } else {
                (c, Seq::empty())
            },
        }
    } else {
        match ev {
            Event::Tick => (c, Seq::empty()),
            Event::Touch(p) => {
                let (s, screen, action) = menu_step(c.menu.settings, c.menu.screen, p);
                let menu = Menu { settings: s, screen };
                match action {
                    MenuAction::NoChange => (Controller { menu, ..c }, Seq::empty()),
                    MenuAction::Redraw => (
                        Controller { menu, ..c },
                        seq![Command::DrawMenu, Command::FullRefresh],
                    ),
                    MenuAction::Exit => (
                        Controller { settings: s, menu, in_menu: false, minute_counter: 0 },
                        exit_commands(),
                    ),
                }
            },
        }
    }
}

impl Controller {
    /// The tick counter stays below the weather period.
    pub open spec fn wf(&self) -> bool {
        self.minute_counter < weather_ticks(self.settings)
    }

    /// The loop at start-up, on the weather screen.
    pub fn new(settings: Settings) -> (r: Self)
        ensures
            r.settings == settings,
            r.menu == (Menu { settings, screen: MenuScreen::Main { scroll: 0 } }),
            !r.in_menu,
            r.minute_counter == 0,
            r.wf(),
    {
        Controller { settings, menu: Menu::new(settings), in_menu: false, minute_counter: 0 }
    }

    /// The commands that show the weather screen the first time.
    pub fn start(&self) -> (r: Vec<Command>)
        ensures
            r@ == start_commands(),
    {
        let mut v: Vec<Command> = Vec::new();
        v.push(Command::FetchTime);
        v.push(Command::FetchWeather);
        v.push(Command::DrawMain);
        v.push(Command::FullRefresh);
        v.push(Command::PreparePartial);
        assert(v@ =~= start_commands());
        v
    }

    /// Takes an event and gives the commands to perform.
    pub fn on_event(&mut self, ev: Event) -> (r: Vec<Command>)
        requires
            old(self).wf(),
        ensures
            (*final(self), r@) == control_step(*old(self), ev),
            final(self).wf(),
    {
        let mut v: Vec<Command> = Vec::new();
        if !self.in_menu {
            match ev {
                Event::Tick => {
                    let ticks = weather_ticks_of(&self.settings);
                    if self.minute_counter + 1 >= ticks {
                        self.minute_counter = 0;
                        v.push(Command::FetchTime);
                        v.push(Command::FetchWeather);
                        v.push(Command::DrawMain);
                        v.push(Command::InitDisplay);
                        v.push(Command::FullRefresh);
                        v.push(Command::PreparePartial);
                        assert(v@ =~= full_tick_commands());
                    } else {
                        self.minute_counter = self.minute_counter + 1;
                        v.push(Command::FetchTime);
                        v.push(Command::DrawMain);
                        v.push(Command::PartialRefresh);
                        assert(v@ =~= partial_tick_commands());
                    }
                },
                Event::Touch(p) => {
                    if is_gear_touch(p.x, p.y) {
                        self.in_menu = true;
                        self.menu = Menu::new(self.settings);
                        v.push(Command::DrawMenu);
                        v.push(Command::InitDisplay);
                        v.push(Command::FullRefresh);
                        assert(v@ =~= seq![
                            Command::DrawMenu,
                            Command::InitDisplay,
                            Command::FullRefresh,
                        ]);
                    }
                },
            }
        } else {
            match ev {
                Event::Tick => {},
                Event::Touch(p) => {
                    match self.menu.handle_touch(p) {
                        MenuAction::NoChange => {},
                        MenuAction::Redraw => {
                            v.push(Command::DrawMenu);
                            v.push(Command::FullRefresh);
                            assert(v@ =~= seq![Command::DrawMenu, Command::FullRefresh]);
                        },
                        MenuAction::Exit => {
                            self.settings = self.menu.settings;
                            self.in_menu = false;
                            self.minute_counter = 0;
                            v.push(Command::SaveSettings);
                            v.push(Command::FetchTime);
                            v.push(Command::FetchWeather);
                            v.push(Command::DrawMain);
                            v.push(Command::InitDisplay);
                            v.push(Command::FullRefresh);
                            v.push(Command::PreparePartial);
                            assert(v@ =~= exit_commands());
                        },
                    }
                },
            }
        }
        v
    }
}

// ───────────────────────── laws ─────────────────────────

/// The state after `k` ticks with no touch.
pub open spec fn after_ticks(c: Controller, k: nat) -> Controller
    decreases k,
{
    if k == 0 {
        c
    } else {
        control_step(after_ticks(c, (k - 1) as nat), Event::Tick).0
    }
}

/// On the weather screen, starting right after a weather fetch, the next
/// `weather_ticks - 1` ticks only update the time (partial refresh), and the
/// tick after them fetches the weather with a full refresh; the settings and
/// the screen stay as they are.
pub proof fn lemma_weather_period(c: Controller, k: nat)
    requires
        !c.in_menu,
        c.minute_counter == 0,
        k < weather_ticks(c.settings),
    ensures
        after_ticks(c, k) == (Controller { minute_counter: k as u32, ..c }),
        control_step(after_ticks(c, k), Event::Tick).1 == (if k + 1 == weather_ticks(c.settings) {
            full_tick_commands()
        } else {
            partial_tick_commands()
        }),
    decreases k,
{
    let t = interval_value(c.settings.interval_slot());
    assert(t <= 43200);
    if k > 0 {
        lemma_weather_period(c, (k - 1) as nat);
    }
}

/// While the menu is open nothing is fetched: only leaving it fetches the
/// time and the weather, and saves the settings the menu ends with.
pub proof fn lemma_menu_fetches_only_on_exit(c: Controller, ev: Event)
    requires
        c.in_menu,
    ensures
        ({
            let (n, cmds) = control_step(c, ev);
            &&& n.in_menu ==> !cmds.contains(Command::FetchTime) && !cmds.contains(
                Command::FetchWeather,
            ) && !cmds.contains(Command::SaveSettings)
            &&& !n.in_menu ==> cmds == exit_commands() && n.settings == n.menu.settings
                && n.minute_counter == 0
        }),
{
    let (n, cmds) = control_step(c, ev);
    if n.in_menu {
        assert(!seq![Command::DrawMenu, Command::FullRefresh].contains(Command::FetchTime));
        assert(!seq![Command::DrawMenu, Command::FullRefresh].contains(Command::FetchWeather));
        assert(!seq![Command::DrawMenu, Command::FullRefresh].contains(Command::SaveSettings));
        assert(seq![Command::DrawMenu, Command::FullRefresh][0] == Command::DrawMenu);
        assert(seq![Command::DrawMenu, Command::FullRefresh][1] == Command::FullRefresh);
    }
}

/// Settings whose values lie in range stay in range through the main loop,
/// and the menu stays on a screen it can reach.
pub proof fn lemma_settings_stay_in_range(c: Controller, ev: Event)
    requires
        c.settings.in_range(),
        c.menu.settings.in_range(),
        screen_wf(c.menu.screen),
    ensures
        ({
            let n = control_step(c, ev).0;
            n.settings.in_range() && n.menu.settings.in_range() && screen_wf(n.menu.screen)
        }),
{
    if let Event::Touch(p) = ev {
        lemma_step_preserves_wf(c.menu.settings, c.menu.screen, p);
    }
}

/// A network that refuses every join is tried exactly ten times: the first
/// nine failures wait 5, 10, 30, 60, ... seconds and try again, the tenth
/// waits 60 seconds and gives up; a join that succeeds ends at once.
pub proof fn lemma_wifi_gives_up_after_ten(attempt: u8)
    requires
        attempt < WIFI_MAX_RETRIES,
    ensures
        wifi_next(attempt, true) == WifiStep::Connected,
        attempt < 9 ==> wifi_next(attempt, false) is Retry,
        attempt == 9 ==> wifi_next(attempt, false) == (WifiStep::GiveUp { wait_secs: 60 }),
{
}

/// A touch on the city name of the weather screen opens a fresh menu: it
/// edits the settings in use and shows the first page of the main list,
/// whichever menu page was shown when the menu was last left. Nothing else
/// of the state changes, and the menu is drawn with a full refresh.
pub proof fn lemma_gear_opens_fresh_menu(c: Controller, p: TouchPoint)
    requires
        !c.in_menu,
        p.x <= 148,
        p.y >= 100,
    ensures
        ({
            let (n, cmds) = control_step(c, Event::Touch(p));
            &&& n.in_menu
            &&& n.menu.settings == c.settings
            &&& n.menu.screen == (MenuScreen::Main { scroll: 0 })
            &&& n.settings == c.settings
            &&& n.minute_counter == c.minute_counter
            &&& cmds == seq![Command::DrawMenu, Command::InitDisplay, Command::FullRefresh]
        }),
{
}

} // verus!
