use vstd::prelude::*;

use crate::render::{
    chrono_format_of, decimal, decimal_of, drop_trailing_seconds, format_local_time,
    format_seconds, humantime_text, rendered, safe_strfmt, vars_view, without_seconds,
};
use crate::time::LocalTime;
use crate::utils::{
    ceilings_ascending, ladder_view, level_choice, level_template, rungs_at, sort_levels,
};

verus! {

/// What a battery reports about its charger.
#[derive(Clone, Copy, Debug, PartialEq, Eq, Structural)]
pub enum ChargingState {
    Charging,
    Discharging,
    Full,
    NotCharging,
}

/// A recoverable failure of one operation on one component.
#[derive(Clone, Debug)]
pub enum Fault {
    /// The raw read behind a component failed, with what it said.
    Acquisition(String),
    /// No raw read was made for a component that was due for one.
    NotAcquired,
    /// A raw read of another kind than the component takes.
    MismatchedReading,
    /// The state lacks a value that the template selection needs.
    MissingState,
}

/// The values that one raw read of a component's source gave.
#[derive(Clone, Debug)]
pub enum Reading {
    /// A mixer control: its volume as a percentage, and whether it is muted.
    Volume { percent: i64, is_muted: bool },
    /// A backlight: its brightness as a percentage of the maximum.
    Brightness { percent: i32 },
    /// A battery: its charge as a percentage, the time left in seconds, and its charger.
    Power { percent: i32, time_remaining: u64, charging_state: ChargingState },
    /// The wall clock.
    Clock { now: LocalTime },
    /// What a shell command printed on success.
    Shell { stdout: String },
}

/// The raw read that a component needs, as the caller is to perform it.
#[derive(Clone, Debug)]
pub enum Acquisition {
    /// Read the default mixer's master control.
    Mixer,
    /// Read `brightness` and `max_brightness` under a directory.
    Backlight { path: String },
    /// Query the power supply under a directory.
    Battery { path: String },
    /// Read the wall clock.
    Clock,
    /// Run a shell command.
    Shell { command: String },
    /// Nothing is ever read.
    Nothing,
}

// Volume //////////////////////////////////////////////////////////////////////

#[derive(Clone, Debug)]
pub struct AlsaState {
    pub percent: Option<i64>,
    pub is_muted: Option<bool>,
    pub last_updated: Option<u64>,
    pub cache: Option<String>,
}

#[derive(Clone, Debug)]
pub struct AlsaSettings {
    pub refresh_interval: u64,
    pub signal: u32,
    pub format: AlsaFormatSettings,
}

#[derive(Clone, Debug)]
pub struct AlsaFormatSettings {
    pub default: String,
    pub muted: String,
    pub levels: Option<Vec<(i32, String)>>,
}

#[derive(Clone, Debug)]
pub struct Alsa {
    pub state: AlsaState,
    pub settings: AlsaSettings,
}

// Backlight ///////////////////////////////////////////////////////////////////

#[derive(Clone, Debug)]
pub struct BacklightState {
    pub percent: Option<i32>,
    pub last_updated: Option<u64>,
    pub cache: Option<String>,
}

#[derive(Clone, Debug)]
pub struct BacklightSettings {
    pub refresh_interval: u64,
    pub signal: u32,
    pub path: String,
    pub format: BacklightFormatSettings,
}

#[derive(Clone, Debug)]
pub struct BacklightFormatSettings {
    pub default: String,
    pub levels: Option<Vec<(i32, String)>>,
}

#[derive(Clone, Debug)]
pub struct Backlight {
    pub state: BacklightState,
    pub settings: BacklightSettings,
}

// Battery /////////////////////////////////////////////////////////////////////

#[derive(Clone, Debug)]
pub struct BatteryState {
    pub percent: Option<i32>,
    /// Time left, in seconds.
    pub time: Option<u64>,
    pub charging_state: Option<ChargingState>,
    pub last_updated: Option<u64>,
    pub cache: Option<String>,
}

#[derive(Clone, Debug)]
pub struct BatterySettings {
    pub refresh_interval: u64,
    pub signal: u32,
    pub path: String,
    pub format: BatteryFormatSettings,
}

#[derive(Clone, Debug)]
pub struct BatteryFormatSettings {
    pub default: String,
    pub full: String,
    pub not_charging: String,
    pub charging: String,
    pub discharging: Option<Vec<(i32, String)>>,
}

#[derive(Clone, Debug)]
pub struct Battery {
    pub state: BatteryState,
    pub settings: BatterySettings,
}

// Clock ///////////////////////////////////////////////////////////////////////

#[derive(Clone, Debug)]
pub struct TimeState {
    pub now: Option<LocalTime>,
    pub last_updated: Option<u64>,
    pub cache: Option<String>,
}

#[derive(Clone, Debug)]
pub struct TimeSettings {
    pub refresh_interval: u64,
    pub signal: u32,
    /// The strftime-style pattern for the `{t}` variable.
    pub time: String,
    pub format: TimeFormatSettings,
}

#[derive(Clone, Debug)]
pub struct TimeFormatSettings {
    pub default: String,
}

#[derive(Clone, Debug)]
pub struct Time {
    pub state: TimeState,
    pub settings: TimeSettings,
}

// Shell command ///////////////////////////////////////////////////////////////

#[derive(Clone, Debug)]
pub struct CommandState {
    pub last_updated: Option<u64>,
    pub cache: Option<String>,
}

#[derive(Clone, Debug)]
pub struct CommandSettings {
    pub refresh_interval: u64,
    pub signal: u32,
    pub shell_command: String,
}

#[derive(Clone, Debug)]
pub struct Command {
    pub state: CommandState,
    pub settings: CommandSettings,
}

// Static text /////////////////////////////////////////////////////////////////

#[derive(Clone, Debug)]
pub struct Text(pub String);

/// One source of the status line.
#[derive(Clone, Debug)]
pub enum Component {
    Alsa(Alsa),
    Backlight(Backlight),
    Battery(Battery),
    Text(Text),
    Time(Time),
    Command(Command),
}

/// What a component shows when it has no template to render.
pub open spec fn default_output_text() -> Seq<char> {
    "N/A: (default_output)"@
}

/// What a component shows after its raw read failed.
pub open spec fn fault_text() -> Seq<char> {
    "N/A: (update failed)"@
}

/// What stands in the line for a component that has never been rendered.
pub open spec fn no_cache_text() -> Seq<char> {
    "(N/A: no cache)"@
}

/// What a variable shows where its value is unknown.
pub open spec fn unknown_text() -> Seq<char> {
    "N/A"@
}

pub open spec fn percent_text(p: Option<int>) -> Seq<char> {
    match p {
        Some(v) => decimal_of(v),
        None => unknown_text(),
    }
}

pub open spec fn opt_i32(p: Option<i32>) -> Option<int> {
    match p {
        Some(v) => Some(v as int),
        None => None,
    }
}

pub open spec fn opt_i64(p: Option<i64>) -> Option<int> {
    match p {
        Some(v) => Some(v as int),
        None => None,
    }
}

pub open spec fn opt_view(s: Option<String>) -> Option<Seq<char>> {
    match s {
        Some(v) => Some(v@),
        None => None,
    }
}

impl Component {
    /// The rendered cache, as plain text.
    pub open spec fn cache_view(self) -> Option<Seq<char>> {
        match self {
            Component::Alsa(a) => opt_view(a.state.cache),
            Component::Backlight(b) => opt_view(b.state.cache),
            Component::Battery(b) => opt_view(b.state.cache),
            Component::Text(t) => Some(t.0@),
            Component::Time(t) => opt_view(t.state.cache),
            Component::Command(c) => opt_view(c.state.cache),
        }
    }

    /// The component with its cache cleared: everything that an update may change but
    /// the cache.
    pub open spec fn sans_cache(self) -> Component {
        match self {
            Component::Alsa(a) => Component::Alsa(
                Alsa { state: AlsaState { cache: None, ..a.state }, ..a },
            ),
            Component::Backlight(b) => Component::Backlight(
                Backlight { state: BacklightState { cache: None, ..b.state }, ..b },
            ),
            Component::Battery(b) => Component::Battery(
                Battery { state: BatteryState { cache: None, ..b.state }, ..b },
            ),
            Component::Text(t) => Component::Text(t),
            Component::Time(t) => Component::Time(
                Time { state: TimeState { cache: None, ..t.state }, ..t },
            ),
            Component::Command(c) => Component::Command(
                Command { state: CommandState { cache: None, ..c.state }, ..c },
            ),
        }
    }

    /// When the component was last refreshed, in milliseconds of the caller's clock.
    pub open spec fn last_updated_view(self) -> Option<u64> {
        match self {
            Component::Alsa(a) => a.state.last_updated,
            Component::Backlight(b) => b.state.last_updated,
            Component::Battery(b) => b.state.last_updated,
            Component::Text(_) => None,
            Component::Time(t) => t.state.last_updated,
            Component::Command(c) => c.state.last_updated,
        }
    }

    /// The refresh interval in milliseconds; static text has none and is never refreshed.
    pub open spec fn interval_view(self) -> Option<u64> {
        match self {
            Component::Alsa(a) => Some(a.settings.refresh_interval),
            Component::Backlight(b) => Some(b.settings.refresh_interval),
            Component::Battery(b) => Some(b.settings.refresh_interval),
            Component::Text(_) => None,
            Component::Time(t) => Some(t.settings.refresh_interval),
            Component::Command(c) => Some(c.settings.refresh_interval),
        }
    }

    /// The signal number bound to the component, if any.
    pub open spec fn signal_view(self) -> Option<u32> {
        match self {
            Component::Alsa(a) => Some(a.settings.signal),
            Component::Backlight(b) => Some(b.settings.signal),
            Component::Battery(b) => Some(b.settings.signal),
            Component::Text(_) => None,
            Component::Time(t) => Some(t.settings.signal),
            Component::Command(c) => Some(c.settings.signal),
        }
    }

    /// Whether a reading is of the kind that this component takes.
    pub open spec fn fits(self, r: Reading) -> bool {
        match (self, r) {
            (Component::Alsa(_), Reading::Volume { .. }) => true,
            (Component::Backlight(_), Reading::Brightness { .. }) => true,
            (Component::Battery(_), Reading::Power { .. }) => true,
            (Component::Time(_), Reading::Clock { .. }) => true,
            (Component::Command(_), Reading::Shell { .. }) => true,
            _ => false,
        }
    }

    /// The component once a fitting reading taken at `now` is stored in its state.
    pub open spec fn absorb(self, r: Reading, now: u64) -> Component {
        match (self, r) {
            (Component::Alsa(a), Reading::Volume { percent, is_muted }) => Component::Alsa(
                Alsa {
                    state: AlsaState {
                        percent: Some(percent),
                        is_muted: Some(is_muted),
                        last_updated: Some(now),
                        ..a.state
                    },
                    ..a
                },
            ),
            (Component::Backlight(b), Reading::Brightness { percent }) => Component::Backlight(
                Backlight {
                    state: BacklightState {
                        percent: Some(percent),
                        last_updated: Some(now),
                        ..b.state
                    },
                    ..b
                },
            ),
            (
                Component::Battery(b),
                Reading::Power { percent, time_remaining, charging_state },
            ) => Component::Battery(
                Battery {
                    state: BatteryState {
                        percent: Some(percent),
                        time: Some(time_remaining),
                        charging_state: Some(charging_state),
                        last_updated: Some(now),
                        ..b.state
                    },
                    ..b
                },
            ),
            (Component::Time(t), Reading::Clock { now: clock }) => Component::Time(
                Time {
                    state: TimeState { now: Some(clock), last_updated: Some(now), ..t.state },
                    ..t
                },
            ),
            (Component::Command(c), Reading::Shell { .. }) => Component::Command(
                Command { state: CommandState { last_updated: Some(now), ..c.state }, ..c },
            ),
            _ => self,
        }
    }

    /// The template that the current state selects: `None` where the component has no
    /// template for it and shows its default output.
    pub open spec fn template_view(self) -> Result<Option<Seq<char>>, Fault> {
        match self {
            Component::Alsa(a) => {
                let f = a.settings.format;
                match (a.state.is_muted, a.state.percent, f.levels) {
                    (None, _, _) => Ok(Some("N/A: (is_muted is None)"@)),
                    (Some(true), _, _) => Ok(Some(f.muted@)),
                    (_, None, _) => Ok(Some("(N/A)"@)),
                    (_, Some(_), None) => Ok(Some(f.default@)),
                    (_, Some(p), Some(l)) => Ok(
                        Some(level_choice(ladder_view(l@), p as int, f.default@)),
                    ),
                }
            },
            Component::Backlight(b) => {
                let f = b.settings.format;
                match (b.state.percent, f.levels) {
                    (None, _) => Ok(None),
                    (Some(_), None) => Ok(Some(f.default@)),
                    (Some(p), Some(l)) => Ok(
                        Some(level_choice(ladder_view(l@), p as int, f.default@)),
                    ),
                }
            },
            Component::Battery(b) => {
                let f = b.settings.format;
                match b.state.charging_state {
                    None => Err(Fault::MissingState),
                    Some(ChargingState::Full) => Ok(Some(f.full@)),
                    Some(ChargingState::Charging) => Ok(Some(f.charging@)),
                    Some(ChargingState::NotCharging) => Ok(Some(f.not_charging@)),
                    Some(ChargingState::Discharging) => match (b.state.percent, f.discharging) {
                        (None, _) => Err(Fault::MissingState),
                        (Some(_), None) => Ok(Some(f.default@)),
                        (Some(p), Some(l)) => Ok(
                            Some(level_choice(ladder_view(l@), p as int, f.default@)),
                        ),
                    },
                }
            },
            Component::Time(t) => Ok(Some(t.settings.format.default@)),
            _ => Ok(None),
        }
    }

    /// The named values that the current state offers to a template.
    pub open spec fn vars_view(self) -> Seq<(Seq<char>, Seq<char>)> {
        match self {
            Component::Alsa(a) => seq![("p"@, percent_text(opt_i64(a.state.percent)))],
            Component::Backlight(b) => seq![("p"@, percent_text(opt_i32(b.state.percent)))],
            Component::Battery(b) => seq![
                ("p"@, percent_text(opt_i32(b.state.percent))),
                (
                    "t"@,
                    match b.state.time {
                        Some(t) => without_seconds(humantime_text(t as nat)),
                        None => unknown_text(),
                    },
                ),
            ],
            Component::Time(t) => seq![
                (
                    "t"@,
                    match t.state.now {
                        Some(n) => match chrono_format_of(
                            n.timestamp as int,
                            n.utc_offset as int,
                            t.settings.time@,
                        ) {
                            Some(s) => s,
                            None => unknown_text(),
                        },
                        None => unknown_text(),
                    },
                ),
            ],
            _ => seq![],
        }
    }

    /// What the component shows, rendered from its current state.
    pub open spec fn display_view(self) -> Seq<char> {
        match self.template_view() {
            Ok(Some(t)) => rendered(t, self.vars_view()),
            Ok(None) => default_output_text(),
            Err(_) => fault_text(),
        }
    }
}

/// The text that a successful update with reading `r` caches in `c`.
pub open spec fn output_after(c: Component, r: Reading) -> Seq<char> {
    match r {
        Reading::Shell { stdout } => stdout@,
        _ => c.display_view(),
    }
}

/// How one `update` with the outcome `acquired` of a raw read at `now` takes `old` to
/// `new`: a fitting reading is stored and rendered into the cache; any other outcome
/// leaves the state as it was and caches the fault placeholder. Static text never changes.
pub open spec fn updated(old: Component, new: Component, acquired: Result<Reading, Fault>, now: u64) -> bool {
    if old is Text {
        new == old
    } else {
        match acquired {
            Ok(r) if old.fits(r) => {
                &&& new.sans_cache() == old.absorb(r, now).sans_cache()
                &&& new.cache_view() == Some(output_after(old.absorb(r, now), r))
            },
            _ => {
                &&& new.sans_cache() == old.sans_cache()
                &&& new.cache_view() == Some(fault_text())
            },
        }
    }
}

/// Whether a component is due for a refresh at `now`: it has an interval, and it was
/// never refreshed or more than that interval has passed since (not exactly at it).
pub open spec fn is_stale(c: Component, now: u64) -> bool {
    match c.interval_view() {
        None => false,
        Some(r) => match c.last_updated_view() {
            None => true,
            Some(t) => elapsed(t, now) > r,
        },
    }
}

/// Milliseconds from `from` to `now`; none where the clock reads earlier than `from`.
pub open spec fn elapsed(from: u64, now: u64) -> int {
    if now >= from {
        now - from
    } else {
        0
    }
}

fn ladder_or_default(levels: &Option<Vec<(i32, String)>>, v: i64, default: &String) -> (r: String)
    ensures
        r@ == match levels {
            Some(l) => level_choice(ladder_view(l@), v as int, default@),
            None => default@,
        },
{
    match levels {
        Some(l) => level_template(l, v, default),
        None => default.clone(),
    }
}

fn percent_string(p: Option<i64>) -> (r: String)
    ensures
        r@ == percent_text(opt_i64(p)),
{
    match p {
        Some(v) => decimal(v),
        None => "N/A".to_owned(),
    }
}

fn opt_widen(p: Option<i32>) -> (r: Option<i64>)
    ensures
        opt_i64(r) == opt_i32(p),
{
    match p {
        Some(v) => Some(v as i64),
        None => None,
    }
}

impl Component {
    /// The refresh interval in milliseconds; `None` for static text.
    pub fn get_refresh_interval(&self) -> (r: Option<u64>)
        ensures
            r == self.interval_view(),
    {
        match self {
            Component::Alsa(a) => Some(a.settings.refresh_interval),
            Component::Backlight(b) => Some(b.settings.refresh_interval),
            Component::Battery(b) => Some(b.settings.refresh_interval),
            Component::Text(_) => None,
            Component::Time(t) => Some(t.settings.refresh_interval),
            Component::Command(c) => Some(c.settings.refresh_interval),
        }
    }

    /// The signal number bound to the component; `None` for static text.
    pub fn get_signal_value(&self) -> (r: Option<u32>)
        ensures
            r == self.signal_view(),
    {
        match self {
            Component::Alsa(a) => Some(a.settings.signal),
            Component::Backlight(b) => Some(b.settings.signal),
            Component::Battery(b) => Some(b.settings.signal),
            Component::Text(_) => None,
            Component::Time(t) => Some(t.settings.signal),
            Component::Command(c) => Some(c.settings.signal),
        }
    }

    /// When the component was last refreshed; `None` before the first refresh.
    pub fn get_last_updated(&self) -> (r: Option<u64>)
        ensures
            r == self.last_updated_view(),
    {
        match self {
            Component::Alsa(a) => a.state.last_updated,
            Component::Backlight(b) => b.state.last_updated,
            Component::Battery(b) => b.state.last_updated,
            Component::Text(_) => None,
            Component::Time(t) => t.state.last_updated,
            Component::Command(c) => c.state.last_updated,
        }
    }

    /// The rendered cache; static text is its own cache.
    pub fn get_cache(&self) -> (r: Option<&str>)
        ensures
            match r {
                Some(s) => self.cache_view() == Some(s@),
                None => self.cache_view().is_none(),
            },
    {
        match self {
            Component::Alsa(a) => match &a.state.cache {
                Some(c) => Some(c.as_str()),
                None => None,
            },
            Component::Backlight(b) => match &b.state.cache {
                Some(c) => Some(c.as_str()),
                None => None,
            },
            Component::Battery(b) => match &b.state.cache {
                Some(c) => Some(c.as_str()),
                None => None,
            },
            Component::Text(t) => Some(t.0.as_str()),
            Component::Time(t) => match &t.state.cache {
                Some(c) => Some(c.as_str()),
                None => None,
            },
            Component::Command(c) => match &c.state.cache {
                Some(x) => Some(x.as_str()),
                None => None,
            },
        }
    }

    /// The raw read that a refresh of this component needs.
    pub fn acquisition(&self) -> (r: Acquisition)
        ensures
            match (self, r) {
                (Component::Alsa(_), Acquisition::Mixer) => true,
                (Component::Backlight(b), Acquisition::Backlight { path }) => path@ == b.settings.path@,
                (Component::Battery(b), Acquisition::Battery { path }) => path@ == b.settings.path@,
                (Component::Time(_), Acquisition::Clock) => true,
                (Component::Command(c), Acquisition::Shell { command }) =>
                    command@ == c.settings.shell_command@,
                (Component::Text(_), Acquisition::Nothing) => true,
                _ => false,
            },
    {
        match self {
            Component::Alsa(_) => Acquisition::Mixer,
            Component::Backlight(b) => Acquisition::Backlight { path: b.settings.path.clone() },
            Component::Battery(b) => Acquisition::Battery { path: b.settings.path.clone() },
            Component::Text(_) => Acquisition::Nothing,
            Component::Time(_) => Acquisition::Clock,
            Component::Command(c) => Acquisition::Shell { command: c.settings.shell_command.clone() },
        }
    }

    /// The staleness gate: whether the component is due for a refresh at `now`
    /// (milliseconds of the caller's monotonic clock).
    pub fn update_check(&self, now: u64) -> (r: bool)
        ensures
            r == is_stale(*self, now),
    {
        match self.get_refresh_interval() {
            None => false,
            Some(interval) => match self.get_last_updated() {
                None => true,
                Some(t) => {
                    if now >= t {
                        now - t > interval
                    } else {
                        false
                    }
                },
            },
        }
    }

    /// The text shown where no template applies.
    pub fn default_output(&self) -> (r: String)
        ensures
            r@ == default_output_text(),
    {
        "N/A: (default_output)".to_owned()
    }

    /// Picks the template for the current state: a keyed lookup for a battery's charger
    /// state, a ladder lookup by percentage, or the default template.
    pub fn get_strfmt_template(&self) -> (r: Result<Option<String>, Fault>)
        ensures
            match (r, self.template_view()) {
                (Ok(Some(t)), Ok(Some(u))) => t@ == u,
                (Ok(None), Ok(None)) => true,
                (Err(_), Err(_)) => true,
                _ => false,
            },
    {
        match self {
            Component::Alsa(a) => {
                let f = &a.settings.format;
                match (a.state.is_muted, a.state.percent) {
                    (None, _) => Ok(Some("N/A: (is_muted is None)".to_owned())),
                    (Some(true), _) => Ok(Some(f.muted.clone())),
                    (_, None) => Ok(Some("(N/A)".to_owned())),
                    (_, Some(p)) => Ok(Some(ladder_or_default(&f.levels, p, &f.default))),
                }
            },
            Component::Backlight(b) => {
                let f = &b.settings.format;
                match b.state.percent {
                    None => Ok(None),
                    Some(p) => Ok(Some(ladder_or_default(&f.levels, p as i64, &f.default))),
                }
            },
            Component::Battery(b) => {
                let f = &b.settings.format;
                match b.state.charging_state {
                    None => Err(Fault::MissingState),
                    Some(ChargingState::Full) => Ok(Some(f.full.clone())),
                    Some(ChargingState::Charging) => Ok(Some(f.charging.clone())),
                    Some(ChargingState::NotCharging) => Ok(Some(f.not_charging.clone())),
                    Some(ChargingState::Discharging) => match b.state.percent {
                        None => Err(Fault::MissingState),
                        Some(p) => Ok(
                            Some(ladder_or_default(&f.discharging, p as i64, &f.default)),
                        ),
                    },
                }
            },
            Component::Time(t) => Ok(Some(t.settings.format.default.clone())),
            _ => Ok(None),
        }
    }

    /// The named values that the current state offers to a template: `p` for a
    /// percentage, `t` for a battery's time left or the clock's time.
    pub fn strfmt_vars(&self) -> (r: Vec<(String, String)>)
        ensures
            vars_view(r@) == self.vars_view(),
    {
        let mut vars: Vec<(String, String)> = Vec::new();
        match self {
            Component::Alsa(a) => {
                vars.push(("p".to_owned(), percent_string(a.state.percent)));
            },
            Component::Backlight(b) => {
                vars.push(("p".to_owned(), percent_string(opt_widen(b.state.percent))));
            },
            Component::Battery(b) => {
                vars.push(("p".to_owned(), percent_string(opt_widen(b.state.percent))));
                let t = match b.state.time {
                    Some(secs) => {
                        let spelled = format_seconds(secs);
                        drop_trailing_seconds(spelled.as_str())
                    },
                    None => "N/A".to_owned(),
                };
                vars.push(("t".to_owned(), t));
            },
            Component::Time(tm) => {
                let t = match &tm.state.now {
                    Some(n) => match format_local_time(n, tm.settings.time.as_str()) {
                        Some(s) => s,
                        None => "N/A".to_owned(),
                    },
                    None => "N/A".to_owned(),
                };
                vars.push(("t".to_owned(), t));
            },
            _ => {},
        }
        assert(vars_view(vars@) =~= self.vars_view());
        vars
    }

    /// Renders `template` with the values of the current state; where the template
    /// cannot be filled in, it comes back as it is.
    pub fn apply_strfmt_template(&self, template: &str) -> (r: String)
        ensures
            r@ == rendered(template@, self.vars_view()),
    {
        let vars = self.strfmt_vars();
        safe_strfmt(template, &vars)
    }

    /// The text that the current state renders to.
    pub fn render(&self) -> (r: String)
        ensures
            r@ == self.display_view(),
    {
        match self.get_strfmt_template() {
            Ok(Some(t)) => self.apply_strfmt_template(t.as_str()),
            Ok(None) => self.default_output(),
            Err(_) => "N/A: (update failed)".to_owned(),
        }
    }

    /// Stores `s` as the rendered cache. Static text is its own cache and stays as it is.
    pub fn set_cache(&mut self, s: String)
        ensures
            final(self).sans_cache() == old(self).sans_cache(),
            !(*old(self) is Text) ==> final(self).cache_view() == Some(s@),
            *old(self) is Text ==> *final(self) == *old(self),
    {
        match self {
            Component::Alsa(a) => {
                a.state.cache = Some(s);
            },
            Component::Backlight(b) => {
                b.state.cache = Some(s);
            },
            Component::Battery(b) => {
                b.state.cache = Some(s);
            },
            Component::Text(_) => {},
            Component::Time(t) => {
                t.state.cache = Some(s);
            },
            Component::Command(c) => {
                c.state.cache = Some(s);
            },
        }
    }

    /// Stores the values of a reading taken at `now` and stamps the time of the refresh.
    /// A reading of another kind than the component takes changes nothing.
    pub fn update_state(&mut self, reading: Reading, now: u64) -> (r: Result<(), Fault>)
        ensures
            old(self).fits(reading) ==> r is Ok && *final(self) == old(self).absorb(reading, now),
            !old(self).fits(reading) ==> r is Err && *final(self) == *old(self),
    {
        match reading {
            Reading::Volume { percent, is_muted } => match self {
                Component::Alsa(a) => {
                    a.state.percent = Some(percent);
                    a.state.is_muted = Some(is_muted);
                    a.state.last_updated = Some(now);
                    Ok(())
                },
                _ => Err(Fault::MismatchedReading),
            },
            Reading::Brightness { percent } => match self {
                Component::Backlight(b) => {
                    b.state.percent = Some(percent);
                    b.state.last_updated = Some(now);
                    Ok(())
                },
                _ => Err(Fault::MismatchedReading),
            },
            Reading::Power { percent, time_remaining, charging_state } => match self {
                Component::Battery(b) => {
                    b.state.percent = Some(percent);
                    b.state.time = Some(time_remaining);
                    b.state.charging_state = Some(charging_state);
                    b.state.last_updated = Some(now);
                    Ok(())
                },
                _ => Err(Fault::MismatchedReading),
            },
            Reading::Clock { now: clock } => match self {
                Component::Time(t) => {
                    t.state.now = Some(clock);
                    t.state.last_updated = Some(now);
                    Ok(())
                },
                _ => Err(Fault::MismatchedReading),
            },
            Reading::Shell { .. } => match self {
                Component::Command(c) => {
                    c.state.last_updated = Some(now);
                    Ok(())
                },
                _ => Err(Fault::MismatchedReading),
            },
        }
    }

    /// Refreshes the component from the outcome of a raw read made at `now`: on success
    /// the new state is stored and rendered into the cache; on failure the state stays
    /// as it was and the cache holds a visible placeholder. A fault is never raised: it is
    /// absorbed here and only handed back, for logging. Static text has nothing to refresh.
    pub fn update(&mut self, acquired: Result<Reading, Fault>, now: u64) -> (r: Option<Fault>)
        ensures
            updated(*old(self), *final(self), acquired, now),
            r is None <==> (*old(self) is Text || (acquired is Ok && old(self).fits(
                acquired->Ok_0,
            ))),
    {
        if let Component::Text(_) = self {
            return None;
        }
        let outcome = match acquired {
            Ok(Reading::Shell { stdout }) => match self {
                Component::Command(c) => {
                    // a command's output is its rendered text
                    c.state.last_updated = Some(now);
                    c.state.cache = Some(stdout);
                    return None;
                },
                _ => Err(Fault::MismatchedReading),
            },
            Ok(reading) => self.update_state(reading, now),
            Err(f) => Err(f),
        };
        match outcome {
            Ok(()) => {
                let out = self.render();
                self.set_cache(out);
                None
            },
            Err(f) => {
                self.set_cache("N/A: (update failed)".to_owned());
                Some(f)
            },
        }
    }

    /// Refreshes the component from `acquired` only where it is due at `now`, and says
    /// whether it did; a component that is not due stays exactly as it was.
    pub fn update_maybe(&mut self, now: u64, acquired: Result<Reading, Fault>) -> (r: bool)
        ensures
            r == is_stale(*old(self), now),
            r ==> updated(*old(self), *final(self), acquired, now),
            !r ==> *final(self) == *old(self),
    {
        if self.update_check(now) {
            let _ = self.update(acquired, now);
            true
        } else {
            false
        }
    }
}

/// A ladder that is absent or ascending.
pub open spec fn ladder_ready(levels: Option<Vec<(i32, String)>>) -> bool {
    match levels {
        Some(l) => ceilings_ascending(ladder_view(l@)),
        None => true,
    }
}

/// The same rungs as `before`, now in ascending order of their ceilings; rungs that share
/// a ceiling keep their declared order.
pub open spec fn ladder_sorted_from(after: Option<Vec<(i32, String)>>, before: Option<Vec<(i32, String)>>) -> bool {
    &&& after.is_none() == before.is_none()
    &&& ladder_ready(after)
    &&& after.is_some() ==> ladder_view(after.unwrap()@).to_multiset() == ladder_view(
        before.unwrap()@,
    ).to_multiset()
    &&& after.is_some() ==> forall|k: i32| #[trigger]
        rungs_at(ladder_view(after.unwrap()@), k) == rungs_at(ladder_view(before.unwrap()@), k)
}

impl Alsa {
    /// A volume component that has not been refreshed yet; its ladder is put in order.
    pub fn new(settings: AlsaSettings) -> (r: Alsa)
        ensures
            r.state.percent.is_none() && r.state.is_muted.is_none(),
            r.state.last_updated.is_none() && r.state.cache.is_none(),
            r.settings.refresh_interval == settings.refresh_interval,
            r.settings.signal == settings.signal,
            r.settings.format.default@ == settings.format.default@,
            r.settings.format.muted@ == settings.format.muted@,
            ladder_sorted_from(r.settings.format.levels, settings.format.levels),
    {
        let mut settings = settings;
        sort_levels(&mut settings.format.levels);
        Alsa {
            state: AlsaState { percent: None, is_muted: None, last_updated: None, cache: None },
            settings,
        }
    }
}

impl Backlight {
    /// A backlight component that has not been refreshed yet; its ladder is put in order.
    pub fn new(settings: BacklightSettings) -> (r: Backlight)
        ensures
            r.state.percent.is_none() && r.state.last_updated.is_none() && r.state.cache.is_none(),
            r.settings.refresh_interval == settings.refresh_interval,
            r.settings.signal == settings.signal,
            r.settings.path@ == settings.path@,
            r.settings.format.default@ == settings.format.default@,
            ladder_sorted_from(r.settings.format.levels, settings.format.levels),
    {
        let mut settings = settings;
        sort_levels(&mut settings.format.levels);
        Backlight { state: BacklightState { percent: None, last_updated: None, cache: None }, settings }
    }
}

impl Battery {
    /// A battery component that has not been refreshed yet; its discharging ladder is put
    /// in order.
    pub fn new(settings: BatterySettings) -> (r: Battery)
        ensures
            r.state.percent.is_none() && r.state.time.is_none(),
            r.state.charging_state.is_none(),
            r.state.last_updated.is_none() && r.state.cache.is_none(),
            r.settings.refresh_interval == settings.refresh_interval,
            r.settings.signal == settings.signal,
            r.settings.path@ == settings.path@,
            r.settings.format.default@ == settings.format.default@,
            r.settings.format.full@ == settings.format.full@,
            r.settings.format.not_charging@ == settings.format.not_charging@,
            r.settings.format.charging@ == settings.format.charging@,
            ladder_sorted_from(r.settings.format.discharging, settings.format.discharging),
    {
        let mut settings = settings;
        sort_levels(&mut settings.format.discharging);
        Battery {
            state: BatteryState {
                percent: None,
                time: None,
                charging_state: None,
                last_updated: None,
                cache: None,
            },
            settings,
        }
    }
}

impl Time {
    /// A clock component that has not been refreshed yet.
    pub fn new(settings: TimeSettings) -> (r: Time)
        ensures
            r.state.now.is_none() && r.state.last_updated.is_none() && r.state.cache.is_none(),
            r.settings == settings,
    {
        Time { state: TimeState { now: None, last_updated: None, cache: None }, settings }
    }
}

impl Command {
    /// A shell-command component that has not been refreshed yet.
    pub fn new(settings: CommandSettings) -> (r: Command)
        ensures
            r.state.last_updated.is_none() && r.state.cache.is_none(),
            r.settings == settings,
    {
        Command { state: CommandState { last_updated: None, cache: None }, settings }
    }
}

impl Default for AlsaFormatSettings {
    fn default() -> (r: Self)
        ensures
            r.default@ == " V: {p}% "@,
            r.muted@ == " MUTE({p}) "@,
            r.levels.is_none(),
    {
        AlsaFormatSettings { default: " V: {p}% ".to_owned(), muted: " MUTE({p}) ".to_owned(), levels: None }
    }
}

impl Default for AlsaSettings {
    fn default() -> (r: Self)
        ensures
            r.refresh_interval == 1000,
            r.signal == 5,
            r.format.default@ == " V: {p}% "@,
            r.format.muted@ == " MUTE({p}) "@,
            r.format.levels.is_none(),
    {
        AlsaSettings { refresh_interval: 1000, signal: 5, format: AlsaFormatSettings::default() }
    }
}

impl Default for BacklightFormatSettings {
    fn default() -> (r: Self)
        ensures
            r.default@ == " br: {p} "@,
            r.levels.is_none(),
    {
        BacklightFormatSettings { default: " br: {p} ".to_owned(), levels: None }
    }
}

impl Default for BacklightSettings {
    fn default() -> (r: Self)
        ensures
            r.refresh_interval == 1000,
            r.signal == 6,
            r.path@ == "/sys/class/backlight/acpi_video0"@,
            r.format.default@ == " br: {p} "@,
            r.format.levels.is_none(),
    {
        BacklightSettings {
            refresh_interval: 1000,
            signal: 6,
            path: "/sys/class/backlight/acpi_video0".to_owned(),
            format: BacklightFormatSettings::default(),
        }
    }
}

impl Default for BatteryFormatSettings {
    fn default() -> (r: Self)
        ensures
            r.default@ == " B: {p}% {t} "@,
            r.full@ == " Full({p}) "@,
            r.not_charging@ == " ? {p}% "@,
            r.charging@ == " \u{f0e7} {p}% {t} "@,
            r.discharging.is_none(),
    {
        BatteryFormatSettings {
            default: " B: {p}% {t} ".to_owned(),
            full: " Full({p}) ".to_owned(),
            not_charging: " ? {p}% ".to_owned(),
            charging: " \u{f0e7} {p}% {t} ".to_owned(),
            discharging: None,
        }
    }
}

impl Default for BatterySettings {
    fn default() -> (r: Self)
        ensures
            r.refresh_interval == 1000,
            r.signal == 7,
            r.path@ == "/sys/class/power_supply/BAT0"@,
            r.format.default@ == " B: {p}% {t} "@,
            r.format.discharging.is_none(),
    {
        BatterySettings {
            refresh_interval: 1000,
            signal: 7,
            path: "/sys/class/power_supply/BAT0".to_owned(),
            format: BatteryFormatSettings::default(),
        }
    }
}

impl Default for TimeFormatSettings {
    fn default() -> (r: Self)
        ensures
            r.default@ == " {t} "@,
    {
        TimeFormatSettings { default: " {t} ".to_owned() }
    }
}

impl Default for TimeSettings {
    fn default() -> (r: Self)
        ensures
            r.refresh_interval == 1000,
            r.signal == 9,
            r.time@ == "%a %d %b %I:%M %P"@,
            r.format.default@ == " {t} "@,
    {
        TimeSettings {
            refresh_interval: 1000,
            signal: 9,
            time: "%a %d %b %I:%M %P".to_owned(),
            format: TimeFormatSettings::default(),
        }
    }
}

impl Default for CommandSettings {
    fn default() -> (r: Self)
        ensures
            r.refresh_interval == 1000,
            r.signal == 8,
            r.shell_command@ == "echo -n ' hello world! '"@,
    {
        CommandSettings {
            refresh_interval: 1000,
            signal: 8,
            shell_command: "echo -n ' hello world! '".to_owned(),
        }
    }
}

} // verus!
