//! User settings: defaults, range limits and the start-up repair of stored values.

use vstd::prelude::*;

verus! {

/// Slowest speech rate the platform accepts.
pub const RATE_MIN: i32 = -10;

/// Fastest speech rate the platform accepts.
pub const RATE_MAX: i32 = 10;

/// Loudest volume the platform accepts; the quietest is zero.
pub const VOLUME_MAX: u32 = 100;

/// `value` brought into the closed interval from `low` to `high`.
pub open spec fn clamp_int(value: int, low: int, high: int) -> int {
    if value < low {
        low
    } else if value > high {
        high
    } else {
        value
    }
}

/// The rate that stands for `rate` once it is brought into range.
pub open spec fn clamped_rate(rate: int) -> int {
    clamp_int(rate, RATE_MIN as int, RATE_MAX as int)
}

/// The volume that stands for `volume` once it is brought into range.
pub open spec fn clamped_volume(volume: int) -> int {
    clamp_int(volume, 0, VOLUME_MAX as int)
}

/// Brings a speech rate into the range from [`RATE_MIN`] to [`RATE_MAX`].
pub fn clamp_rate(rate: i32) -> (clamped: i32)
    ensures
        clamped == clamped_rate(rate as int),
{
    if rate < RATE_MIN {
        RATE_MIN
    } else if rate > RATE_MAX {
        RATE_MAX
    } else {
        rate
    }
}

/// Brings a volume into the range from zero to [`VOLUME_MAX`].
pub fn clamp_volume(volume: u32) -> (clamped: u32)
    ensures
        clamped == clamped_volume(volume as int),
{
    if volume > VOLUME_MAX {
        VOLUME_MAX
    } else {
        volume
    }
}

/// Clamping is idempotent: a value that was brought into an interval is left
/// as it is by a second clamp into the same interval.
pub proof fn lemma_clamp_idempotent(value: int, low: int, high: int)
    requires
        low <= high,
    ensures
        clamp_int(clamp_int(value, low, high), low, high) == clamp_int(value, low, high),
        low <= clamp_int(value, low, high) <= high,
{
}

/// Clamping a rate or a volume twice gives what clamping it once gives.
pub proof fn lemma_sanitization_idempotent(rate: int, volume: int)
    ensures
        clamped_rate(clamped_rate(rate)) == clamped_rate(rate),
        clamped_volume(clamped_volume(volume)) == clamped_volume(volume),
{
}

/// The settings a user can change, as they are kept between runs.
#[derive(Debug, PartialEq, Eq)]
pub struct Config {
    /// Display identifier of the chosen voice; empty for the first installed one.
    pub voice_name: String,
    /// Speech rate.
    pub rate: i32,
    /// Speech volume.
    pub volume: u32,
    /// Whether the window stays hidden at start-up.
    pub hidden: bool,
}

/// Mathematical value of a [`Config`].
pub struct ConfigView {
    pub voice_name: Seq<char>,
    pub rate: int,
    pub volume: int,
    pub hidden: bool,
}

impl View for Config {
    type V = ConfigView;

    open spec fn view(&self) -> ConfigView {
        ConfigView {
            voice_name: self.voice_name@,
            rate: self.rate as int,
            volume: self.volume as int,
            hidden: self.hidden,
        }
    }
}

impl ConfigView {
    /// The settings of a first run: no voice chosen, normal rate, full volume, window shown.
    pub open spec fn initial() -> ConfigView {
        ConfigView { voice_name: Seq::<char>::empty(), rate: 0, volume: 100, hidden: false }
    }

    /// Rate and volume both lie in their ranges.
    pub open spec fn in_range(self) -> bool {
        &&& RATE_MIN <= self.rate <= RATE_MAX
        &&& 0 <= self.volume <= VOLUME_MAX
    }

    /// These settings with rate and volume brought into their ranges.
    pub open spec fn sanitized(self) -> ConfigView {
        ConfigView {
            rate: clamped_rate(self.rate),
            volume: clamped_volume(self.volume),
            ..self
        }
    }

    /// These settings with the visibility preference replaced where one is given.
    pub open spec fn with_hidden(self, hidden: Option<bool>) -> ConfigView {
        match hidden {
            Some(h) => ConfigView { hidden: h, ..self },
            None => self,
        }
    }
}

impl Default for Config {
    fn default() -> (config: Config)
        ensures
            config@ == ConfigView::initial(),
    {
        Config { voice_name: String::new(), rate: 0, volume: 100, hidden: false }
    }
}

impl Clone for Config {
    fn clone(&self) -> (copy: Config)
        ensures
            copy@ == self@,
    {
        Config {
            voice_name: self.voice_name.clone(),
            rate: self.rate,
            volume: self.volume,
            hidden: self.hidden,
        }
    }
}

impl Config {
    /// Whether the two records hold the same settings.
    pub fn same_as(&self, other: &Config) -> (same: bool)
        ensures
            same == (self@ == other@),
    {
        self.voice_name == other.voice_name && self.rate == other.rate && self.volume
            == other.volume && self.hidden == other.hidden
    }

    /// Brings rate and volume into their ranges and leaves the rest as it is.
    pub fn sanitize(self) -> (clean: Config)
        ensures
            clean@ == self@.sanitized(),
            clean@.in_range(),
    {
        Config {
            voice_name: self.voice_name,
            rate: clamp_rate(self.rate),
            volume: clamp_volume(self.volume),
            hidden: self.hidden,
        }
    }

    /// The settings to work with, given what reading the stored record
    /// produced: `None` stands for a record that is missing or unreadable and
    /// gives the defaults. With `sanitize` set, a record that was read has
    /// its rate and volume brought into range.
    pub fn load(stored: Option<Config>, sanitize: bool) -> (config: Config)
        ensures
            config@ == loaded(stored_view(stored), sanitize),
    {
        match stored {
            Some(config) => {
                if sanitize {
                    config.sanitize()
                } else {
                    config
                }
            },
            None => Config::default(),
        }
    }

    /// The settings a run starts with, and whether they have to be written
    /// back at once.
    ///
    /// The stored record is read with its rate and volume brought into range,
    /// and `hidden`, where given, replaces the stored visibility preference.
    /// The result has to be written back exactly when it differs from what
    /// was read as it stood, so that a record out of range is repaired on the
    /// first run that sees it.
    pub fn startup(stored: Option<Config>, hidden: Option<bool>) -> (start: (Config, bool))
        ensures
            start.0@ == loaded(stored_view(stored), true).with_hidden(hidden),
            start.0@.in_range(),
            start.1 == (start.0@ != loaded(stored_view(stored), false)),
    {
        let as_read = Config::load(stored, false);
        let mut config = as_read.clone().sanitize();
        if let Some(hidden) = hidden {
            config.hidden = hidden;
        }
        let persist = !config.same_as(&as_read);
        (config, persist)
    }
}

/// Mathematical value of what reading the stored record produced.
pub open spec fn stored_view(stored: Option<Config>) -> Option<ConfigView> {
    match stored {
        Some(config) => Some(config@),
        None => None,
    }
}

/// What [`Config::load`] yields for a stored record.
pub open spec fn loaded(stored: Option<ConfigView>, sanitize: bool) -> ConfigView {
    match stored {
        Some(config) => if sanitize {
            config.sanitized()
        } else {
            config
        },
        None => ConfigView::initial(),
    }
}

} // verus!
