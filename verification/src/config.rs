//! The configuration model. Unknown keys in the file are ignored and absent
//! ones take their defaults; the values are validated once, when loaded.
use crate::text::{decimal, decimal_text};
use crate::wheel::{WheelAccumulator, WheelConfigError, WheelState};
use vstd::prelude::*;

verus! {

/// The `[wheel]` section.
#[derive(Debug, Clone, PartialEq, Eq)]
pub struct WheelConfig {
    /// How many physical wheel detents are required per volume change.
    /// Lower = more sensitive (1 is the most sensitive setting).
    pub notches_per_step: i32,
    /// Reverse the wheel direction (forward lowers volume, back raises it).
    pub invert: bool,
    /// How many volume-key presses to send per step's worth of notches.
    pub sensitivity: i32,
}

impl Default for WheelConfig {
    /// One notch per step, not inverted, two presses per step.
    fn default() -> (r: Self)
        ensures
            r.notches_per_step == 1,
            !r.invert,
            r.sensitivity == 2,
    {
        Self { notches_per_step: 1, invert: false, sensitivity: 2 }
    }
}

/// The `[general]` section.
#[derive(Debug, Clone, PartialEq, Eq)]
pub struct GeneralConfig {
    pub autostart: bool,
}

impl Default for GeneralConfig {
    /// Autostart on.
    fn default() -> (r: Self)
        ensures
            r.autostart,
    {
        Self { autostart: true }
    }
}

/// The `[linux]` section, present on every platform so the format stays
/// uniform.
#[derive(Debug, Clone, PartialEq, Eq)]
pub struct LinuxConfig {
    /// Explicit `/dev/input/eventN` path, overriding auto-detection.
    pub device_path: Option<String>,
}

impl Default for LinuxConfig {
    /// No explicit device.
    fn default() -> (r: Self)
        ensures
            r.device_path is None,
    {
        Self { device_path: None }
    }
}

/// The whole configuration file.
#[derive(Debug, Clone, PartialEq, Eq)]
pub struct Config {
    pub wheel: WheelConfig,
    pub general: GeneralConfig,
    pub linux: LinuxConfig,
}

impl Default for Config {
    /// Every section at its default.
    fn default() -> (r: Self)
        ensures
            r.wheel.notches_per_step == 1,
            !r.wheel.invert,
            r.wheel.sensitivity == 2,
            r.general.autostart,
            r.linux.device_path is None,
    {
        Self {
            wheel: WheelConfig::default(),
            general: GeneralConfig::default(),
            linux: LinuxConfig::default(),
        }
    }
}

/// Why a configuration could not be loaded or stored. The reading, writing,
/// parsing and serializing failures carry the underlying error's message.
#[derive(Debug, Clone, PartialEq, Eq)]
pub enum ConfigError {
    Read(String),
    Write(String),
    Parse(String),
    Serialize(String),
    InvalidNotchesPerStep(i32),
    InvalidSensitivity(i32),
}

impl ConfigError {
    /// The message that describes the error.
    pub open spec fn message(self) -> Seq<char> {
        match self {
            ConfigError::Read(e) => "cannot read config file: "@ + e@,
            ConfigError::Write(e) => "cannot write config file: "@ + e@,
            ConfigError::Parse(e) => "invalid config syntax: "@ + e@,
            ConfigError::Serialize(e) => "cannot serialize config: "@ + e@,
            ConfigError::InvalidNotchesPerStep(n) => "wheel.notches_per_step must be positive, got "@
                + decimal(n as int),
            ConfigError::InvalidSensitivity(n) => "wheel.sensitivity must be positive, got "@
                + decimal(n as int),
        }
    }

    /// Renders the error as text.
    pub fn to_string(&self) -> (s: String)
        ensures
            s@ == self.message(),
    {
        let (prefix, detail) = match self {
            ConfigError::Read(e) => ("cannot read config file: ", e.clone()),
            ConfigError::Write(e) => ("cannot write config file: ", e.clone()),
            ConfigError::Parse(e) => ("invalid config syntax: ", e.clone()),
            ConfigError::Serialize(e) => ("cannot serialize config: ", e.clone()),
            ConfigError::InvalidNotchesPerStep(n) => (
                "wheel.notches_per_step must be positive, got ",
                decimal_text(*n),
            ),
            ConfigError::InvalidSensitivity(n) => (
                "wheel.sensitivity must be positive, got ",
                decimal_text(*n),
            ),
        };
        let mut s = String::from_str(prefix);
        s.append(detail.as_str());
        s
    }
}

impl Config {
    /// Both wheel settings are positive.
    pub open spec fn is_valid(self) -> bool {
        self.wheel.notches_per_step > 0 && self.wheel.sensitivity > 0
    }

    /// Checks the values: `notches_per_step`, then `sensitivity`, must be
    /// positive.
    pub fn validate(&self) -> (r: Result<(), ConfigError>)
        ensures
            self.wheel.notches_per_step <= 0 ==> r == Err::<(), ConfigError>(
                ConfigError::InvalidNotchesPerStep(self.wheel.notches_per_step),
            ),
            self.wheel.notches_per_step > 0 && self.wheel.sensitivity <= 0 ==> r == Err::<
                (),
                ConfigError,
            >(ConfigError::InvalidSensitivity(self.wheel.sensitivity)),
            self.is_valid() ==> r is Ok,
    {
        if self.wheel.notches_per_step <= 0 {
            return Err(ConfigError::InvalidNotchesPerStep(self.wheel.notches_per_step));
        }
        if self.wheel.sensitivity <= 0 {
            return Err(ConfigError::InvalidSensitivity(self.wheel.sensitivity));
        }
        Ok(())
    }

    /// A freshly deserialized configuration, accepted only when its values
    /// pass [`Config::validate`].
    pub fn validated(self) -> (r: Result<Config, ConfigError>)
        ensures
            self.is_valid() ==> r == Ok::<Config, ConfigError>(self),
            self.wheel.notches_per_step <= 0 ==> r == Err::<Config, ConfigError>(
                ConfigError::InvalidNotchesPerStep(self.wheel.notches_per_step),
            ),
            self.wheel.notches_per_step > 0 && self.wheel.sensitivity <= 0 ==> r == Err::<
                Config,
                ConfigError,
            >(ConfigError::InvalidSensitivity(self.wheel.sensitivity)),
    {
        match self.validate() {
            Ok(()) => Ok(self),
            Err(e) => Err(e),
        }
    }
}

/// Builds the accumulator a configuration's `[wheel]` section describes.
pub fn build_accumulator(config: &Config) -> (r: Result<WheelAccumulator, WheelConfigError>)
    ensures
        config.wheel.notches_per_step <= 0 ==> r == Err::<WheelAccumulator, WheelConfigError>(
            WheelConfigError::InvalidNotchesPerStep(config.wheel.notches_per_step),
        ),
        config.wheel.notches_per_step > 0 && config.wheel.sensitivity <= 0 ==> r == Err::<
            WheelAccumulator,
            WheelConfigError,
        >(WheelConfigError::InvalidPressesPerStep(config.wheel.sensitivity)),
        config.is_valid() ==> (r matches Ok(acc) && acc@ == fresh_state(config.wheel)),
        r matches Ok(acc) ==> {
            &&& acc@.accumulated == 0
            &&& acc@.notches_per_step == config.wheel.notches_per_step
            &&& acc@.invert == config.wheel.invert
            &&& acc@.presses_per_step == config.wheel.sensitivity
        },
{
    WheelAccumulator::new(
        config.wheel.notches_per_step,
        config.wheel.invert,
        config.wheel.sensitivity,
    )
}

/// A freshly built accumulator has nothing pending and takes its three
/// settings from the `[wheel]` section as they are.
pub proof fn lemma_fresh_state_has_nothing_pending(wheel: WheelConfig)
    ensures
        fresh_state(wheel).accumulated == 0,
        fresh_state(wheel).notches_per_step == wheel.notches_per_step,
        fresh_state(wheel).invert == wheel.invert,
        fresh_state(wheel).presses_per_step == wheel.sensitivity,
{
}

/// An accumulator built from `wheel`, with nothing pending.
pub open spec fn fresh_state(wheel: WheelConfig) -> WheelState {
    WheelState {
        notches_per_step: wheel.notches_per_step as int,
        invert: wheel.invert,
        presses_per_step: wheel.sensitivity as int,
        accumulated: 0,
    }
}

} // verus!
