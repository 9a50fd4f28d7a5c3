//! Read-only configuration consumed by the sampling core: the numeric base
//! for magnitude scaling, the temperature display unit, the refresh cadence,
//! and the display toggles the samplers honour.
//!
//! The persisted settings store itself is an outside collaborator; the core
//! only ever sees the plain values held here.

use crate::text::str_eq_bytes;
use vstd::prelude::*;
use vstd::string::StringSliceAdditionalSpecFns;

verus! {

/// The numeric base used when stepping magnitudes down the prefix ladder.
#[derive(Clone, Copy, PartialEq, Eq, Structural, Debug)]
pub enum Base {
    Decimal,
    Binary,
}

/// The unit in which temperatures are displayed.
#[derive(Clone, Copy, PartialEq, Eq, Structural, Debug)]
pub enum TemperatureUnit {
    Celsius,
    Kelvin,
    Fahrenheit,
}

/// How often the display layer asks for a fresh sample.
#[derive(Clone, Copy, PartialEq, Eq, Structural, Debug)]
pub enum RefreshSpeed {
    VerySlow,
    Slow,
    Normal,
    Fast,
    VeryFast,
}

/// The stored name of a `Base` value.
pub open spec fn base_name_spec(b: Base) -> Seq<char> {
    match b {
        Base::Decimal => "Decimal"@,
        Base::Binary => "Binary"@,
    }
}

impl Base {
    /// The name under which this value is persisted.
    pub fn name(&self) -> (r: &'static str)
        ensures
            r@ == base_name_spec(*self),
    {
        match self {
            Base::Decimal => "Decimal",
            Base::Binary => "Binary",
        }
    }

    /// Parses a persisted name; unknown names yield `None`.
    pub fn from_name(s: &str) -> (r: Option<Base>)
        ensures
            r == (if s.spec_bytes() == "Decimal".spec_bytes() {
                Some(Base::Decimal)
            } else if s.spec_bytes() == "Binary".spec_bytes() {
                Some(Base::Binary)
            } else {
                None::<Base>
            }),
    {
        if str_eq_bytes(s, "Decimal") {
            Some(Base::Decimal)
        } else if str_eq_bytes(s, "Binary") {
            Some(Base::Binary)
        } else {
            None
        }
    }

    /// Recovers a value from its stored discriminant.
    pub fn from_repr(v: u8) -> (r: Option<Base>)
        ensures
            v == 0 ==> r == Some(Base::Decimal),
            v == 1 ==> r == Some(Base::Binary),
            v >= 2 ==> r is None,
    {
        match v {
            0 => Some(Base::Decimal),
            1 => Some(Base::Binary),
            _ => None,
        }
    }
}

impl Default for Base {
    /// The base used when no preference is stored.
    fn default() -> (r: Base)
        ensures
            r == Base::Decimal,
    {
        Base::Decimal
    }
}

/// The stored name of a `TemperatureUnit` value.
pub open spec fn temperature_unit_name_spec(u: TemperatureUnit) -> Seq<char> {
    match u {
        TemperatureUnit::Celsius => "Celsius"@,
        TemperatureUnit::Kelvin => "Kelvin"@,
        TemperatureUnit::Fahrenheit => "Fahrenheit"@,
    }
}

impl TemperatureUnit {
    /// The name under which this value is persisted.
    pub fn name(&self) -> (r: &'static str)
        ensures
            r@ == temperature_unit_name_spec(*self),
    {
        match self {
            TemperatureUnit::Celsius => "Celsius",
            TemperatureUnit::Kelvin => "Kelvin",
            TemperatureUnit::Fahrenheit => "Fahrenheit",
        }
    }

    /// Parses a persisted name; unknown names yield `None`.
    pub fn from_name(s: &str) -> (r: Option<TemperatureUnit>)
        ensures
            r == (if s.spec_bytes() == "Celsius".spec_bytes() {
                Some(TemperatureUnit::Celsius)
            } else if s.spec_bytes() == "Kelvin".spec_bytes() {
                Some(TemperatureUnit::Kelvin)
            } else if s.spec_bytes() == "Fahrenheit".spec_bytes() {
                Some(TemperatureUnit::Fahrenheit)
            } else {
                None::<TemperatureUnit>
            }),
    {
        if str_eq_bytes(s, "Celsius") {
            Some(TemperatureUnit::Celsius)
        } else if str_eq_bytes(s, "Kelvin") {
            Some(TemperatureUnit::Kelvin)
        } else if str_eq_bytes(s, "Fahrenheit") {
            Some(TemperatureUnit::Fahrenheit)
        } else {
            None
        }
    }

    /// Recovers a value from its stored discriminant.
    pub fn from_repr(v: u8) -> (r: Option<TemperatureUnit>)
        ensures
            v == 0 ==> r == Some(TemperatureUnit::Celsius),
            v == 1 ==> r == Some(TemperatureUnit::Kelvin),
            v == 2 ==> r == Some(TemperatureUnit::Fahrenheit),
            v >= 3 ==> r is None,
    {
        match v {
            0 => Some(TemperatureUnit::Celsius),
            1 => Some(TemperatureUnit::Kelvin),
            2 => Some(TemperatureUnit::Fahrenheit),
            _ => None,
        }
    }
}

impl Default for TemperatureUnit {
    /// The unit used when no preference is stored.
    fn default() -> (r: TemperatureUnit)
        ensures
            r == TemperatureUnit::Celsius,
    {
        TemperatureUnit::Celsius
    }
}

/// The stored name of a `RefreshSpeed` value.
pub open spec fn refresh_speed_name_spec(s: RefreshSpeed) -> Seq<char> {
    match s {
        RefreshSpeed::VerySlow => "VerySlow"@,
        RefreshSpeed::Slow => "Slow"@,
        RefreshSpeed::Normal => "Normal"@,
        RefreshSpeed::Fast => "Fast"@,
        RefreshSpeed::VeryFast => "VeryFast"@,
    }
}

impl RefreshSpeed {
    /// The name under which this value is persisted.
    pub fn name(&self) -> (r: &'static str)
        ensures
            r@ == refresh_speed_name_spec(*self),
    {
        match self {
            RefreshSpeed::VerySlow => "VerySlow",
            RefreshSpeed::Slow => "Slow",
            RefreshSpeed::Normal => "Normal",
            RefreshSpeed::Fast => "Fast",
            RefreshSpeed::VeryFast => "VeryFast",
        }
    }

    /// Parses a persisted name; unknown names yield `None`.
    pub fn from_name(s: &str) -> (r: Option<RefreshSpeed>)
        ensures
            r == (if s.spec_bytes() == "VerySlow".spec_bytes() {
                Some(RefreshSpeed::VerySlow)
            } else if s.spec_bytes() == "Slow".spec_bytes() {
                Some(RefreshSpeed::Slow)
            } else if s.spec_bytes() == "Normal".spec_bytes() {
                Some(RefreshSpeed::Normal)
            } else if s.spec_bytes() == "Fast".spec_bytes() {
                Some(RefreshSpeed::Fast)
            } else if s.spec_bytes() == "VeryFast".spec_bytes() {
                Some(RefreshSpeed::VeryFast)
            } else {
                None::<RefreshSpeed>
            }),
    {
        if str_eq_bytes(s, "VerySlow") {
            Some(RefreshSpeed::VerySlow)
        } else if str_eq_bytes(s, "Slow") {
            Some(RefreshSpeed::Slow)
        } else if str_eq_bytes(s, "Normal") {
            Some(RefreshSpeed::Normal)
        } else if str_eq_bytes(s, "Fast") {
            Some(RefreshSpeed::Fast)
        } else if str_eq_bytes(s, "VeryFast") {
            Some(RefreshSpeed::VeryFast)
        } else {
            None
        }
    }

    /// Recovers a value from its stored discriminant.
    pub fn from_repr(v: u8) -> (r: Option<RefreshSpeed>)
        ensures
            v == 0 ==> r == Some(RefreshSpeed::VerySlow),
            v == 1 ==> r == Some(RefreshSpeed::Slow),
            v == 2 ==> r == Some(RefreshSpeed::Normal),
            v == 3 ==> r == Some(RefreshSpeed::Fast),
            v == 4 ==> r == Some(RefreshSpeed::VeryFast),
            v >= 5 ==> r is None,
    {
        match v {
            0 => Some(RefreshSpeed::VerySlow),
            1 => Some(RefreshSpeed::Slow),
            2 => Some(RefreshSpeed::Normal),
            3 => Some(RefreshSpeed::Fast),
            4 => Some(RefreshSpeed::VeryFast),
            _ => None,
        }
    }

    /// The interval between display refreshes, in milliseconds.
    pub fn ui_refresh_interval(&self) -> (r: u64)
        ensures
            r == ui_refresh_interval_spec(*self),
    {
        match self {
            RefreshSpeed::VerySlow => 3000,
            RefreshSpeed::Slow => 2000,
            RefreshSpeed::Normal => 1000,
            RefreshSpeed::Fast => 500,
            RefreshSpeed::VeryFast => 250,
        }
    }

    /// The interval between process-list refreshes, in milliseconds: twice
    /// the display interval.
    pub fn process_refresh_interval(&self) -> (r: u64)
        ensures
            r == 2 * ui_refresh_interval_spec(*self),
    {
        self.ui_refresh_interval() * 2
    }
}

/// The display refresh interval of each cadence, in milliseconds.
pub open spec fn ui_refresh_interval_spec(s: RefreshSpeed) -> u64 {
    match s {
        RefreshSpeed::VerySlow => 3000u64,
        RefreshSpeed::Slow => 2000u64,
        RefreshSpeed::Normal => 1000u64,
        RefreshSpeed::Fast => 500u64,
        RefreshSpeed::VeryFast => 250u64,
    }
}

impl Default for RefreshSpeed {
    /// The cadence used when no preference is stored.
    fn default() -> (r: RefreshSpeed)
        ensures
            r == RefreshSpeed::Normal,
    {
        RefreshSpeed::Normal
    }
}

/// The configuration values the sampling core consumes, as one plain record.
#[derive(Clone, Copy, PartialEq, Eq, Structural, Debug)]
pub struct Settings {
    pub base: Base,
    pub temperature_unit: TemperatureUnit,
    pub refresh_speed: RefreshSpeed,
    pub network_bits: bool,
    pub show_logical_cpus: bool,
}

impl Settings {
    /// A settings record with every field given explicitly.
    pub fn new(
        base: Base,
        temperature_unit: TemperatureUnit,
        refresh_speed: RefreshSpeed,
        network_bits: bool,
        show_logical_cpus: bool,
    ) -> (r: Settings)
        ensures
            r.base == base,
            r.temperature_unit == temperature_unit,
            r.refresh_speed == refresh_speed,
            r.network_bits == network_bits,
            r.show_logical_cpus == show_logical_cpus,
    {
        Settings { base, temperature_unit, refresh_speed, network_bits, show_logical_cpus }
    }

    pub fn base(&self) -> (r: Base)
        ensures
            r == self.base,
    {
        self.base
    }

    pub fn set_base(&mut self, value: Base)
        ensures
            *final(self) == (Settings { base: value, ..*old(self) }),
    {
        self.base = value;
    }

    pub fn temperature_unit(&self) -> (r: TemperatureUnit)
        ensures
            r == self.temperature_unit,
    {
        self.temperature_unit
    }

    pub fn set_temperature_unit(&mut self, value: TemperatureUnit)
        ensures
            *final(self) == (Settings { temperature_unit: value, ..*old(self) }),
    {
        self.temperature_unit = value;
    }

    pub fn refresh_speed(&self) -> (r: RefreshSpeed)
        ensures
            r == self.refresh_speed,
    {
        self.refresh_speed
    }

    pub fn set_refresh_speed(&mut self, value: RefreshSpeed)
        ensures
            *final(self) == (Settings { refresh_speed: value, ..*old(self) }),
    {
        self.refresh_speed = value;
    }

    pub fn network_bits(&self) -> (r: bool)
        ensures
            r == self.network_bits,
    {
        self.network_bits
    }

    pub fn set_network_bits(&mut self, value: bool)
        ensures
            *final(self) == (Settings { network_bits: value, ..*old(self) }),
    {
        self.network_bits = value;
    }

    pub fn show_logical_cpus(&self) -> (r: bool)
        ensures
            r == self.show_logical_cpus,
    {
        self.show_logical_cpus
    }

    pub fn set_show_logical_cpus(&mut self, value: bool)
        ensures
            *final(self) == (Settings { show_logical_cpus: value, ..*old(self) }),
    {
        self.show_logical_cpus = value;
    }
}

impl Default for Settings {
    /// The configuration assumed before any stored preference is read.
    fn default() -> (r: Settings)
        ensures
            r.base == Base::Decimal,
            r.temperature_unit == TemperatureUnit::Celsius,
            r.refresh_speed == RefreshSpeed::Normal,
            r.network_bits == false,
            r.show_logical_cpus == false,
    {
        Settings {
            base: Base::Decimal,
            temperature_unit: TemperatureUnit::Celsius,
            refresh_speed: RefreshSpeed::Normal,
            network_bits: false,
            show_logical_cpus: false,
        }
    }
}

} // verus!
