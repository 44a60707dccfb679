//! What a platform reports about one battery at one instant.
//!
//! Ratios are fixed-point: percentages are counted in hundredths of a percent,
//! so `10_000` is 100 %, and temperatures in hundredths of a degree Celsius.

use vstd::prelude::*;

use crate::platform::Platform;
use crate::state::State;
use crate::technology::Technology;

verus! {

/// 100 %, in hundredths of a percent.
pub const FULL_SCALE: u32 = 10_000;

/// One report of a battery's identity and condition, as plain values.
#[derive(Debug)]
pub struct Reading {
    /// Manufacturer, where the hardware names one.
    pub vendor: Option<String>,
    /// Model name, where the hardware names one.
    pub model: Option<String>,
    /// Serial number, where the hardware names one.
    pub serial_number: Option<String>,
    /// Battery chemistry.
    pub technology: Technology,
    /// Charging state.
    pub state: State,
    /// Full-charge energy relative to the design value, in hundredths of a percent.
    pub capacity: u32,
    /// Temperature in hundredths of a degree Celsius.
    pub temperature: Option<i32>,
    /// State of charge, in hundredths of a percent.
    pub percentage: u32,
    /// Number of charge and discharge cycles.
    pub cycle_count: Option<u32>,
    /// Energy currently stored, in mWh.
    pub energy: u32,
    /// Energy held when full, in mWh.
    pub energy_full: u32,
    /// Energy the battery was designed to hold when full, in mWh.
    pub energy_full_design: u32,
    /// Power flowing into or out of the battery, in mW.
    pub energy_rate: u32,
    /// Terminal voltage, in mV.
    pub voltage: u32,
    /// Estimated seconds until the battery is full.
    pub time_to_full: Option<u64>,
    /// Estimated seconds until the battery is empty.
    pub time_to_empty: Option<u64>,
}

/// The mathematical content of a [`Reading`]: texts as character sequences.
pub struct ReadingView {
    pub vendor: Option<Seq<char>>,
    pub model: Option<Seq<char>>,
    pub serial_number: Option<Seq<char>>,
    pub technology: Technology,
    pub state: State,
    pub capacity: u32,
    pub temperature: Option<i32>,
    pub percentage: u32,
    pub cycle_count: Option<u32>,
    pub energy: u32,
    pub energy_full: u32,
    pub energy_full_design: u32,
    pub energy_rate: u32,
    pub voltage: u32,
    pub time_to_full: Option<u64>,
    pub time_to_empty: Option<u64>,
}

/// The characters of an optional text.
pub open spec fn text_view(text: Option<String>) -> Option<Seq<char>> {
    match text {
        Some(s) => Some(s@),
        None => None,
    }
}

/// The characters of an optional borrowed text.
pub open spec fn str_view(text: Option<&str>) -> Option<Seq<char>> {
    match text {
        Some(s) => Some(s@),
        None => None,
    }
}

impl View for Reading {
    type V = ReadingView;

    open spec fn view(&self) -> ReadingView {
        ReadingView {
            vendor: text_view(self.vendor),
            model: text_view(self.model),
            serial_number: text_view(self.serial_number),
            technology: self.technology,
            state: self.state,
            capacity: self.capacity,
            temperature: self.temperature,
            percentage: self.percentage,
            cycle_count: self.cycle_count,
            energy: self.energy,
            energy_full: self.energy_full,
            energy_full_design: self.energy_full_design,
            energy_rate: self.energy_rate,
            voltage: self.voltage,
            time_to_full: self.time_to_full,
            time_to_empty: self.time_to_empty,
        }
    }
}

/// `energy_full / energy_full_design` as hundredths of a percent, rounded down
/// and capped at 100 %. Meaningful for a nonzero design energy.
pub open spec fn health_ratio(energy_full: int, energy_full_design: int) -> int
    recommends
        energy_full_design > 0,
{
    let ratio = energy_full * FULL_SCALE as int / energy_full_design;
    if ratio > FULL_SCALE as int {
        FULL_SCALE as int
    } else {
        ratio
    }
}

/// `energy_full / energy_full_design` as hundredths of a percent, rounded down
/// and capped at 100 %; `None` where the design energy is zero and the ratio
/// has no value.
pub fn capacity_from_energy(energy_full: u32, energy_full_design: u32) -> (capacity: Option<u32>)
    ensures
        energy_full_design == 0 ==> capacity.is_none(),
        energy_full_design != 0 ==> capacity == Some(
            health_ratio(energy_full as int, energy_full_design as int) as u32,
        ),
        capacity matches Some(c) ==> c <= FULL_SCALE,
{
    if energy_full_design == 0 {
        return None;
    }
    assert(energy_full as u64 * FULL_SCALE as u64 <= u64::MAX) by (nonlinear_arith)
        requires
            energy_full as u64 <= u32::MAX,
            FULL_SCALE == 10_000,
    ;
    let scaled: u64 = energy_full as u64 * FULL_SCALE as u64;
    let ratio: u64 = scaled / energy_full_design as u64;
    if ratio > FULL_SCALE as u64 {
        Some(FULL_SCALE)
    } else {
        Some(ratio as u32)
    }
}

impl ReadingView {
    /// Both ratios lie between 0 % and 100 %.
    pub open spec fn ratios_in_range(self) -> bool {
        self.percentage <= FULL_SCALE && self.capacity <= FULL_SCALE
    }

    /// The capacity is the health ratio of the two full-charge energies,
    /// wherever the design energy is nonzero.
    pub open spec fn capacity_follows_energy(self) -> bool {
        self.energy_full_design != 0 ==> self.capacity as int == health_ratio(
            self.energy_full as int,
            self.energy_full_design as int,
        )
    }

    /// A time to full is given only while charging, a time to empty only
    /// while discharging.
    pub open spec fn times_follow_state(self) -> bool {
        &&& self.time_to_full.is_some() ==> self.state == State::Charging
        &&& self.time_to_empty.is_some() ==> self.state == State::Discharging
    }

    /// Nothing is given that the platform cannot report.
    pub open spec fn within_platform(self, platform: Platform) -> bool {
        &&& !platform.reports_technology() ==> self.technology == Technology::Unknown
        &&& !platform.reports_temperature() ==> self.temperature.is_none()
        &&& !platform.reports_cycle_count() ==> self.cycle_count.is_none()
    }

    /// Whether a device of `platform` can hold this reading.
    pub open spec fn admissible(self, platform: Platform) -> bool {
        &&& self.ratios_in_range()
        &&& self.capacity_follows_energy()
        &&& self.times_follow_state()
        &&& self.within_platform(platform)
    }
}

impl Reading {
    /// Whether a device of `platform` can hold this reading.
    pub fn is_admissible(&self, platform: Platform) -> (ok: bool)
        ensures
            ok == self@.admissible(platform),
    {
        let ratios: bool = self.percentage <= FULL_SCALE && self.capacity <= FULL_SCALE;
        let capacity: bool = match capacity_from_energy(self.energy_full, self.energy_full_design) {
            Some(expected) => self.capacity == expected,
            None => true,
        };
        let full: bool = self.time_to_full.is_none() || self.state == State::Charging;
        let empty: bool = self.time_to_empty.is_none() || self.state == State::Discharging;
        let technology: bool = platform.reports_technology()
            || self.technology == Technology::Unknown;
        let temperature: bool = platform.reports_temperature() || self.temperature.is_none();
        let cycles: bool = platform.reports_cycle_count() || self.cycle_count.is_none();
        ratios && capacity && full && empty && technology && temperature && cycles
    }
}

} // verus!
