//! One battery as a platform presents it.

use vstd::prelude::*;

use crate::platform::Platform;
use crate::reading::{health_ratio, str_view, Reading, ReadingView, FULL_SCALE};
use crate::state::State;
use crate::technology::Technology;

verus! {

/// The handle a platform gives for one battery: the platform it comes from
/// and the latest reading, which is one that platform can produce.
#[derive(Debug)]
pub struct Device {
    platform: Platform,
    reading: Reading,
}

/// The mathematical content of a [`Device`].
pub struct DeviceView {
    pub platform: Platform,
    pub reading: ReadingView,
}

impl DeviceView {
    /// The reading is one the platform can produce.
    pub open spec fn valid(self) -> bool {
        self.reading.admissible(self.platform)
    }
}

impl View for Device {
    type V = DeviceView;

    closed spec fn view(&self) -> DeviceView {
        DeviceView { platform: self.platform, reading: self.reading@ }
    }
}

impl Device {
    /// Every device is valid, at every moment.
    #[verifier::type_invariant]
    pub open spec fn inv(self) -> bool {
        self@.valid()
    }

    /// Makes a device of `platform` that holds `reading`, if the platform
    /// can produce such a reading; otherwise there is no such device.
    pub fn new(platform: Platform, reading: Reading) -> (device: Option<Device>)
        ensures
            device.is_some() == reading@.admissible(platform),
            device matches Some(d) ==> d@ == (DeviceView { platform, reading: reading@ })
                && d@.valid(),
    {
        if reading.is_admissible(platform) {
            Some(Device { platform, reading })
        } else {
            None
        }
    }

    /// The platform the device comes from.
    pub fn platform(&self) -> (platform: Platform)
        ensures
            platform == self@.platform,
            self@.valid(),
    {
        proof {
            use_type_invariant(self);
        }
        self.platform
    }

    /// State of charge, in hundredths of a percent: between 0 % and 100 %.
    pub fn percentage(&self) -> (percentage: u32)
        ensures
            percentage == self@.reading.percentage,
            percentage <= FULL_SCALE,
    {
        proof {
            use_type_invariant(self);
        }
        self.reading.percentage
    }

    /// Energy currently stored, in mWh.
    pub fn energy(&self) -> (energy: u32)
        ensures
            energy == self@.reading.energy,
    {
        self.reading.energy
    }

    /// Energy held when full, in mWh.
    pub fn energy_full(&self) -> (energy_full: u32)
        ensures
            energy_full == self@.reading.energy_full,
    {
        self.reading.energy_full
    }

    /// Energy the battery was designed to hold when full, in mWh.
    pub fn energy_full_design(&self) -> (energy_full_design: u32)
        ensures
            energy_full_design == self@.reading.energy_full_design,
    {
        self.reading.energy_full_design
    }

    /// Power flowing into or out of the battery, in mW.
    pub fn energy_rate(&self) -> (energy_rate: u32)
        ensures
            energy_rate == self@.reading.energy_rate,
    {
        self.reading.energy_rate
    }

    /// Terminal voltage, in mV.
    pub fn voltage(&self) -> (voltage: u32)
        ensures
            voltage == self@.reading.voltage,
    {
        self.reading.voltage
    }

    /// Full-charge energy relative to the design value, in hundredths of a
    /// percent: between 0 % and 100 %, and the health ratio of the two energies
    /// wherever the design energy is nonzero.
    pub fn capacity(&self) -> (capacity: u32)
        ensures
            capacity == self@.reading.capacity,
            capacity <= FULL_SCALE,
            self@.reading.energy_full_design != 0 ==> capacity as int == health_ratio(
                self@.reading.energy_full as int,
                self@.reading.energy_full_design as int,
            ),
    {
        proof {
            use_type_invariant(self);
        }
        self.reading.capacity
    }

    /// Charging state.
    pub fn state(&self) -> (state: State)
        ensures
            state == self@.reading.state,
    {
        self.reading.state
    }

    /// Battery chemistry; `Unknown` on a platform that cannot tell it.
    pub fn technology(&self) -> (technology: Technology)
        ensures
            technology == self@.reading.technology,
            !self@.platform.reports_technology() ==> technology == Technology::Unknown,
    {
        proof {
            use_type_invariant(self);
        }
        self.reading.technology
    }

    /// Temperature in hundredths of a degree Celsius; absent on a platform that
    /// cannot tell it.
    pub fn temperature(&self) -> (temperature: Option<i32>)
        ensures
            temperature == self@.reading.temperature,
            !self@.platform.reports_temperature() ==> temperature.is_none(),
    {
        proof {
            use_type_invariant(self);
        }
        self.reading.temperature
    }

    /// Number of charge and discharge cycles; absent on a platform that does
    /// not count them.
    pub fn cycle_count(&self) -> (cycle_count: Option<u32>)
        ensures
            cycle_count == self@.reading.cycle_count,
            !self@.platform.reports_cycle_count() ==> cycle_count.is_none(),
    {
        proof {
            use_type_invariant(self);
        }
        self.reading.cycle_count
    }

    /// Manufacturer, where the hardware names one.
    pub fn vendor(&self) -> (vendor: Option<&str>)
        ensures
            str_view(vendor) == self@.reading.vendor,
    {
        match &self.reading.vendor {
            Some(text) => Some(text.as_str()),
            None => None,
        }
    }

    /// Model name, where the hardware names one.
    pub fn model(&self) -> (model: Option<&str>)
        ensures
            str_view(model) == self@.reading.model,
    {
        match &self.reading.model {
            Some(text) => Some(text.as_str()),
            None => None,
        }
    }

    /// Serial number, where the hardware names one.
    pub fn serial_number(&self) -> (serial_number: Option<&str>)
        ensures
            str_view(serial_number) == self@.reading.serial_number,
    {
        match &self.reading.serial_number {
            Some(text) => Some(text.as_str()),
            None => None,
        }
    }

    /// Estimated seconds until the battery is full; absent unless it is charging.
    pub fn time_to_full(&self) -> (time_to_full: Option<u64>)
        ensures
            time_to_full == self@.reading.time_to_full,
            self@.reading.state != State::Charging ==> time_to_full.is_none(),
    {
        proof {
            use_type_invariant(self);
        }
        self.reading.time_to_full
    }

    /// Estimated seconds until the battery is empty; absent unless it is
    /// discharging.
    pub fn time_to_empty(&self) -> (time_to_empty: Option<u64>)
        ensures
            time_to_empty == self@.reading.time_to_empty,
            self@.reading.state != State::Discharging ==> time_to_empty.is_none(),
    {
        proof {
            use_type_invariant(self);
        }
        self.reading.time_to_empty
    }
}

} // verus!
