//! The battery facade: one owned device behind a fixed set of accessors.

use vstd::prelude::*;
use vstd::std_specs::convert::FromSpec;
use vstd::string::StringExecFns;

use crate::device::{Device, DeviceView};
use crate::platform::Platform;
use crate::reading::{health_ratio, str_view, FULL_SCALE};
use crate::record::{dump_spec, fields_view, struct_text, struct_text_spec, Field};
use crate::render::{
    decimal, hundredths, optional_count, optional_temperature, optional_text, optional_time,
};
use crate::state::State;
use crate::technology::Technology;

verus! {

/// Instantaneous information about one battery.
///
/// The battery keeps nothing of its own: every accessor answers from the
/// device as it is at the moment of the call.
pub struct Battery(Device);

impl View for Battery {
    type V = DeviceView;

    open spec fn view(&self) -> DeviceView {
        self.device()@
    }
}

impl From<Device> for Battery {
    /// Wraps `inner` as it is.
    fn from(inner: Device) -> (battery: Battery)
        ensures
            battery.device() == inner,
            battery@.valid(),
    {
        proof {
            use_type_invariant(&inner);
        }
        Battery(inner)
    }
}

impl vstd::std_specs::convert::FromSpecImpl<Device> for Battery {
    open spec fn obeys_from_spec() -> bool {
        true
    }

    closed spec fn from_spec(inner: Device) -> Battery {
        Battery(inner)
    }
}

impl Battery {
    /// The device this battery owns.
    pub closed spec fn device(&self) -> Device {
        self.0
    }

    /// The battery made from a device owns that device.
    pub proof fn lemma_from_wraps(inner: Device)
        ensures
            <Battery as FromSpec<Device>>::from_spec(inner).device() == inner,
    {
    }

    /// The device this battery owns, for reading.
    pub fn get_ref(&self) -> (device: &Device)
        ensures
            *device == self.device(),
            self@.valid(),
    {
        proof {
            use_type_invariant(&self.0);
        }
        &self.0
    }

    /// The device this battery owns, for bringing it up to date in place:
    /// what the caller leaves in it is what the battery then answers from.
    pub fn get_mut_ref(&mut self) -> (device: &mut Device)
        ensures
            *device == old(self).device(),
            final(self).device() == *final(device),
    {
        &mut self.0
    }

    /// State of charge, in hundredths of a percent: between 0 % and 100 %.
    pub fn percentage(&self) -> (percentage: u32)
        ensures
            percentage == self@.reading.percentage,
            percentage <= FULL_SCALE,
    {
        self.0.percentage()
    }

    /// Energy currently stored, in mWh.
    pub fn energy(&self) -> (energy: u32)
        ensures
            energy == self@.reading.energy,
    {
        self.0.energy()
    }

    /// Energy held when full, in mWh.
    pub fn energy_full(&self) -> (energy_full: u32)
        ensures
            energy_full == self@.reading.energy_full,
    {
        self.0.energy_full()
    }

    /// Energy the battery was designed to hold when full, in mWh.
    pub fn energy_full_design(&self) -> (energy_full_design: u32)
        ensures
            energy_full_design == self@.reading.energy_full_design,
    {
        self.0.energy_full_design()
    }

    /// Power flowing into or out of the battery, in mW.
    pub fn energy_rate(&self) -> (energy_rate: u32)
        ensures
            energy_rate == self@.reading.energy_rate,
    {
        self.0.energy_rate()
    }

    /// Terminal voltage, in mV.
    pub fn voltage(&self) -> (voltage: u32)
        ensures
            voltage == self@.reading.voltage,
    {
        self.0.voltage()
    }

    /// Full-charge energy relative to the design value, in hundredths of a
    /// percent: between 0 % and 100 %, and the health ratio of the two energies
    /// wherever the design energy is nonzero.
    pub fn capacity(&self) -> (capacity: u32)
        ensures
            capacity == self@.reading.capacity,
            capacity <= FULL_SCALE,
            self@.reading.energy_full_design != 0 ==> capacity as int == health_ratio(
                self@.reading.energy_full as int,
                self@.reading.energy_full_design as int,
            ),
    {
        self.0.capacity()
    }

    /// Charging state.
    pub fn state(&self) -> (state: State)
        ensures
            state == self@.reading.state,
    {
        self.0.state()
    }

    /// Battery chemistry; `Unknown` on a platform that cannot tell it.
    pub fn technology(&self) -> (technology: Technology)
        ensures
            technology == self@.reading.technology,
            !self@.platform.reports_technology() ==> technology == Technology::Unknown,
    {
        self.0.technology()
    }

    /// Temperature in hundredths of a degree Celsius; absent on a platform that
    /// cannot tell it.
    pub fn temperature(&self) -> (temperature: Option<i32>)
        ensures
            temperature == self@.reading.temperature,
            !self@.platform.reports_temperature() ==> temperature.is_none(),
    {
        self.0.temperature()
    }

    /// Number of charge and discharge cycles; absent on a platform that does
    /// not count them.
    pub fn cycle_count(&self) -> (cycle_count: Option<u32>)
        ensures
            cycle_count == self@.reading.cycle_count,
            !self@.platform.reports_cycle_count() ==> cycle_count.is_none(),
    {
        self.0.cycle_count()
    }

    /// Manufacturer, where the hardware names one.
    pub fn vendor(&self) -> (vendor: Option<&str>)
        ensures
            str_view(vendor) == self@.reading.vendor,
    {
        self.0.vendor()
    }

    /// Model name, where the hardware names one.
    pub fn model(&self) -> (model: Option<&str>)
        ensures
            str_view(model) == self@.reading.model,
    {
        self.0.model()
    }

    /// Serial number, where the hardware names one.
    pub fn serial_number(&self) -> (serial_number: Option<&str>)
        ensures
            str_view(serial_number) == self@.reading.serial_number,
    {
        self.0.serial_number()
    }

    /// Estimated seconds until the battery is full; absent unless it is charging.
    ///
    /// The estimate is instantaneous: smoothing over several readings is left
    /// to the caller.
    pub fn time_to_full(&self) -> (time_to_full: Option<u64>)
        ensures
            time_to_full == self@.reading.time_to_full,
            self@.reading.state != State::Charging ==> time_to_full.is_none(),
    {
        self.0.time_to_full()
    }

    /// Estimated seconds until the battery is empty; absent unless it is
    /// discharging.
    ///
    /// The estimate is instantaneous: smoothing over several readings is left
    /// to the caller.
    pub fn time_to_empty(&self) -> (time_to_empty: Option<u64>)
        ensures
            time_to_empty == self@.reading.time_to_empty,
            self@.reading.state != State::Discharging ==> time_to_empty.is_none(),
    {
        self.0.time_to_empty()
    }

    /// The state of charge and the capacity of a battery lie between 0 % and
    /// 100 %.
    pub proof fn lemma_ratios_in_range(&self)
        requires
            self@.valid(),
        ensures
            0 <= self@.reading.percentage <= FULL_SCALE,
            0 <= self@.reading.capacity <= FULL_SCALE,
    {
    }

    /// Wherever the design energy of a battery is nonzero, its capacity is the
    /// full-charge energy over the design energy as a percentage: the quotient
    /// rounded down to a hundredth of a percent, and 100 % where the battery
    /// holds at least what it was designed for.
    pub proof fn lemma_capacity_follows_energy(&self)
        requires
            self@.valid(),
            self@.reading.energy_full_design != 0,
        ensures
            self@.reading.capacity as int == health_ratio(
                self@.reading.energy_full as int,
                self@.reading.energy_full_design as int,
            ),
            self@.reading.energy_full >= self@.reading.energy_full_design
                ==> self@.reading.capacity == FULL_SCALE,
            self@.reading.energy_full < self@.reading.energy_full_design ==> {
                &&& self@.reading.capacity * self@.reading.energy_full_design
                    <= self@.reading.energy_full * FULL_SCALE
                &&& self@.reading.energy_full * FULL_SCALE < (self@.reading.capacity + 1)
                    * self@.reading.energy_full_design
            },
    {
        let full = self@.reading.energy_full as int;
        let design = self@.reading.energy_full_design as int;
        let scaled = full * FULL_SCALE as int;
        vstd::arithmetic::div_mod::lemma_fundamental_div_mod(scaled, design);
        vstd::arithmetic::div_mod::lemma_mod_bound(scaled, design);
        assert((scaled / design + 1) * design == (scaled / design) * design + design)
            by (nonlinear_arith);
        if full >= design {
            assert(scaled / design >= FULL_SCALE as int) by (nonlinear_arith)
                requires
                    design > 0,
                    full >= design,
                    scaled == full * FULL_SCALE as int,
                    scaled < (scaled / design + 1) * design,
            ;
        } else {
            assert(scaled / design < FULL_SCALE as int) by (nonlinear_arith)
                requires
                    design > 0,
                    full < design,
                    scaled == full * FULL_SCALE as int,
                    (scaled / design) * design <= scaled,
            ;
        }
    }

    /// A battery gives no time to full unless it is charging, and no time to
    /// empty unless it is discharging.
    pub proof fn lemma_times_follow_state(&self)
        requires
            self@.valid(),
        ensures
            self@.reading.state != State::Charging ==> self@.reading.time_to_full.is_none(),
            self@.reading.state != State::Discharging ==> self@.reading.time_to_empty.is_none(),
    {
    }

    /// On MacOS, which cannot tell the chemistry, the technology of a battery
    /// is `Unknown`, whatever else it reports.
    pub proof fn lemma_technology_unknown_on_macos(&self)
        requires
            self@.valid(),
            self@.platform == Platform::MacOS,
        ensures
            self@.reading.technology == Technology::Unknown,
    {
    }

    /// On FreeBSD, which reports neither, a battery has no temperature and no
    /// cycle count, whatever else it reports.
    pub proof fn lemma_no_thermal_data_on_freebsd(&self)
        requires
            self@.valid(),
            self@.platform == Platform::FreeBSD,
        ensures
            self@.reading.temperature.is_none(),
            self@.reading.cycle_count.is_none(),
    {
    }

    /// The diagnostic dump: every accessor's answer as text under the
    /// accessor's name, each asked once, in a fixed order. Identity comes
    /// first, then condition, energy and charge times.
    pub fn debug_fields(&self) -> (fields: Vec<Field>)
        ensures
            fields_view(fields@) == dump_spec(self@),
    {
        let mut fields: Vec<Field> = Vec::new();
        fields.push(Field { name: "vendor", value: optional_text(self.vendor()) });
        fields.push(Field { name: "model", value: optional_text(self.model()) });
        fields.push(Field { name: "serial_number", value: optional_text(self.serial_number()) });
        fields.push(Field { name: "technology", value: String::from_str(self.technology().name()) });
        fields.push(Field { name: "state", value: String::from_str(self.state().name()) });
        fields.push(Field { name: "capacity", value: hundredths(self.capacity() as u64) });
        fields.push(Field { name: "temperature", value: optional_temperature(self.temperature()) });
        fields.push(Field { name: "percentage", value: hundredths(self.percentage() as u64) });
        fields.push(Field { name: "cycle_count", value: optional_count(self.cycle_count()) });
        fields.push(Field { name: "energy", value: decimal(self.energy() as u64) });
        fields.push(Field { name: "energy_full", value: decimal(self.energy_full() as u64) });
        fields.push(
            Field { name: "energy_full_design", value: decimal(self.energy_full_design() as u64) },
        );
        fields.push(Field { name: "energy_rate", value: decimal(self.energy_rate() as u64) });
        fields.push(Field { name: "voltage", value: decimal(self.voltage() as u64) });
        fields.push(Field { name: "time_to_full", value: optional_time(self.time_to_full()) });
        fields.push(Field { name: "time_to_empty", value: optional_time(self.time_to_empty()) });
        assert(fields_view(fields@) =~= dump_spec(self@));
        fields
    }

    /// The diagnostic dump on one line, as `Battery { vendor: .., .. }`.
    pub fn debug_string(&self) -> (text: String)
        ensures
            text@ == struct_text_spec("Battery"@, dump_spec(self@)),
    {
        let fields = self.debug_fields();
        struct_text("Battery", &fields)
    }
}

} // verus!
