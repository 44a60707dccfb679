//! The operating systems a device can come from, and what each can report.

use vstd::prelude::*;

verus! {

/// The operating system whose battery interface produced a reading.
#[derive(Clone, Copy, Debug, PartialEq, Eq, Structural)]
pub enum Platform {
    Linux,
    MacOS,
    Windows,
    FreeBSD,
}

impl Platform {
    /// Whether the platform can tell the battery's chemistry. MacOS cannot.
    pub open spec fn reports_technology_spec(self) -> bool {
        self != Platform::MacOS
    }

    /// Whether the platform can tell the battery's temperature. FreeBSD cannot.
    pub open spec fn reports_temperature_spec(self) -> bool {
        self != Platform::FreeBSD
    }

    /// Whether the platform counts charge cycles. FreeBSD does not.
    pub open spec fn reports_cycle_count_spec(self) -> bool {
        self != Platform::FreeBSD
    }

    /// Whether the platform can tell the battery's chemistry. MacOS cannot.
    #[verifier::when_used_as_spec(reports_technology_spec)]
    pub fn reports_technology(self) -> (known: bool)
        ensures
            known == self.reports_technology_spec(),
    {
        !matches!(self, Platform::MacOS)
    }

    /// Whether the platform can tell the battery's temperature. FreeBSD cannot.
    #[verifier::when_used_as_spec(reports_temperature_spec)]
    pub fn reports_temperature(self) -> (known: bool)
        ensures
            known == self.reports_temperature_spec(),
    {
        !matches!(self, Platform::FreeBSD)
    }

    /// Whether the platform counts charge cycles. FreeBSD does not.
    #[verifier::when_used_as_spec(reports_cycle_count_spec)]
    pub fn reports_cycle_count(self) -> (known: bool)
        ensures
            known == self.reports_cycle_count_spec(),
    {
        !matches!(self, Platform::FreeBSD)
    }
}

} // verus!
