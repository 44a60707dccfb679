//! Battery chemistry.

use vstd::prelude::*;

verus! {

/// The chemistry of a battery, as far as the platform can tell.
#[derive(Clone, Copy, Debug, PartialEq, Eq, Structural)]
pub enum Technology {
    Unknown,
    LithiumIon,
    LeadAcid,
    LithiumPolymer,
    NickelMetalHydride,
    NickelCadmium,
    NickelZinc,
    LithiumIronPhosphate,
    RechargeableAlkalineManganese,
}

impl Technology {
    /// The variant's name, as it appears in a diagnostic dump.
    pub open spec fn name_spec(self) -> Seq<char> {
        match self {
            Technology::Unknown => "Unknown"@,
            Technology::LithiumIon => "LithiumIon"@,
            Technology::LeadAcid => "LeadAcid"@,
            Technology::LithiumPolymer => "LithiumPolymer"@,
            Technology::NickelMetalHydride => "NickelMetalHydride"@,
            Technology::NickelCadmium => "NickelCadmium"@,
            Technology::NickelZinc => "NickelZinc"@,
            Technology::LithiumIronPhosphate => "LithiumIronPhosphate"@,
            Technology::RechargeableAlkalineManganese => "RechargeableAlkalineManganese"@,
        }
    }

    /// The variant's name, as it appears in a diagnostic dump.
    pub fn name(self) -> (text: &'static str)
        ensures
            text@ == self.name_spec(),
    {
        match self {
            Technology::Unknown => "Unknown",
            Technology::LithiumIon => "LithiumIon",
            Technology::LeadAcid => "LeadAcid",
            Technology::LithiumPolymer => "LithiumPolymer",
            Technology::NickelMetalHydride => "NickelMetalHydride",
            Technology::NickelCadmium => "NickelCadmium",
            Technology::NickelZinc => "NickelZinc",
            Technology::LithiumIronPhosphate => "LithiumIronPhosphate",
            Technology::RechargeableAlkalineManganese => "RechargeableAlkalineManganese",
        }
    }
}

} // verus!
