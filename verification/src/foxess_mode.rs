//! Fox ESS working modes.

use vstd::prelude::*;

verus! {

/// Working modes per the Fox ESS API; titles per the Fox Cloud app.
#[derive(Clone, Copy, PartialEq, Eq, Structural, Debug)]
pub enum WorkingMode {
    SelfUse,
    LoadPriority,
    ForcedCharge,
    ForcedDischarge,
    BatteryPriority,
    EasyMode,
}

impl WorkingMode {
    /// Title of the mode in the Fox Cloud app.
    pub fn title(self) -> (title: &'static str)
        ensures
            title@ == match self {
                WorkingMode::SelfUse => "Self-use"@,
                WorkingMode::LoadPriority => "Load priority"@,
                WorkingMode::ForcedCharge => "Forced charge"@,
                WorkingMode::ForcedDischarge => "Forced discharge"@,
                WorkingMode::BatteryPriority => "Battery priority"@,
                WorkingMode::EasyMode => "Easy mode"@,
            },
    {
        match self {
            WorkingMode::SelfUse => "Self-use",
            WorkingMode::LoadPriority => "Load priority",
            WorkingMode::ForcedCharge => "Forced charge",
            WorkingMode::ForcedDischarge => "Forced discharge",
            WorkingMode::BatteryPriority => "Battery priority",
            WorkingMode::EasyMode => "Easy mode",
        }
    }

    /// Name of the mode in the Fox ESS API.
    pub fn api_name(self) -> (name: &'static str)
        ensures
            name@ == match self {
                WorkingMode::SelfUse => "SelfUse"@,
                WorkingMode::LoadPriority => "Feedin"@,
                WorkingMode::ForcedCharge => "ForceCharge"@,
                WorkingMode::ForcedDischarge => "ForceDischarge"@,
                WorkingMode::BatteryPriority => "Backup"@,
                WorkingMode::EasyMode => "EasyMode"@,
            },
    {
        match self {
            WorkingMode::SelfUse => "SelfUse",
            WorkingMode::LoadPriority => "Feedin",
            WorkingMode::ForcedCharge => "ForceCharge",
            WorkingMode::ForcedDischarge => "ForceDischarge",
            WorkingMode::BatteryPriority => "Backup",
            WorkingMode::EasyMode => "EasyMode",
        }
    }
}

} // verus!
