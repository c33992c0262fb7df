use vstd::prelude::*;
use vstd::string::StringExecFns;

verus! {

/// Percentages at which the chicken module reacts. A value below zero
/// switches the corresponding reaction off.
#[derive(Debug, Clone, Copy, PartialEq, Eq, Structural)]
pub struct ChickenSettings {
    pub town_life: i32,
    pub town_mana: i32,
    pub exit_life: i32,
    pub exit_mana: i32,
    pub potion_life: i32,
    pub rejuv_life: i32,
    pub potion_mana: i32,
    pub rejuv_mana: i32,
}

impl ChickenSettings {
    /// All thresholds at zero: every reaction is on and fires at 0 %.
    pub open spec fn zeroed() -> ChickenSettings {
        ChickenSettings {
            town_life: 0,
            town_mana: 0,
            exit_life: 0,
            exit_mana: 0,
            potion_life: 0,
            rejuv_life: 0,
            potion_mana: 0,
            rejuv_mana: 0,
        }
    }
}

/// The user settings, read from a JSON file whose path the record keeps.
#[derive(Debug)]
pub struct Settings {
    pub chicken: ChickenSettings,
    file_name: String,
}

impl Settings {
    /// The chicken thresholds.
    pub closed spec fn spec_chicken(&self) -> ChickenSettings {
        self.chicken
    }

    /// The path of the JSON file the settings are read from.
    pub closed spec fn spec_file_name(&self) -> Seq<char> {
        self.file_name@
    }

    /// Settings bound to `file_name`, with every chicken threshold at zero.
    pub fn new(file_name: &str) -> (res: Settings)
        ensures
            res.spec_chicken() == ChickenSettings::zeroed(),
            res.spec_file_name() == file_name@,
    {
        Settings {
            chicken: ChickenSettings {
                town_life: 0,
                town_mana: 0,
                exit_life: 0,
                exit_mana: 0,
                potion_life: 0,
                rejuv_life: 0,
                potion_mana: 0,
                rejuv_mana: 0,
            },
            file_name: String::from_str(file_name),
        }
    }

    /// The chicken thresholds.
    pub fn chicken(&self) -> (res: &ChickenSettings)
        ensures
            *res == self.spec_chicken(),
    {
        &self.chicken
    }

    /// The path of the JSON file the settings are read from.
    pub fn file_name(&self) -> (res: &str)
        ensures
            res@ == self.spec_file_name(),
    {
        self.file_name.as_str()
    }
}

} // verus!
