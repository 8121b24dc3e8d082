use crate::fields::ParamField;
use crate::text::same_text;
use vstd::prelude::*;

verus! {

/// Replacement cycle, in years, from which on a vehicle counts as never replaced.
pub const NEVER_REPLACE: u32 = 1000;

/// How the fuel cost of a scenario grows beyond the base cost.
#[derive(Clone, Copy, Debug, PartialEq, Eq, Hash)]
pub enum FuelMode {
    /// The uplift ramps up with the age of the vehicle.
    Normal,
    /// The full uplift of an old vehicle applies in every year.
    CheapUsed,
    /// Half the uplift of an old vehicle applies in every year.
    FourYrUsed,
}

impl FuelMode {
    /// The share of the uplift of an old vehicle that applies in every year, counted in
    /// halves; `None` where the uplift ramps up with the age of the vehicle instead.
    pub open spec fn uplift_halves(self) -> Option<u32> {
        match self {
            FuelMode::Normal => None,
            FuelMode::CheapUsed => Some(2u32),
            FuelMode::FourYrUsed => Some(1u32),
        }
    }

    /// Tells which share of the uplift of an old vehicle applies in every year, in halves:
    /// all of it for a cheap used vehicle, half of it for a four-year-old one, and `None`
    /// for a vehicle whose uplift ramps up with its age.
    pub fn fixed_uplift_halves(self) -> (halves: Option<u32>)
        ensures
            halves == self.uplift_halves(),
    {
        match self {
            FuelMode::Normal => None,
            FuelMode::CheapUsed => Some(2),
            FuelMode::FourYrUsed => Some(1),
        }
    }
}

/// One acquisition strategy: which parameters it reads and how the vehicle is replaced.
#[derive(Clone, Copy, Debug, PartialEq, Eq)]
pub struct ScenarioConfig {
    /// The price paid at each purchase.
    pub base_purchase: ParamField,
    /// Years between purchases; `NEVER_REPLACE` or more for a vehicle that is kept for good.
    pub replace_cycle: u32,
    /// The resale percentage of the vehicle given up at a replacement, if it is sold at all.
    pub resale_key: Option<ParamField>,
    /// The yearly base insurance.
    pub insurance_key: ParamField,
    /// The yearly base maintenance.
    pub maint_key: ParamField,
    /// The term of the loan taken at a purchase.
    pub loan_term_key: ParamField,
    /// The interest rate of the loan taken at a purchase.
    pub interest_rate_key: ParamField,
    /// Age of the vehicle, in years, when it is bought.
    pub start_age: u32,
    /// How the fuel cost grows.
    pub fuel_multiplier_mode: FuelMode,
}

/// A new vehicle, replaced every four years.
pub open spec fn new_4yr() -> ScenarioConfig {
    ScenarioConfig {
        base_purchase: ParamField::NewCarPrice,
        replace_cycle: 4,
        resale_key: Some(ParamField::NewResalePercent),
        insurance_key: ParamField::InsuranceNew,
        maint_key: ParamField::MaintNewBase,
        loan_term_key: ParamField::LoanTermYears,
        interest_rate_key: ParamField::InterestRate,
        start_age: 0,
        fuel_multiplier_mode: FuelMode::Normal,
    }
}

/// A new vehicle, replaced every ten years.
pub open spec fn new_10yr() -> ScenarioConfig {
    ScenarioConfig {
        base_purchase: ParamField::NewCarPrice,
        replace_cycle: 10,
        resale_key: Some(ParamField::NewResale10Percent),
        insurance_key: ParamField::InsuranceNew,
        maint_key: ParamField::MaintNewBase,
        loan_term_key: ParamField::LoanTermYears,
        interest_rate_key: ParamField::InterestRate,
        start_age: 0,
        fuel_multiplier_mode: FuelMode::Normal,
    }
}

/// A new vehicle, kept for good.
pub open spec fn new_forever() -> ScenarioConfig {
    ScenarioConfig {
        base_purchase: ParamField::NewCarPrice,
        replace_cycle: NEVER_REPLACE,
        resale_key: None,
        insurance_key: ParamField::InsuranceNew,
        maint_key: ParamField::MaintNewBase,
        loan_term_key: ParamField::LoanTermYears,
        interest_rate_key: ParamField::InterestRate,
        start_age: 0,
        fuel_multiplier_mode: FuelMode::Normal,
    }
}

/// A cheap used vehicle, eight years old when bought, replaced every ten years.
pub open spec fn cheap_used() -> ScenarioConfig {
    ScenarioConfig {
        base_purchase: ParamField::CheapUsedPrice,
        replace_cycle: 10,
        resale_key: Some(ParamField::UsedResalePercent),
        insurance_key: ParamField::InsuranceCheapUsed,
        maint_key: ParamField::MaintCheapUsedBase,
        loan_term_key: ParamField::UsedLoanTerm,
        interest_rate_key: ParamField::UsedInterestRate,
        start_age: 8,
        fuel_multiplier_mode: FuelMode::CheapUsed,
    }
}

/// A used vehicle, four years old when bought, replaced every ten years.
pub open spec fn four_yr_used() -> ScenarioConfig {
    ScenarioConfig {
        base_purchase: ParamField::FourYrUsedPrice,
        replace_cycle: 10,
        resale_key: Some(ParamField::UsedResalePercent),
        insurance_key: ParamField::Insurance4yrUsed,
        maint_key: ParamField::Maint4yrUsedBase,
        loan_term_key: ParamField::UsedLoanTerm,
        interest_rate_key: ParamField::UsedInterestRate,
        start_age: 4,
        fuel_multiplier_mode: FuelMode::FourYrUsed,
    }
}

/// Whether a key names one of the scenarios of the catalog.
pub open spec fn is_scenario_key(key: Seq<char>) -> bool {
    ||| key == "new4yr"@
    ||| key == "new10yr"@
    ||| key == "newForever"@
    ||| key == "cheapUsed"@
    ||| key == "fourYrUsed"@
}

/// The catalog: the configuration that a key names, `None` for any other key.
pub open spec fn catalog_entry(key: Seq<char>) -> Option<ScenarioConfig> {
    if key == "new4yr"@ {
        Some(new_4yr())
    } else if key == "new10yr"@ {
        Some(new_10yr())
    } else if key == "newForever"@ {
        Some(new_forever())
    } else if key == "cheapUsed"@ {
        Some(cheap_used())
    } else if key == "fourYrUsed"@ {
        Some(four_yr_used())
    } else {
        None
    }
}

impl ScenarioConfig {
    /// Whether the vehicle is kept for good.
    pub open spec fn keeps_forever(&self) -> bool {
        self.replace_cycle >= NEVER_REPLACE
    }

    /// What every configuration must meet: the cycle has at least one year, and a vehicle
    /// that is kept for good is bought new and never sold.
    pub open spec fn wf(&self) -> bool {
        &&& self.replace_cycle >= 1
        &&& self.keeps_forever() ==> self.resale_key is None && self.start_age == 0
    }

    /// Looks a scenario up by its key. Only the five keys of the catalog name a scenario.
    pub fn new(key: &str) -> (config: Option<ScenarioConfig>)
        ensures
            config == catalog_entry(key@),
            config is Some <==> is_scenario_key(key@),
            config matches Some(c) ==> c.wf(),
    {
        if same_text(key, "new4yr") {
            Some(
                ScenarioConfig {
                    base_purchase: ParamField::NewCarPrice,
                    replace_cycle: 4,
                    resale_key: Some(ParamField::NewResalePercent),
                    insurance_key: ParamField::InsuranceNew,
                    maint_key: ParamField::MaintNewBase,
                    loan_term_key: ParamField::LoanTermYears,
                    interest_rate_key: ParamField::InterestRate,
                    start_age: 0,
                    fuel_multiplier_mode: FuelMode::Normal,
                },
            )
        } else if same_text(key, "new10yr") {
            Some(
                ScenarioConfig {
                    base_purchase: ParamField::NewCarPrice,
                    replace_cycle: 10,
                    resale_key: Some(ParamField::NewResale10Percent),
                    insurance_key: ParamField::InsuranceNew,
                    maint_key: ParamField::MaintNewBase,
                    loan_term_key: ParamField::LoanTermYears,
                    interest_rate_key: ParamField::InterestRate,
                    start_age: 0,
                    fuel_multiplier_mode: FuelMode::Normal,
                },
            )
        } else if same_text(key, "newForever") {
            Some(
                ScenarioConfig {
                    base_purchase: ParamField::NewCarPrice,
                    replace_cycle: NEVER_REPLACE,
                    resale_key: None,
                    insurance_key: ParamField::InsuranceNew,
                    maint_key: ParamField::MaintNewBase,
                    loan_term_key: ParamField::LoanTermYears,
                    interest_rate_key: ParamField::InterestRate,
                    start_age: 0,
                    fuel_multiplier_mode: FuelMode::Normal,
                },
            )
        } else if same_text(key, "cheapUsed") {
            Some(
                ScenarioConfig {
                    base_purchase: ParamField::CheapUsedPrice,
                    replace_cycle: 10,
                    resale_key: Some(ParamField::UsedResalePercent),
                    insurance_key: ParamField::InsuranceCheapUsed,
                    maint_key: ParamField::MaintCheapUsedBase,
                    loan_term_key: ParamField::UsedLoanTerm,
                    interest_rate_key: ParamField::UsedInterestRate,
                    start_age: 8,
                    fuel_multiplier_mode: FuelMode::CheapUsed,
                },
            )
        } else if same_text(key, "fourYrUsed") {
            Some(
                ScenarioConfig {
                    base_purchase: ParamField::FourYrUsedPrice,
                    replace_cycle: 10,
                    resale_key: Some(ParamField::UsedResalePercent),
                    insurance_key: ParamField::Insurance4yrUsed,
                    maint_key: ParamField::Maint4yrUsedBase,
                    loan_term_key: ParamField::UsedLoanTerm,
                    interest_rate_key: ParamField::UsedInterestRate,
                    start_age: 4,
                    fuel_multiplier_mode: FuelMode::FourYrUsed,
                },
            )
        } else {
            None
        }
    }

    /// Tells whether the vehicle is kept for good.
    pub fn never_replaces(&self) -> (never: bool)
        ensures
            never == self.keeps_forever(),
    {
        self.replace_cycle >= NEVER_REPLACE
    }

    /// Checks a configuration that was put together by hand.
    pub fn is_well_formed(&self) -> (ok: bool)
        ensures
            ok == self.wf(),
    {
        self.replace_cycle >= 1 && (self.replace_cycle < NEVER_REPLACE || (self.resale_key.is_none()
            && self.start_age == 0))
    }
}

/// The five keys are told apart by their lengths and first characters.
proof fn keys_differ()
    ensures
        "new4yr"@.len() == 6,
        "new10yr"@.len() == 7,
        "newForever"@.len() == 10 && "newForever"@[0] == 'n',
        "cheapUsed"@.len() == 9,
        "fourYrUsed"@.len() == 10 && "fourYrUsed"@[0] == 'f',
{
    reveal_strlit("new4yr");
    reveal_strlit("new10yr");
    reveal_strlit("newForever");
    reveal_strlit("cheapUsed");
    reveal_strlit("fourYrUsed");
}

/// Each of the five keys names its own scenario.
pub proof fn catalog_holds_five_scenarios()
    ensures
        catalog_entry("new4yr"@) == Some(new_4yr()),
        catalog_entry("new10yr"@) == Some(new_10yr()),
        catalog_entry("newForever"@) == Some(new_forever()),
        catalog_entry("cheapUsed"@) == Some(cheap_used()),
        catalog_entry("fourYrUsed"@) == Some(four_yr_used()),
{
    keys_differ();
}

/// A key names a scenario exactly if it is one of the five, and every scenario of the
/// catalog is well formed.
pub proof fn catalog_entries_are_well_formed(key: Seq<char>)
    ensures
        catalog_entry(key) is Some <==> is_scenario_key(key),
        catalog_entry(key) matches Some(c) ==> c.wf(),
{
}

} // verus!
