use crate::text::same_text;
use vstd::prelude::*;

verus! {

/// A numeric field of the parameter set that can be addressed by its name.
#[derive(Clone, Copy, Debug, PartialEq, Eq, Hash)]
pub enum ParamField {
    /// Price of a new vehicle.
    NewCarPrice,
    /// Price of a cheap used vehicle.
    CheapUsedPrice,
    /// Price of a four-year-old used vehicle.
    FourYrUsedPrice,
    /// Sales tax, in percent of the price.
    SalesTax,
    /// Registration fee charged at purchase.
    RegFees,
    /// Resale value of a new vehicle after a short cycle, in percent of its price.
    NewResalePercent,
    /// Resale value of a new vehicle after a long cycle, in percent of its price.
    NewResale10Percent,
    /// Resale value of a used vehicle, in percent of its price.
    UsedResalePercent,
    /// Yearly insurance of a new vehicle.
    InsuranceNew,
    /// Yearly insurance of a cheap used vehicle.
    InsuranceCheapUsed,
    /// Yearly insurance of a four-year-old used vehicle.
    Insurance4yrUsed,
    /// Yearly base maintenance of a new vehicle.
    MaintNewBase,
    /// Yearly base maintenance of a cheap used vehicle.
    MaintCheapUsedBase,
    /// Yearly base maintenance of a four-year-old used vehicle.
    Maint4yrUsedBase,
    /// Loan term for a new vehicle, in years.
    LoanTermYears,
    /// Yearly interest rate on a loan for a new vehicle, in percent.
    InterestRate,
    /// Loan term for a used vehicle, in years.
    UsedLoanTerm,
    /// Yearly interest rate on a loan for a used vehicle, in percent.
    UsedInterestRate,
    /// Growth of maintenance per year of vehicle age, in percent.
    MaintIncreaseRate,
    /// Upper limit of the maintenance growth factor.
    MaintCapMult,
    /// Yearly base fuel cost.
    FuelCostYear,
    /// Fuel cost uplift of an old vehicle, in percent.
    FuelPenaltyOld,
    /// Vehicle age at which the fuel uplift starts to ramp up.
    FuelPenaltyStart,
    /// Years over which the fuel uplift ramps up.
    FuelPenaltyRamp,
    /// Yearly registration renewal, in percent of the registration fee.
    AnnualRegRate,
    /// Insurance factor of the oldest age band, in percent.
    InsAgeFactor3,
    /// Insurance factor of the middle age band, in percent.
    InsAgeFactor2,
    /// Insurance factor of the youngest aged band, in percent.
    InsAgeFactor1,
    /// Down payment, in percent of the purchase total.
    DownPaymentPct,
    /// Yearly inflation, in percent.
    Inflation,
}

impl ParamField {
    /// The name under which the field is addressed.
    pub open spec fn name_text(self) -> Seq<char> {
        match self {
            ParamField::NewCarPrice => "newCarPrice"@,
            ParamField::CheapUsedPrice => "cheapUsedPrice"@,
            ParamField::FourYrUsedPrice => "fourYrUsedPrice"@,
            ParamField::SalesTax => "salesTax"@,
            ParamField::RegFees => "regFees"@,
            ParamField::NewResalePercent => "newResalePercent"@,
            ParamField::NewResale10Percent => "newResale10Percent"@,
            ParamField::UsedResalePercent => "usedResalePercent"@,
            ParamField::InsuranceNew => "insuranceNew"@,
            ParamField::InsuranceCheapUsed => "insuranceCheapUsed"@,
            ParamField::Insurance4yrUsed => "insurance4yrUsed"@,
            ParamField::MaintNewBase => "maintNewBase"@,
            ParamField::MaintCheapUsedBase => "maintCheapUsedBase"@,
            ParamField::Maint4yrUsedBase => "maint4yrUsedBase"@,
            ParamField::LoanTermYears => "loanTermYears"@,
            ParamField::InterestRate => "interestRate"@,
            ParamField::UsedLoanTerm => "usedLoanTerm"@,
            ParamField::UsedInterestRate => "usedInterestRate"@,
            ParamField::MaintIncreaseRate => "maintIncreaseRate"@,
            ParamField::MaintCapMult => "maintCapMult"@,
            ParamField::FuelCostYear => "fuelCostYear"@,
            ParamField::FuelPenaltyOld => "fuelPenaltyOld"@,
            ParamField::FuelPenaltyStart => "fuelPenaltyStart"@,
            ParamField::FuelPenaltyRamp => "fuelPenaltyRamp"@,
            ParamField::AnnualRegRate => "annualRegRate"@,
            ParamField::InsAgeFactor3 => "insAgeFactor3"@,
            ParamField::InsAgeFactor2 => "insAgeFactor2"@,
            ParamField::InsAgeFactor1 => "insAgeFactor1"@,
            ParamField::DownPaymentPct => "downPaymentPct"@,
            ParamField::Inflation => "inflation"@,
        }
    }

    /// The field that a name addresses; `None` for a name that addresses no field.
    pub open spec fn lookup(name: Seq<char>) -> Option<ParamField> {
        if name == "newCarPrice"@ {
            Some(ParamField::NewCarPrice)
        } else if name == "cheapUsedPrice"@ {
            Some(ParamField::CheapUsedPrice)
        } else if name == "fourYrUsedPrice"@ {
            Some(ParamField::FourYrUsedPrice)
        } else if name == "salesTax"@ {
            Some(ParamField::SalesTax)
        } else if name == "regFees"@ {
            Some(ParamField::RegFees)
        } else if name == "newResalePercent"@ {
            Some(ParamField::NewResalePercent)
        } else if name == "newResale10Percent"@ {
            Some(ParamField::NewResale10Percent)
        } else if name == "usedResalePercent"@ {
            Some(ParamField::UsedResalePercent)
        } else if name == "insuranceNew"@ {
            Some(ParamField::InsuranceNew)
        } else if name == "insuranceCheapUsed"@ {
            Some(ParamField::InsuranceCheapUsed)
        } else if name == "insurance4yrUsed"@ {
            Some(ParamField::Insurance4yrUsed)
        } else if name == "maintNewBase"@ {
            Some(ParamField::MaintNewBase)
        } else if name == "maintCheapUsedBase"@ {
            Some(ParamField::MaintCheapUsedBase)
        } else if name == "maint4yrUsedBase"@ {
            Some(ParamField::Maint4yrUsedBase)
        } else if name == "loanTermYears"@ {
            Some(ParamField::LoanTermYears)
        } else if name == "interestRate"@ {
            Some(ParamField::InterestRate)
        } else if name == "usedLoanTerm"@ {
            Some(ParamField::UsedLoanTerm)
        } else if name == "usedInterestRate"@ {
            Some(ParamField::UsedInterestRate)
        } else if name == "maintIncreaseRate"@ {
            Some(ParamField::MaintIncreaseRate)
        } else if name == "maintCapMult"@ {
            Some(ParamField::MaintCapMult)
        } else if name == "fuelCostYear"@ {
            Some(ParamField::FuelCostYear)
        } else if name == "fuelPenaltyOld"@ {
            Some(ParamField::FuelPenaltyOld)
        } else if name == "fuelPenaltyStart"@ {
            Some(ParamField::FuelPenaltyStart)
        } else if name == "fuelPenaltyRamp"@ {
            Some(ParamField::FuelPenaltyRamp)
        } else if name == "annualRegRate"@ {
            Some(ParamField::AnnualRegRate)
        } else if name == "insAgeFactor3"@ {
            Some(ParamField::InsAgeFactor3)
        } else if name == "insAgeFactor2"@ {
            Some(ParamField::InsAgeFactor2)
        } else if name == "insAgeFactor1"@ {
            Some(ParamField::InsAgeFactor1)
        } else if name == "downPaymentPct"@ {
            Some(ParamField::DownPaymentPct)
        } else if name == "inflation"@ {
            Some(ParamField::Inflation)
        } else {
            None
        }
    }

    /// Returns the name under which the field is addressed.
    pub fn name(self) -> (text: &'static str)
        ensures
            text@ == self.name_text(),
    {
        match self {
            ParamField::NewCarPrice => "newCarPrice",
            ParamField::CheapUsedPrice => "cheapUsedPrice",
            ParamField::FourYrUsedPrice => "fourYrUsedPrice",
            ParamField::SalesTax => "salesTax",
            ParamField::RegFees => "regFees",
            ParamField::NewResalePercent => "newResalePercent",
            ParamField::NewResale10Percent => "newResale10Percent",
            ParamField::UsedResalePercent => "usedResalePercent",
            ParamField::InsuranceNew => "insuranceNew",
            ParamField::InsuranceCheapUsed => "insuranceCheapUsed",
            ParamField::Insurance4yrUsed => "insurance4yrUsed",
            ParamField::MaintNewBase => "maintNewBase",
            ParamField::MaintCheapUsedBase => "maintCheapUsedBase",
            ParamField::Maint4yrUsedBase => "maint4yrUsedBase",
            ParamField::LoanTermYears => "loanTermYears",
            ParamField::InterestRate => "interestRate",
            ParamField::UsedLoanTerm => "usedLoanTerm",
            ParamField::UsedInterestRate => "usedInterestRate",
            ParamField::MaintIncreaseRate => "maintIncreaseRate",
            ParamField::MaintCapMult => "maintCapMult",
            ParamField::FuelCostYear => "fuelCostYear",
            ParamField::FuelPenaltyOld => "fuelPenaltyOld",
            ParamField::FuelPenaltyStart => "fuelPenaltyStart",
            ParamField::FuelPenaltyRamp => "fuelPenaltyRamp",
            ParamField::AnnualRegRate => "annualRegRate",
            ParamField::InsAgeFactor3 => "insAgeFactor3",
            ParamField::InsAgeFactor2 => "insAgeFactor2",
            ParamField::InsAgeFactor1 => "insAgeFactor1",
            ParamField::DownPaymentPct => "downPaymentPct",
            ParamField::Inflation => "inflation",
        }
    }

    /// Resolves a name to the field it addresses. A name outside the table addresses no
    /// field and yields `None`; a reader of parameters takes zero as the value then.
    pub fn from_name(name: &str) -> (field: Option<ParamField>)
        ensures
            field == Self::lookup(name@),
    {
        if same_text(name, "newCarPrice") {
            Some(ParamField::NewCarPrice)
        } else if same_text(name, "cheapUsedPrice") {
            Some(ParamField::CheapUsedPrice)
        } else if same_text(name, "fourYrUsedPrice") {
            Some(ParamField::FourYrUsedPrice)
        } else if same_text(name, "salesTax") {
            Some(ParamField::SalesTax)
        } else if same_text(name, "regFees") {
            Some(ParamField::RegFees)
        } else if same_text(name, "newResalePercent") {
            Some(ParamField::NewResalePercent)
        } else if same_text(name, "newResale10Percent") {
            Some(ParamField::NewResale10Percent)
        } else if same_text(name, "usedResalePercent") {
            Some(ParamField::UsedResalePercent)
        } else if same_text(name, "insuranceNew") {
            Some(ParamField::InsuranceNew)
        } else if same_text(name, "insuranceCheapUsed") {
            Some(ParamField::InsuranceCheapUsed)
        } else if same_text(name, "insurance4yrUsed") {
            Some(ParamField::Insurance4yrUsed)
        } else if same_text(name, "maintNewBase") {
            Some(ParamField::MaintNewBase)
        } else if same_text(name, "maintCheapUsedBase") {
            Some(ParamField::MaintCheapUsedBase)
        } else if same_text(name, "maint4yrUsedBase") {
            Some(ParamField::Maint4yrUsedBase)
        } else if same_text(name, "loanTermYears") {
            Some(ParamField::LoanTermYears)
        } else if same_text(name, "interestRate") {
            Some(ParamField::InterestRate)
        } else if same_text(name, "usedLoanTerm") {
            Some(ParamField::UsedLoanTerm)
        } else if same_text(name, "usedInterestRate") {
            Some(ParamField::UsedInterestRate)
        } else if same_text(name, "maintIncreaseRate") {
            Some(ParamField::MaintIncreaseRate)
        } else if same_text(name, "maintCapMult") {
            Some(ParamField::MaintCapMult)
        } else if same_text(name, "fuelCostYear") {
            Some(ParamField::FuelCostYear)
        } else if same_text(name, "fuelPenaltyOld") {
            Some(ParamField::FuelPenaltyOld)
        } else if same_text(name, "fuelPenaltyStart") {
            Some(ParamField::FuelPenaltyStart)
        } else if same_text(name, "fuelPenaltyRamp") {
            Some(ParamField::FuelPenaltyRamp)
        } else if same_text(name, "annualRegRate") {
            Some(ParamField::AnnualRegRate)
        } else if same_text(name, "insAgeFactor3") {
            Some(ParamField::InsAgeFactor3)
        } else if same_text(name, "insAgeFactor2") {
            Some(ParamField::InsAgeFactor2)
        } else if same_text(name, "insAgeFactor1") {
            Some(ParamField::InsAgeFactor1)
        } else if same_text(name, "downPaymentPct") {
            Some(ParamField::DownPaymentPct)
        } else if same_text(name, "inflation") {
            Some(ParamField::Inflation)
        } else {
            None
        }
    }
}

/// What tells the names of the table apart: the length of each and, where it is long enough,
/// its characters at two fixed places.
proof fn names_differ()
    ensures
        "newCarPrice"@.len() == 11 && "newCarPrice"@[8] == 'i',
        "cheapUsedPrice"@.len() == 14 && "cheapUsedPrice"@[8] == 'd' && "cheapUsedPrice"@[12] == 'c',
        "fourYrUsedPrice"@.len() == 15 && "fourYrUsedPrice"@[8] == 'e' && "fourYrUsedPrice"@[12] == 'i',
        "salesTax"@.len() == 8,
        "regFees"@.len() == 7,
        "newResalePercent"@.len() == 16 && "newResalePercent"@[8] == 'e' && "newResalePercent"@[12] == 'c',
        "newResale10Percent"@.len() == 18 && "newResale10Percent"@[8] == 'e' && "newResale10Percent"@[12] == 'e',
        "usedResalePercent"@.len() == 17 && "usedResalePercent"@[8] == 'l' && "usedResalePercent"@[12] == 'r',
        "insuranceNew"@.len() == 12 && "insuranceNew"@[8] == 'e',
        "insuranceCheapUsed"@.len() == 18 && "insuranceCheapUsed"@[8] == 'e' && "insuranceCheapUsed"@[12] == 'a',
        "insurance4yrUsed"@.len() == 16 && "insurance4yrUsed"@[8] == 'e' && "insurance4yrUsed"@[12] == 'U',
        "maintNewBase"@.len() == 12 && "maintNewBase"@[8] == 'B',
        "maintCheapUsedBase"@.len() == 18 && "maintCheapUsedBase"@[8] == 'a' && "maintCheapUsedBase"@[12] == 'e',
        "maint4yrUsedBase"@.len() == 16 && "maint4yrUsedBase"@[8] == 'U' && "maint4yrUsedBase"@[12] == 'B',
        "loanTermYears"@.len() == 13 && "loanTermYears"@[8] == 'Y' && "loanTermYears"@[12] == 's',
        "interestRate"@.len() == 12 && "interestRate"@[8] == 'R',
        "usedLoanTerm"@.len() == 12 && "usedLoanTerm"@[8] == 'T',
        "usedInterestRate"@.len() == 16 && "usedInterestRate"@[8] == 'r' && "usedInterestRate"@[12] == 'R',
        "maintIncreaseRate"@.len() == 17 && "maintIncreaseRate"@[8] == 'r' && "maintIncreaseRate"@[12] == 'e',
        "maintCapMult"@.len() == 12 && "maintCapMult"@[8] == 'M',
        "fuelCostYear"@.len() == 12 && "fuelCostYear"@[8] == 'Y',
        "fuelPenaltyOld"@.len() == 14 && "fuelPenaltyOld"@[8] == 'l' && "fuelPenaltyOld"@[12] == 'l',
        "fuelPenaltyStart"@.len() == 16 && "fuelPenaltyStart"@[8] == 'l' && "fuelPenaltyStart"@[12] == 't',
        "fuelPenaltyRamp"@.len() == 15 && "fuelPenaltyRamp"@[8] == 'l' && "fuelPenaltyRamp"@[12] == 'a',
        "annualRegRate"@.len() == 13 && "annualRegRate"@[8] == 'g' && "annualRegRate"@[12] == 'e',
        "insAgeFactor3"@.len() == 13 && "insAgeFactor3"@[8] == 'c' && "insAgeFactor3"@[12] == '3',
        "insAgeFactor2"@.len() == 13 && "insAgeFactor2"@[8] == 'c' && "insAgeFactor2"@[12] == '2',
        "insAgeFactor1"@.len() == 13 && "insAgeFactor1"@[8] == 'c' && "insAgeFactor1"@[12] == '1',
        "downPaymentPct"@.len() == 14 && "downPaymentPct"@[8] == 'e' && "downPaymentPct"@[12] == 'c',
        "inflation"@.len() == 9 && "inflation"@[8] == 'n',
{
    reveal_strlit("newCarPrice");
    reveal_strlit("cheapUsedPrice");
    reveal_strlit("fourYrUsedPrice");
    reveal_strlit("salesTax");
    reveal_strlit("regFees");
    reveal_strlit("newResalePercent");
    reveal_strlit("newResale10Percent");
    reveal_strlit("usedResalePercent");
    reveal_strlit("insuranceNew");
    reveal_strlit("insuranceCheapUsed");
    reveal_strlit("insurance4yrUsed");
    reveal_strlit("maintNewBase");
    reveal_strlit("maintCheapUsedBase");
    reveal_strlit("maint4yrUsedBase");
    reveal_strlit("loanTermYears");
    reveal_strlit("interestRate");
    reveal_strlit("usedLoanTerm");
    reveal_strlit("usedInterestRate");
    reveal_strlit("maintIncreaseRate");
    reveal_strlit("maintCapMult");
    reveal_strlit("fuelCostYear");
    reveal_strlit("fuelPenaltyOld");
    reveal_strlit("fuelPenaltyStart");
    reveal_strlit("fuelPenaltyRamp");
    reveal_strlit("annualRegRate");
    reveal_strlit("insAgeFactor3");
    reveal_strlit("insAgeFactor2");
    reveal_strlit("insAgeFactor1");
    reveal_strlit("downPaymentPct");
    reveal_strlit("inflation");
}

/// Each field is found again under its own name: no two fields share a name.
pub proof fn name_resolves_to_its_field(field: ParamField)
    ensures
        ParamField::lookup(field.name_text()) == Some(field),
{
    names_differ();
}

/// A name resolves to a field only if it is that field's name.
pub proof fn resolved_field_bears_the_name(name: Seq<char>, field: ParamField)
    requires
        ParamField::lookup(name) == Some(field),
    ensures
        field.name_text() == name,
{
}

/// Two fields with the same name are the same field.
pub proof fn names_are_distinct(a: ParamField, b: ParamField)
    requires
        a.name_text() == b.name_text(),
    ensures
        a == b,
{
    name_resolves_to_its_field(a);
    name_resolves_to_its_field(b);
}

} // verus!
