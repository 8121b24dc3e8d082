use car_cost::fields::ParamField;

const TABLE: [(&str, ParamField); 30] = [
    ("newCarPrice", ParamField::NewCarPrice),
    ("cheapUsedPrice", ParamField::CheapUsedPrice),
    ("fourYrUsedPrice", ParamField::FourYrUsedPrice),
    ("salesTax", ParamField::SalesTax),
    ("regFees", ParamField::RegFees),
    ("newResalePercent", ParamField::NewResalePercent),
    ("newResale10Percent", ParamField::NewResale10Percent),
    ("usedResalePercent", ParamField::UsedResalePercent),
    ("insuranceNew", ParamField::InsuranceNew),
    ("insuranceCheapUsed", ParamField::InsuranceCheapUsed),
    ("insurance4yrUsed", ParamField::Insurance4yrUsed),
    ("maintNewBase", ParamField::MaintNewBase),
    ("maintCheapUsedBase", ParamField::MaintCheapUsedBase),
    ("maint4yrUsedBase", ParamField::Maint4yrUsedBase),
    ("loanTermYears", ParamField::LoanTermYears),
    ("interestRate", ParamField::InterestRate),
    ("usedLoanTerm", ParamField::UsedLoanTerm),
    ("usedInterestRate", ParamField::UsedInterestRate),
    ("maintIncreaseRate", ParamField::MaintIncreaseRate),
    ("maintCapMult", ParamField::MaintCapMult),
    ("fuelCostYear", ParamField::FuelCostYear),
    ("fuelPenaltyOld", ParamField::FuelPenaltyOld),
    ("fuelPenaltyStart", ParamField::FuelPenaltyStart),
    ("fuelPenaltyRamp", ParamField::FuelPenaltyRamp),
    ("annualRegRate", ParamField::AnnualRegRate),
    ("insAgeFactor3", ParamField::InsAgeFactor3),
    ("insAgeFactor2", ParamField::InsAgeFactor2),
    ("insAgeFactor1", ParamField::InsAgeFactor1),
    ("downPaymentPct", ParamField::DownPaymentPct),
    ("inflation", ParamField::Inflation),
];

#[test]
fn every_name_resolves_to_its_field() {
    for (name, field) in TABLE {
        assert_eq!(ParamField::from_name(name), Some(field), "{name}");
    }
}

#[test]
fn every_field_bears_its_name() {
    for (name, field) in TABLE {
        assert_eq!(field.name(), name);
    }
}

#[test]
fn a_field_is_found_again_under_its_name() {
    for (_, field) in TABLE {
        assert_eq!(ParamField::from_name(field.name()), Some(field));
    }
}

#[test]
fn names_outside_the_table_address_no_field() {
    // fields of the parameter set that no scenario can point at
    assert_eq!(ParamField::from_name("discountRate"), None);
    assert_eq!(ParamField::from_name("includeTerminalValue"), None);
    assert_eq!(ParamField::from_name("years"), None);
    assert_eq!(ParamField::from_name(""), None);
    assert_eq!(ParamField::from_name("NewCarPrice"), None);
    assert_eq!(ParamField::from_name("newCarPric"), None);
    assert_eq!(ParamField::from_name("newCarPrice2"), None);
    assert_eq!(ParamField::from_name("inflati\u{f6}n"), None);
}

#[test]
fn names_tell_the_look_alikes_apart() {
    assert_eq!(ParamField::from_name("insAgeFactor1"), Some(ParamField::InsAgeFactor1));
    assert_eq!(ParamField::from_name("insAgeFactor2"), Some(ParamField::InsAgeFactor2));
    assert_eq!(ParamField::from_name("insAgeFactor3"), Some(ParamField::InsAgeFactor3));
    assert_eq!(ParamField::from_name("insAgeFactor4"), None);
    assert_eq!(ParamField::from_name("interestRate"), Some(ParamField::InterestRate));
    assert_eq!(ParamField::from_name("usedInterestRate"), Some(ParamField::UsedInterestRate));
}
