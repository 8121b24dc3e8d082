use car_cost::catalog::ScenarioConfig;
use car_cost::fields::ParamField;
use car_cost::projection::{Projection, Step};
use car_cost::records::{ScenarioResult, YearData, YearFigures};
use car_cost::schedule::YearPlan;
use car_cost::terminal::TerminalPlan;

/// The parameters of a projection, as a caller holds them.
#[derive(Clone, Debug)]
struct Params {
    new_car_price: f64,
    cheap_used_price: f64,
    four_yr_used_price: f64,
    sales_tax: f64,
    reg_fees: f64,
    new_resale_percent: f64,
    new_resale_10_percent: f64,
    used_resale_percent: f64,
    insurance_new: f64,
    insurance_cheap_used: f64,
    insurance_4yr_used: f64,
    maint_new_base: f64,
    maint_cheap_used_base: f64,
    maint_4yr_used_base: f64,
    maint_increase_rate: f64,
    fuel_cost_year: f64,
    fuel_penalty_old: f64,
    fuel_penalty_start: f64,
    fuel_penalty_ramp: f64,
    annual_reg_rate: f64,
    maint_cap_mult: f64,
    ins_age_factor_1: f64,
    ins_age_factor_2: f64,
    ins_age_factor_3: f64,
    down_payment_pct: f64,
    loan_term_years: f64,
    interest_rate: f64,
    used_loan_term: f64,
    used_interest_rate: f64,
    inflation: f64,
    include_terminal_value: u32,
    years: u32,
}

/// A new car for 30000 with 7 % tax and 200 in fees, 20 % down and five years at 5 %,
/// no inflation and nothing that grows with age.
fn plain() -> Params {
    Params {
        new_car_price: 30000.0,
        cheap_used_price: 8000.0,
        four_yr_used_price: 18000.0,
        sales_tax: 7.0,
        reg_fees: 200.0,
        new_resale_percent: 40.0,
        new_resale_10_percent: 15.0,
        used_resale_percent: 20.0,
        insurance_new: 1200.0,
        insurance_cheap_used: 700.0,
        insurance_4yr_used: 900.0,
        maint_new_base: 500.0,
        maint_cheap_used_base: 1200.0,
        maint_4yr_used_base: 800.0,
        maint_increase_rate: 0.0,
        fuel_cost_year: 1500.0,
        fuel_penalty_old: 0.0,
        fuel_penalty_start: 0.0,
        fuel_penalty_ramp: 1.0,
        annual_reg_rate: 0.0,
        maint_cap_mult: 1.0,
        ins_age_factor_1: 100.0,
        ins_age_factor_2: 100.0,
        ins_age_factor_3: 100.0,
        down_payment_pct: 20.0,
        loan_term_years: 5.0,
        interest_rate: 5.0,
        used_loan_term: 3.0,
        used_interest_rate: 8.0,
        inflation: 0.0,
        include_terminal_value: 0,
        years: 4,
    }
}

/// The same, with 3 % inflation and everything that grows with age switched on.
fn lively() -> Params {
    Params {
        inflation: 3.0,
        maint_increase_rate: 5.0,
        maint_cap_mult: 3.0,
        fuel_penalty_old: 20.0,
        fuel_penalty_start: 2.0,
        fuel_penalty_ramp: 4.0,
        annual_reg_rate: 50.0,
        ins_age_factor_1: 110.0,
        ins_age_factor_2: 125.0,
        ins_age_factor_3: 150.0,
        ..plain()
    }
}

fn value(p: &Params, field: ParamField) -> f64 {
    match field {
        ParamField::NewCarPrice => p.new_car_price,
        ParamField::CheapUsedPrice => p.cheap_used_price,
        ParamField::FourYrUsedPrice => p.four_yr_used_price,
        ParamField::SalesTax => p.sales_tax,
        ParamField::RegFees => p.reg_fees,
        ParamField::NewResalePercent => p.new_resale_percent,
        ParamField::NewResale10Percent => p.new_resale_10_percent,
        ParamField::UsedResalePercent => p.used_resale_percent,
        ParamField::InsuranceNew => p.insurance_new,
        ParamField::InsuranceCheapUsed => p.insurance_cheap_used,
        ParamField::Insurance4yrUsed => p.insurance_4yr_used,
        ParamField::MaintNewBase => p.maint_new_base,
        ParamField::MaintCheapUsedBase => p.maint_cheap_used_base,
        ParamField::Maint4yrUsedBase => p.maint_4yr_used_base,
        ParamField::LoanTermYears => p.loan_term_years,
        ParamField::InterestRate => p.interest_rate,
        ParamField::UsedLoanTerm => p.used_loan_term,
        ParamField::UsedInterestRate => p.used_interest_rate,
        ParamField::MaintIncreaseRate => p.maint_increase_rate,
        ParamField::MaintCapMult => p.maint_cap_mult,
        ParamField::FuelCostYear => p.fuel_cost_year,
        ParamField::FuelPenaltyOld => p.fuel_penalty_old,
        ParamField::FuelPenaltyStart => p.fuel_penalty_start,
        ParamField::FuelPenaltyRamp => p.fuel_penalty_ramp,
        ParamField::AnnualRegRate => p.annual_reg_rate,
        ParamField::InsAgeFactor3 => p.ins_age_factor_3,
        ParamField::InsAgeFactor2 => p.ins_age_factor_2,
        ParamField::InsAgeFactor1 => p.ins_age_factor_1,
        ParamField::DownPaymentPct => p.down_payment_pct,
        ParamField::Inflation => p.inflation,
    }
}

/// What a caller carries from year to year.
struct Running {
    loan_balance: f64,
    annual_payment: f64,
    cash_cumulative: f64,
    finance_cumulative: f64,
    /// The loan balance at the end of each year, kept for the tests.
    balances: Vec<f64>,
}

fn inflation_multiplier(p: &Params, years: u32) -> f64 {
    (1.0 + p.inflation / 100.0).powi(years as i32)
}

fn year_figures(p: &Params, c: &ScenarioConfig, step: &YearPlan, run: &mut Running) -> YearFigures<f64> {
    let infl_mult = inflation_multiplier(p, step.inflation_years);
    let mut cash_purchase_cost = 0.0;
    let mut finance_direct_cost = 0.0;
    if step.purchase {
        let base_price = value(p, c.base_purchase);
        let total_purchase =
            base_price * infl_mult * (1.0 + p.sales_tax / 100.0) + p.reg_fees * infl_mult;
        let resale_income = match step.trade_in {
            Some(t) => {
                base_price * inflation_multiplier(p, t.inflation_years) * (value(p, t.resale_key) / 100.0)
            }
            None => 0.0,
        };
        cash_purchase_cost = total_purchase - resale_income;
        let net_equity = resale_income - run.loan_balance;
        run.loan_balance = 0.0;
        run.annual_payment = 0.0;
        if p.down_payment_pct >= 100.0 {
            finance_direct_cost = total_purchase - net_equity;
        } else {
            let down_payment = total_purchase * (p.down_payment_pct / 100.0);
            finance_direct_cost = down_payment - net_equity;
            let financed = total_purchase - down_payment;
            let term = value(p, c.loan_term_key);
            let monthly_rate = (value(p, c.interest_rate_key) / 100.0) / 12.0;
            let payments = term * 12.0;
            if monthly_rate > 0.0 {
                let monthly = financed * monthly_rate * (1.0 + monthly_rate).powf(payments)
                    / ((1.0 + monthly_rate).powf(payments) - 1.0);
                run.annual_payment = monthly * 12.0;
            } else {
                run.annual_payment = financed / term;
            }
            run.loan_balance = financed;
        }
    }
    let mut loan_payment = 0.0;
    if run.loan_balance > 0.0 {
        let interest = run.loan_balance * (value(p, c.interest_rate_key) / 100.0);
        let payment = run.annual_payment.min(run.loan_balance + interest);
        run.loan_balance = (run.loan_balance - (payment - interest)).max(0.0);
        loan_payment = payment;
    }
    run.balances.push(run.loan_balance);

    let age = step.vehicle_age as f64;
    let ins_factor = match step.insurance_factor_key {
        Some(field) => value(p, field) / 100.0,
        None => 1.0,
    };
    let insurance = value(p, c.insurance_key) * infl_mult * ins_factor;
    let maint_mult = (1.0 + p.maint_increase_rate / 100.0).powf(age).min(p.maint_cap_mult);
    let maintenance = value(p, c.maint_key) * infl_mult * maint_mult;
    let fuel_penalty = match c.fuel_multiplier_mode.fixed_uplift_halves() {
        Some(halves) => 1.0 + p.fuel_penalty_old / 100.0 * (f64::from(halves) / 2.0),
        None => {
            let years_over = age - p.fuel_penalty_start;
            if years_over > 0.0 {
                1.0 + p.fuel_penalty_old / 100.0 * (years_over / p.fuel_penalty_ramp).min(1.0)
            } else {
                1.0
            }
        }
    };
    let fuel = p.fuel_cost_year * infl_mult * fuel_penalty;
    let registration = (p.reg_fees * (p.annual_reg_rate / 100.0)) * infl_mult;
    let operating = insurance + maintenance + fuel + registration;
    let cash_annual = cash_purchase_cost + operating;
    let finance_annual = finance_direct_cost + loan_payment + operating;
    run.cash_cumulative += cash_annual;
    run.finance_cumulative += finance_annual;
    YearFigures {
        insurance: insurance.round(),
        maintenance: maintenance.round(),
        fuel: fuel.round(),
        cash_annual: cash_annual.round(),
        cash_cumulative: run.cash_cumulative.round(),
        cash_purchase: cash_purchase_cost.round(),
        finance_annual: finance_annual.round(),
        finance_cumulative: run.finance_cumulative.round(),
        finance_purchase: (finance_direct_cost + loan_payment).round(),
    }
}

fn residual_value(p: &Params, c: &ScenarioConfig, t: &TerminalPlan) -> f64 {
    let base_value = value(p, c.base_purchase) * inflation_multiplier(p, t.inflation_years);
    let resale_pct = match t.resale_key {
        Some(field) => value(p, field) / 100.0,
        None => 0.0,
    };
    let end_value = base_value * resale_pct;
    base_value - (base_value - end_value) * (t.age_at_end as f64 / t.replace_cycle as f64)
}

/// Runs a projection to its end and hands back the records and the loan balances.
fn project(p: &Params, key: &str) -> Result<(ScenarioResult<f64>, Vec<f64>), String> {
    let mut projection = Projection::<f64>::start(key, p.years, p.include_terminal_value)?;
    let config = projection.config();
    let mut run = Running {
        loan_balance: 0.0,
        annual_payment: 0.0,
        cash_cumulative: 0.0,
        finance_cumulative: 0.0,
        balances: Vec::new(),
    };
    loop {
        match projection.next_step() {
            Step::Year(step) => {
                let figures = year_figures(p, &config, &step, &mut run);
                assert!(projection.record_year(figures));
            }
            Step::Terminal(terminal) => {
                let residual = residual_value(p, &config, &terminal).round();
                assert!(projection.record_terminal(|cumulative| cumulative - residual));
            }
            Step::Done => break,
        }
    }
    Ok((projection.finish().unwrap(), run.balances))
}

fn column(track: &[YearData<f64>], pick: fn(&YearData<f64>) -> f64) -> Vec<f64> {
    track.iter().map(pick).collect()
}

const KEYS: [&str; 5] = ["new4yr", "new10yr", "newForever", "cheapUsed", "fourYrUsed"];

#[test]
fn both_tracks_have_one_record_for_each_year() {
    for key in KEYS {
        for years in [0u32, 1, 4, 5, 12, 50] {
            for flag in [0u32, 1] {
                let p = Params { years, include_terminal_value: flag, ..lively() };
                let (result, _) = project(&p, key).unwrap();
                assert_eq!(result.cash.len(), years as usize, "{key} {years}");
                assert_eq!(result.finance.len(), years as usize, "{key} {years}");
                for i in 0..years as usize {
                    assert_eq!(result.cash[i].year as usize, i + 1);
                    assert_eq!(result.finance[i].year as usize, i + 1);
                }
            }
        }
    }
}

#[test]
fn running_costs_are_the_same_on_both_tracks() {
    for key in KEYS {
        let p = Params { years: 25, include_terminal_value: 1, ..lively() };
        let (result, _) = project(&p, key).unwrap();
        for (cash, finance) in result.cash.iter().zip(result.finance.iter()) {
            assert_eq!(cash.insurance, finance.insurance);
            assert_eq!(cash.maintenance, finance.maintenance);
            assert_eq!(cash.fuel, finance.fuel);
        }
    }
}

#[test]
fn loan_balance_never_falls_below_zero() {
    for key in KEYS {
        for rate in [0.0, 5.0, 19.5] {
            let p = Params { years: 30, interest_rate: rate, used_interest_rate: rate, ..lively() };
            let (_, balances) = project(&p, key).unwrap();
            assert_eq!(balances.len(), 30);
            assert!(balances.iter().all(|b| *b >= 0.0), "{key} at {rate} %: {balances:?}");
        }
    }
}

#[test]
fn new_car_example_first_year() {
    let (result, balances) = project(&plain(), "new4yr").unwrap();
    // 30000 * 1.07 + 200, nothing traded in
    assert_eq!(result.cash[0].purchase, 32300.0);
    assert_eq!(result.cash[0].annual, 35500.0);
    // a fifth of 32300 down, and the first of the loan's yearly payments
    assert_eq!(result.finance[0].purchase, 12312.0);
    assert_eq!(result.finance[0].annual, 15512.0);
    // 25840 financed, less the principal of the first year
    assert_eq!(balances[0].round(), 21280.0);
    assert_eq!(column(&result.cash, |r| r.annual), vec![35500.0, 3200.0, 3200.0, 3200.0]);
    assert_eq!(column(&result.cash, |r| r.cumulative), vec![35500.0, 38700.0, 41900.0, 45100.0]);
    assert_eq!(column(&result.cash, |r| r.purchase), vec![32300.0, 0.0, 0.0, 0.0]);
    assert_eq!(column(&result.finance, |r| r.annual), vec![15512.0, 9052.0, 9052.0, 9052.0]);
    assert_eq!(column(&result.finance, |r| r.cumulative), vec![15512.0, 24563.0, 33615.0, 42666.0]);
    assert_eq!(column(&result.finance, |r| r.purchase), vec![12312.0, 5852.0, 5852.0, 5852.0]);
    for record in result.cash.iter().chain(result.finance.iter()) {
        assert_eq!(record.insurance, 1200.0);
        assert_eq!(record.maintenance, 500.0);
        assert_eq!(record.fuel, 1500.0);
    }
}

#[test]
fn down_payment_is_a_share_of_the_purchase_total() {
    // without interest the first year costs the down payment and a fifth of the rest:
    // 32300 * 0.2 + (32300 - 6460) / 5
    let p = Params { interest_rate: 0.0, ..plain() };
    let (result, _) = project(&p, "new4yr").unwrap();
    assert_eq!(result.finance[0].purchase, 6460.0 + 5168.0);
    // with everything paid down there is no loan
    let p = Params { down_payment_pct: 100.0, ..plain() };
    let (result, balances) = project(&p, "new4yr").unwrap();
    assert_eq!(column(&result.finance, |r| r.purchase), vec![32300.0, 0.0, 0.0, 0.0]);
    assert_eq!(column(&result.finance, |r| r.annual), column(&result.cash, |r| r.annual));
    assert_eq!(balances, vec![0.0, 0.0, 0.0, 0.0]);
}

#[test]
fn loan_without_interest_is_paid_in_equal_parts_over_its_term() {
    let p = Params { interest_rate: 0.0, years: 7, ..plain() };
    let (result, balances) = project(&p, "new10yr").unwrap();
    assert_eq!(
        column(&result.finance, |r| r.purchase),
        vec![11628.0, 5168.0, 5168.0, 5168.0, 5168.0, 0.0, 0.0]
    );
    let rounded: Vec<f64> = balances.iter().map(|b| b.round()).collect();
    assert_eq!(rounded, vec![20672.0, 15504.0, 10336.0, 5168.0, 0.0, 0.0, 0.0]);
    assert_eq!(balances[5], 0.0);
    assert_eq!(balances[6], 0.0);
    // both ways of paying have cost the same once the loan is gone
    assert_eq!(result.finance[4].cumulative, result.cash[4].cumulative);
    assert_eq!(result.finance[6].cumulative, 54700.0);
}

#[test]
fn running_costs_stay_put_without_inflation_and_ageing() {
    for key in KEYS {
        let p = Params { years: 10, ..plain() };
        let (result, _) = project(&p, key).unwrap();
        for record in &result.cash[1..] {
            assert_eq!(record.insurance, result.cash[0].insurance, "{key}");
            assert_eq!(record.maintenance, result.cash[0].maintenance, "{key}");
            assert_eq!(record.fuel, result.cash[0].fuel, "{key}");
        }
    }
    // with a band factor the insurance steps up when the vehicle turns six, not before
    let p = Params { years: 10, ins_age_factor_1: 110.0, ..plain() };
    let (result, _) = project(&p, "new10yr").unwrap();
    assert_eq!(
        column(&result.cash, |r| r.insurance),
        vec![1200.0, 1200.0, 1200.0, 1200.0, 1200.0, 1200.0, 1320.0, 1320.0, 1320.0, 1320.0]
    );
    // the fuel uplift ramps from the start age over the ramp years, then holds
    let p = Params {
        years: 8,
        fuel_penalty_old: 20.0,
        fuel_penalty_start: 2.0,
        fuel_penalty_ramp: 4.0,
        ..plain()
    };
    let (result, _) = project(&p, "new10yr").unwrap();
    assert_eq!(
        column(&result.cash, |r| r.fuel),
        vec![1500.0, 1500.0, 1500.0, 1575.0, 1650.0, 1725.0, 1800.0, 1800.0]
    );
}

#[test]
fn used_vehicles_carry_a_fixed_fuel_uplift() {
    let p = Params { years: 3, fuel_penalty_old: 20.0, ..plain() };
    let (cheap, _) = project(&p, "cheapUsed").unwrap();
    assert_eq!(column(&cheap.cash, |r| r.fuel), vec![1800.0, 1800.0, 1800.0]);
    let (four, _) = project(&p, "fourYrUsed").unwrap();
    assert_eq!(column(&four.cash, |r| r.fuel), vec![1650.0, 1650.0, 1650.0]);
}

#[test]
fn maintenance_grows_with_age_up_to_its_cap() {
    let p = Params { years: 5, maint_increase_rate: 10.0, maint_cap_mult: 1.3, ..plain() };
    let (result, _) = project(&p, "newForever").unwrap();
    assert_eq!(
        column(&result.cash, |r| r.maintenance),
        vec![500.0, 550.0, 605.0, 650.0, 650.0]
    );
}

#[test]
fn replacement_with_inflation_and_trade_in() {
    let p = Params { years: 6, ..lively() };
    let (result, _) = project(&p, "new4yr").unwrap();
    assert_eq!(
        column(&result.cash, |r| r.purchase),
        vec![32300.0, 0.0, 0.0, 0.0, 24354.0, 0.0]
    );
    assert_eq!(
        column(&result.cash, |r| r.cumulative),
        vec![35600.0, 39025.0, 42580.0, 46354.0, 74422.0, 78277.0]
    );
    assert_eq!(
        column(&result.finance, |r| r.purchase),
        vec![12312.0, 5852.0, 5852.0, 5852.0, 8044.0, 6586.0]
    );
    assert_eq!(
        column(&result.finance, |r| r.cumulative),
        vec![15612.0, 24888.0, 34295.0, 43921.0, 55679.0, 66120.0]
    );
    assert_eq!(
        column(&result.cash, |r| r.insurance),
        vec![1200.0, 1236.0, 1273.0, 1311.0, 1351.0, 1391.0]
    );
    assert_eq!(
        column(&result.cash, |r| r.maintenance),
        vec![500.0, 541.0, 585.0, 632.0, 563.0, 609.0]
    );
    assert_eq!(
        column(&result.cash, |r| r.fuel),
        vec![1500.0, 1545.0, 1591.0, 1721.0, 1688.0, 1739.0]
    );
}

#[test]
fn terminal_value_touches_only_the_last_cumulative_figures() {
    for key in KEYS {
        for years in [1u32, 4, 6, 12] {
            let without = Params { years, include_terminal_value: 0, ..lively() };
            let with = Params { years, include_terminal_value: 1, ..lively() };
            let (a, _) = project(&without, key).unwrap();
            let (b, _) = project(&with, key).unwrap();
            let last = years as usize - 1;
            assert_eq!(a.cash[..last], b.cash[..last], "{key} {years}");
            assert_eq!(a.finance[..last], b.finance[..last], "{key} {years}");
            let cash_cut = a.cash[last].cumulative - b.cash[last].cumulative;
            let finance_cut = a.finance[last].cumulative - b.finance[last].cumulative;
            assert_eq!(cash_cut, finance_cut, "{key} {years}");
            assert!(cash_cut >= 0.0);
            assert_eq!(cash_cut == 0.0, key == "newForever", "{key} {years}");
            assert_eq!(YearData { cumulative: a.cash[last].cumulative, ..b.cash[last] }, a.cash[last]);
            assert_eq!(
                YearData { cumulative: a.finance[last].cumulative, ..b.finance[last] },
                a.finance[last]
            );
        }
    }
}

#[test]
fn terminal_value_is_read_off_the_line_from_price_to_resale_value() {
    // after six years the second car is two of its four years old: it has gone half
    // the way from 30000 * 1.03^5 down to 40 % of that
    let p = Params { years: 6, include_terminal_value: 1, ..lively() };
    let (result, _) = project(&p, "new4yr").unwrap();
    assert_eq!(result.cash[5].cumulative, 78277.0 - 24345.0);
    assert_eq!(result.finance[5].cumulative, 66120.0 - 24345.0);
    // at the end of a cycle the car is worth its resale value: 40 % of 30000
    let p = Params { years: 4, include_terminal_value: 1, ..plain() };
    let (result, _) = project(&p, "new4yr").unwrap();
    assert_eq!(result.cash[3].cumulative, 45100.0 - 12000.0);
    assert_eq!(result.finance[3].cumulative, 42666.0 - 12000.0);
}

#[test]
fn unknown_scenario_yields_the_failure_and_no_result() {
    assert_eq!(project(&plain(), "hybrid").unwrap_err(), "Unknown scenario: hybrid");
    assert_eq!(
        Projection::<f64>::start("hybrid", 10, 1).map(|_| ()),
        Err(String::from("Unknown scenario: hybrid"))
    );
    assert!(Projection::<i64>::start("normal", 0, 0).is_err());
}

#[test]
fn same_inputs_same_records() {
    let p = Params { years: 40, include_terminal_value: 1, ..lively() };
    for key in KEYS {
        assert_eq!(project(&p, key).unwrap(), project(&p, key).unwrap());
    }
}

fn figures(n: i64) -> YearFigures<i64> {
    YearFigures {
        insurance: n + 1,
        maintenance: n + 2,
        fuel: n + 3,
        cash_annual: n + 4,
        cash_cumulative: n + 5,
        cash_purchase: n + 6,
        finance_annual: n + 7,
        finance_cumulative: n + 8,
        finance_purchase: n + 9,
    }
}

#[test]
fn steps_come_in_the_order_of_the_plan() {
    let config = ScenarioConfig::new("new4yr").unwrap();
    let mut projection = Projection::<i64>::start("new4yr", 3, 1).unwrap();
    assert_eq!(projection.config(), config);
    for yr in 1..=3u32 {
        assert_eq!(projection.next_step(), Step::Year(car_cost::plan_year(&config, yr)));
        // asking twice changes nothing
        assert_eq!(projection.next_step(), Step::Year(car_cost::plan_year(&config, yr)));
        assert!(projection.record_year(figures(100 * i64::from(yr))));
    }
    assert_eq!(
        projection.next_step(),
        Step::Terminal(car_cost::plan_terminal_value(&config, 3, 1).unwrap())
    );
    assert!(projection.record_terminal(|c| c - 1000));
    assert_eq!(projection.next_step(), Step::Done);
    let result = projection.finish().unwrap();
    assert_eq!(
        result.cash,
        vec![
            YearData { year: 1, annual: 104, cumulative: 105, insurance: 101, maintenance: 102, fuel: 103, purchase: 106 },
            YearData { year: 2, annual: 204, cumulative: 205, insurance: 201, maintenance: 202, fuel: 203, purchase: 206 },
            YearData { year: 3, annual: 304, cumulative: -695, insurance: 301, maintenance: 302, fuel: 303, purchase: 306 },
        ]
    );
    assert_eq!(
        result.finance,
        vec![
            YearData { year: 1, annual: 107, cumulative: 108, insurance: 101, maintenance: 102, fuel: 103, purchase: 109 },
            YearData { year: 2, annual: 207, cumulative: 208, insurance: 201, maintenance: 202, fuel: 203, purchase: 209 },
            YearData { year: 3, annual: 307, cumulative: -692, insurance: 301, maintenance: 302, fuel: 303, purchase: 309 },
        ]
    );
}

#[test]
fn a_step_out_of_turn_is_turned_down() {
    let mut projection = Projection::<i64>::start("cheapUsed", 2, 1).unwrap();
    // the terminal value is not due before the last year is recorded
    assert!(!projection.record_terminal(|c| c - 1));
    assert!(projection.record_year(figures(0)));
    assert!(!projection.record_terminal(|c| c - 1));
    assert!(projection.record_year(figures(10)));
    // no third year in a plan of two
    assert!(!projection.record_year(figures(20)));
    assert!(projection.record_terminal(|c| c - 1));
    // the terminal value is taken off once
    assert!(!projection.record_terminal(|c| c - 1));
    assert!(!projection.record_year(figures(30)));
    assert_eq!(projection.next_step(), Step::Done);
    let result = projection.finish().unwrap();
    assert_eq!(result.cash.len(), 2);
    assert_eq!(result.finance.len(), 2);
    assert_eq!(result.cash[0].cumulative, 5);
    assert_eq!(result.cash[1].cumulative, 14);
    assert_eq!(result.finance[1].cumulative, 17);
}

#[test]
fn records_are_handed_out_only_at_the_end() {
    let mut projection = Projection::<i64>::start("new10yr", 1, 1).unwrap();
    assert!(projection.record_year(figures(0)));
    // the terminal value is still pending
    assert_eq!(projection.finish(), None);
    let projection = Projection::<i64>::start("new10yr", 2, 0).unwrap();
    assert_eq!(projection.finish(), None);
    let mut projection = Projection::<i64>::start("new10yr", 1, 0).unwrap();
    assert!(projection.record_year(figures(0)));
    assert!(projection.finish().is_some());
}

#[test]
fn projection_over_no_years_is_done_at_once() {
    for key in KEYS {
        for flag in [0u32, 1] {
            let mut projection = Projection::<f64>::start(key, 0, flag).unwrap();
            assert_eq!(projection.next_step(), Step::Done);
            assert!(!projection.record_terminal(|c| c));
            let result = projection.finish().unwrap();
            assert!(result.cash.is_empty() && result.finance.is_empty());
        }
    }
}

#[test]
fn kept_vehicle_has_no_terminal_step() {
    let mut projection = Projection::<i64>::start("newForever", 1, 1).unwrap();
    assert!(projection.record_year(figures(0)));
    assert_eq!(projection.next_step(), Step::Done);
    assert!(!projection.record_terminal(|c| c - 1));
    assert_eq!(projection.finish().unwrap().cash[0].cumulative, 5);
}
