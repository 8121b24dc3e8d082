use crate::catalog::ScenarioConfig;
use crate::fields::ParamField;
use vstd::arithmetic::div_mod::{
    lemma_fundamental_div_mod, lemma_fundamental_div_mod_converse_mod,
    lemma_mod_add_multiples_vanish, lemma_mod_bound, lemma_small_mod,
};
use vstd::prelude::*;

verus! {

/// Years since the vehicle in use was bought: zero in the year of its purchase.
pub open spec fn years_owned(config: ScenarioConfig, yr: int) -> int {
    if config.keeps_forever() {
        yr - 1
    } else {
        (yr - 1) % (config.replace_cycle as int)
    }
}

/// Age of the vehicle in use in year `yr`, the first year being year 1. A vehicle that is
/// kept for good is bought new in year 1; any other has the starting age when it is bought
/// and is one year older in each year of its cycle.
pub open spec fn vehicle_age(config: ScenarioConfig, yr: int) -> int {
    if config.keeps_forever() {
        yr - 1
    } else {
        config.start_age + (yr - 1) % (config.replace_cycle as int)
    }
}

/// Whether a vehicle is bought in year `yr`: always in year 1, and whenever a cycle has run out.
pub open spec fn is_purchase_year(config: ScenarioConfig, yr: int) -> bool {
    yr == 1 || (!config.keeps_forever() && (yr - 1) % (config.replace_cycle as int) == 0)
}

/// The year in which the vehicle given up in year `yr` was bought.
pub open spec fn previous_purchase_year(config: ScenarioConfig, yr: int) -> int {
    yr - config.replace_cycle
}

/// The percentage applied to the base insurance of a vehicle of the given age: none below
/// six years, and one field for each of the bands that start at 6, 11 and 16 years.
pub open spec fn insurance_factor_key(age: int) -> Option<ParamField> {
    if age >= 16 {
        Some(ParamField::InsAgeFactor3)
    } else if age >= 11 {
        Some(ParamField::InsAgeFactor2)
    } else if age >= 6 {
        Some(ParamField::InsAgeFactor1)
    } else {
        None
    }
}

/// The sale of the vehicle that a purchase replaces.
#[derive(Clone, Copy, Debug, PartialEq, Eq)]
pub struct TradeIn {
    /// The resale percentage that applies to the vehicle given up.
    pub resale_key: ParamField,
    /// Years of inflation in the price that was paid for the vehicle given up.
    pub inflation_years: u32,
}

/// A trade-in, with its number as a mathematical integer.
pub struct TradeInView {
    /// The resale percentage that applies to the vehicle given up.
    pub resale_key: ParamField,
    /// Years of inflation in the price that was paid for the vehicle given up.
    pub inflation_years: int,
}

impl View for TradeIn {
    type V = TradeInView;

    open spec fn view(&self) -> TradeInView {
        TradeInView { resale_key: self.resale_key, inflation_years: self.inflation_years as int }
    }
}

/// What one year of a projection consists of, before any money is computed. Every cost of
/// the year is taken at the price level that `inflation_years` years of inflation lead to.
#[derive(Clone, Copy, Debug, PartialEq, Eq)]
pub struct YearPlan {
    /// The year, counted from 1.
    pub year: u32,
    /// Years of inflation that every cost of this year carries.
    pub inflation_years: u32,
    /// Age of the vehicle in use.
    pub vehicle_age: u64,
    /// Whether a vehicle is bought this year.
    pub purchase: bool,
    /// The sale of the previous vehicle, where this year's purchase replaces one that is sold.
    pub trade_in: Option<TradeIn>,
    /// The percentage applied to the base insurance, if the vehicle is old enough for one.
    pub insurance_factor_key: Option<ParamField>,
}

/// A year plan, with its numbers as mathematical integers.
pub struct YearPlanView {
    /// The year, counted from 1.
    pub year: int,
    /// Years of inflation that every cost of this year carries.
    pub inflation_years: int,
    /// Age of the vehicle in use.
    pub vehicle_age: int,
    /// Whether a vehicle is bought this year.
    pub purchase: bool,
    /// The sale of the previous vehicle, where there is one.
    pub trade_in: Option<TradeInView>,
    /// The percentage applied to the base insurance, if any.
    pub insurance_factor_key: Option<ParamField>,
}

impl View for YearPlan {
    type V = YearPlanView;

    open spec fn view(&self) -> YearPlanView {
        YearPlanView {
            year: self.year as int,
            inflation_years: self.inflation_years as int,
            vehicle_age: self.vehicle_age as int,
            purchase: self.purchase,
            trade_in: match self.trade_in {
                Some(t) => Some(t@),
                None => None,
            },
            insurance_factor_key: self.insurance_factor_key,
        }
    }
}

/// The trade-in of year `yr`: the previous vehicle is sold when a purchase after year 1
/// replaces it and the scenario names a resale percentage. Its price dates from the
/// previous purchase.
pub open spec fn trade_in(config: ScenarioConfig, yr: int) -> Option<TradeInView> {
    if yr > 1 && is_purchase_year(config, yr) {
        match config.resale_key {
            Some(key) => Some(
                TradeInView {
                    resale_key: key,
                    inflation_years: previous_purchase_year(config, yr) - 1,
                },
            ),
            None => None,
        }
    } else {
        None
    }
}

/// The plan of year `yr` under a scenario.
pub open spec fn year_plan(config: ScenarioConfig, yr: int) -> YearPlanView {
    YearPlanView {
        year: yr,
        inflation_years: yr - 1,
        vehicle_age: vehicle_age(config, yr),
        purchase: is_purchase_year(config, yr),
        trade_in: trade_in(config, yr),
        insurance_factor_key: insurance_factor_key(vehicle_age(config, yr)),
    }
}

/// Selects the insurance percentage for a vehicle of the given age, oldest band first.
pub fn insurance_factor_for_age(age: u64) -> (key: Option<ParamField>)
    ensures
        key == insurance_factor_key(age as int),
{
    if age >= 16 {
        Some(ParamField::InsAgeFactor3)
    } else if age >= 11 {
        Some(ParamField::InsAgeFactor2)
    } else if age >= 6 {
        Some(ParamField::InsAgeFactor1)
    } else {
        None
    }
}

/// Plans year `yr` of a scenario: the age of the vehicle, whether one is bought and what
/// is traded in, and the insurance band.
pub fn plan_year(config: &ScenarioConfig, yr: u32) -> (plan: YearPlan)
    requires
        config.wf(),
        yr >= 1,
    ensures
        plan@ == year_plan(*config, yr as int),
{
    let elapsed: u32 = yr - 1;
    let forever = config.never_replaces();
    let owned: u32 = if forever {
        elapsed
    } else {
        elapsed % config.replace_cycle
    };
    let vehicle_age: u64 = config.start_age as u64 + owned as u64;
    let purchase = yr == 1 || (!forever && owned == 0);
    let trade_in = if purchase && yr > 1 {
        proof {
            // A cycle that has run out has lasted its full length.
            if elapsed < config.replace_cycle {
                lemma_small_mod(elapsed as nat, config.replace_cycle as nat);
            }
        }
        match config.resale_key {
            Some(key) => Some(
                TradeIn { resale_key: key, inflation_years: yr - config.replace_cycle - 1 },
            ),
            None => None,
        }
    } else {
        None
    };
    YearPlan {
        year: yr,
        inflation_years: elapsed,
        vehicle_age,
        purchase,
        trade_in,
        insurance_factor_key: insurance_factor_for_age(vehicle_age),
    }
}

/// Where a remainder stands after a shift by less than the divisor, from a multiple of it.
proof fn lemma_remainder_after_multiple(x: int, k: int, m: int)
    requires
        m > 0,
        x % m == 0,
        0 <= k < m,
    ensures
        (x + k) % m == k,
{
    lemma_fundamental_div_mod(x, m);
    let q = x / m;
    assert(q * m == m * q) by (nonlinear_arith);
    lemma_fundamental_div_mod_converse_mod(x + k, m, q, k);
}

/// The remainder one step on: it grows by one, or falls to zero where the divisor is reached.
pub(crate) proof fn lemma_next_remainder(x: int, m: int)
    requires
        m > 0,
    ensures
        (x + 1) % m == (if x % m + 1 == m {
            0
        } else {
            x % m + 1
        }),
{
    lemma_fundamental_div_mod(x, m);
    lemma_mod_bound(x, m);
    let q = x / m;
    let r = x % m;
    assert(q * m == m * q) by (nonlinear_arith);
    if r + 1 == m {
        assert((q + 1) * m == q * m + m) by (nonlinear_arith);
        lemma_fundamental_div_mod_converse_mod(x + 1, m, q + 1, 0);
    } else {
        lemma_fundamental_div_mod_converse_mod(x + 1, m, q, r + 1);
    }
}

/// A projection opens with a purchase: in year 1 a vehicle of the scenario's starting age
/// is bought, and nothing is traded in.
pub proof fn first_year_is_a_purchase(config: ScenarioConfig)
    requires
        config.wf(),
    ensures
        is_purchase_year(config, 1),
        trade_in(config, 1) is None,
        vehicle_age(config, 1) == config.start_age,
{
    if !config.keeps_forever() {
        lemma_small_mod(0, config.replace_cycle as nat);
    }
}

/// A vehicle that is kept for good is bought once, in year 1, is never traded in, and is
/// one year older every year.
pub proof fn kept_vehicle_is_bought_once(config: ScenarioConfig, yr: int)
    requires
        config.wf(),
        config.keeps_forever(),
        yr >= 1,
    ensures
        is_purchase_year(config, yr) <==> yr == 1,
        trade_in(config, yr) is None,
        vehicle_age(config, yr) == yr - 1,
{
}

/// Under a finite cycle the schedule repeats: a whole cycle later a year is a purchase
/// year exactly if this one is, and the vehicle is as old as it is now.
pub proof fn schedule_repeats_with_the_cycle(config: ScenarioConfig, yr: int)
    requires
        config.wf(),
        !config.keeps_forever(),
        yr >= 1,
    ensures
        is_purchase_year(config, yr + config.replace_cycle) == is_purchase_year(config, yr),
        vehicle_age(config, yr + config.replace_cycle) == vehicle_age(config, yr),
{
    let m = config.replace_cycle as int;
    lemma_small_mod(0, m as nat);
    lemma_mod_add_multiples_vanish(yr - 1, m);
    assert(yr + m - 1 == m + (yr - 1));
}

/// In a purchase year the vehicle in use has just been bought: it has the starting age.
pub proof fn age_restarts_at_purchase(config: ScenarioConfig, yr: int)
    requires
        config.wf(),
        yr >= 1,
        is_purchase_year(config, yr),
    ensures
        years_owned(config, yr) == 0,
        vehicle_age(config, yr) == config.start_age,
{
    if !config.keeps_forever() {
        lemma_small_mod(0, config.replace_cycle as nat);
    }
}

/// From one year to the next the vehicle is one year older, unless it is replaced.
pub proof fn age_grows_between_purchases(config: ScenarioConfig, yr: int)
    requires
        config.wf(),
        yr >= 1,
        !is_purchase_year(config, yr + 1),
    ensures
        vehicle_age(config, yr + 1) == vehicle_age(config, yr) + 1,
        years_owned(config, yr + 1) == years_owned(config, yr) + 1,
{
    if !config.keeps_forever() {
        lemma_next_remainder(yr - 1, config.replace_cycle as int);
    }
}

/// The age of the vehicle is the starting age plus the years it has been owned, and under
/// a finite cycle it has been owned for less than a cycle.
pub proof fn age_is_start_age_plus_years_owned(config: ScenarioConfig, yr: int)
    requires
        config.wf(),
        yr >= 1,
    ensures
        vehicle_age(config, yr) == config.start_age + years_owned(config, yr),
        0 <= years_owned(config, yr),
        !config.keeps_forever() ==> years_owned(config, yr) < config.replace_cycle,
{
    if !config.keeps_forever() {
        lemma_mod_bound(yr - 1, config.replace_cycle as int);
    }
}

/// A trade-in happens only in a purchase year, and the vehicle given up was bought exactly
/// one cycle earlier: that year is a year of the projection, a vehicle was bought in it, none
/// was bought since, and the trade-in carries that year's inflation.
pub proof fn trade_in_follows_a_full_cycle(config: ScenarioConfig, yr: int)
    requires
        config.wf(),
        yr >= 1,
        trade_in(config, yr) is Some,
    ensures
        is_purchase_year(config, yr),
        Some(trade_in(config, yr)->0.resale_key) == config.resale_key,
        previous_purchase_year(config, yr) >= 1,
        is_purchase_year(config, previous_purchase_year(config, yr)),
        trade_in(config, yr)->0.inflation_years == year_plan(
            config,
            previous_purchase_year(config, yr),
        ).inflation_years,
        forall|y: int|
            previous_purchase_year(config, yr) < y < yr ==> !#[trigger] is_purchase_year(config, y),
{
    let m = config.replace_cycle as int;
    let prev = previous_purchase_year(config, yr);
    if yr - 1 < m {
        lemma_small_mod((yr - 1) as nat, m as nat);
    }
    lemma_mod_add_multiples_vanish(prev - 1, m);
    assert(m + (prev - 1) == yr - 1);
    assert forall|y: int| prev < y < yr implies !#[trigger] is_purchase_year(config, y) by {
        lemma_remainder_after_multiple(prev - 1, y - prev, m);
        assert(prev - 1 + (y - prev) == y - 1);
    }
}

/// Every purchase after the first that finds a resale percentage in the scenario comes
/// with a trade-in.
pub proof fn replacement_trades_in(config: ScenarioConfig, yr: int)
    requires
        yr > 1,
        is_purchase_year(config, yr),
    ensures
        trade_in(config, yr) is Some <==> config.resale_key is Some,
{
}

/// The insurance percentage changes only when the vehicle turns 6, 11 or 16.
pub proof fn insurance_factor_changes_at_thresholds(age: int)
    requires
        age + 1 != 6,
        age + 1 != 11,
        age + 1 != 16,
    ensures
        insurance_factor_key(age + 1) == insurance_factor_key(age),
{
}

} // verus!
