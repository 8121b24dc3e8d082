use crate::catalog::ScenarioConfig;
use crate::fields::ParamField;
use crate::schedule::{is_purchase_year, lemma_next_remainder, year_plan, years_owned};
use vstd::arithmetic::div_mod::lemma_mod_bound;
use vstd::prelude::*;

verus! {

/// The value that the vehicle in use still has when the projection ends, as far as it is
/// settled before any money is computed. The vehicle loses value evenly over its cycle,
/// from its price at the price level of the last year down to its resale value: at the
/// end it has gone `age_at_end` parts out of `replace_cycle` of that way.
#[derive(Clone, Copy, Debug, PartialEq, Eq)]
pub struct TerminalPlan {
    /// The last projected year, the only one whose cumulative figures are adjusted.
    pub year: u32,
    /// Years of inflation in the price of the vehicle at the end.
    pub inflation_years: u32,
    /// Years of its cycle that the vehicle has been through at the end.
    pub age_at_end: u32,
    /// Length of the cycle in years.
    pub replace_cycle: u32,
    /// The resale percentage reached at the end of a cycle; none stands for no value left.
    pub resale_key: Option<ParamField>,
}

/// A terminal plan, with its numbers as mathematical integers.
pub struct TerminalPlanView {
    /// The last projected year.
    pub year: int,
    /// Years of inflation in the price of the vehicle at the end.
    pub inflation_years: int,
    /// Years of its cycle that the vehicle has been through at the end.
    pub age_at_end: int,
    /// Length of the cycle in years.
    pub replace_cycle: int,
    /// The resale percentage reached at the end of a cycle, if any.
    pub resale_key: Option<ParamField>,
}

impl View for TerminalPlan {
    type V = TerminalPlanView;

    open spec fn view(&self) -> TerminalPlanView {
        TerminalPlanView {
            year: self.year as int,
            inflation_years: self.inflation_years as int,
            age_at_end: self.age_at_end as int,
            replace_cycle: self.replace_cycle as int,
            resale_key: self.resale_key,
        }
    }
}

/// Whether a projection over `years` years ends with a terminal value: the flag must be
/// exactly 1, there must be a last year, and the vehicle must be one that is replaced.
pub open spec fn has_terminal_value(
    config: ScenarioConfig,
    years: int,
    include_terminal_value: int,
) -> bool {
    include_terminal_value == 1 && years >= 1 && !config.keeps_forever()
}

/// The terminal plan of a projection over `years` years, if it has one.
pub open spec fn terminal_plan(
    config: ScenarioConfig,
    years: int,
    include_terminal_value: int,
) -> Option<TerminalPlanView> {
    if has_terminal_value(config, years, include_terminal_value) {
        Some(
            TerminalPlanView {
                year: years,
                inflation_years: years - 1,
                age_at_end: years_owned(config, years) + 1,
                replace_cycle: config.replace_cycle as int,
                resale_key: config.resale_key,
            },
        )
    } else {
        None
    }
}

/// A planned terminal value, or none, with its numbers as mathematical integers.
pub open spec fn terminal_view(plan: Option<TerminalPlan>) -> Option<TerminalPlanView> {
    match plan {
        Some(p) => Some(p@),
        None => None,
    }
}

/// Plans the terminal value of a projection over `years` years.
pub fn plan_terminal_value(config: &ScenarioConfig, years: u32, include_terminal_value: u32) -> (plan:
    Option<TerminalPlan>)
    requires
        config.wf(),
    ensures
        terminal_view(plan) == terminal_plan(*config, years as int, include_terminal_value as int),
{
    if include_terminal_value == 1 && years >= 1 && !config.never_replaces() {
        let elapsed: u32 = years - 1;
        Some(
            TerminalPlan {
                year: years,
                inflation_years: elapsed,
                age_at_end: elapsed % config.replace_cycle + 1,
                replace_cycle: config.replace_cycle,
                resale_key: config.resale_key,
            },
        )
    } else {
        None
    }
}

/// A terminal value bears on the last year alone and carries that year's inflation. The
/// vehicle has then been through at least one year of its cycle and at most all of them,
/// one more than the years it had been owned when the last year began.
pub proof fn terminal_value_bears_on_the_last_year(
    config: ScenarioConfig,
    years: int,
    include_terminal_value: int,
)
    requires
        config.wf(),
        terminal_plan(config, years, include_terminal_value) is Some,
    ensures
        include_terminal_value == 1,
        years >= 1,
        !config.keeps_forever(),
        terminal_plan(config, years, include_terminal_value)->0.year == years,
        terminal_plan(config, years, include_terminal_value)->0.inflation_years == year_plan(
            config,
            years,
        ).inflation_years,
        terminal_plan(config, years, include_terminal_value)->0.age_at_end == years_owned(
            config,
            years,
        ) + 1,
        1 <= terminal_plan(config, years, include_terminal_value)->0.age_at_end
            <= config.replace_cycle,
{
    lemma_mod_bound(years - 1, config.replace_cycle as int);
}

/// Where the projection ends with a cycle, so that the next year would bring a purchase,
/// the vehicle has been through its whole cycle: it is down to its resale value.
pub proof fn terminal_value_at_the_end_of_a_cycle(
    config: ScenarioConfig,
    years: int,
    include_terminal_value: int,
)
    requires
        config.wf(),
        terminal_plan(config, years, include_terminal_value) is Some,
        is_purchase_year(config, years + 1),
    ensures
        terminal_plan(config, years, include_terminal_value)->0.age_at_end
            == config.replace_cycle,
{
    let m = config.replace_cycle as int;
    lemma_mod_bound(years - 1, m);
    lemma_next_remainder(years - 1, m);
}

/// A vehicle that is kept for good has no terminal value, whatever the flag says.
pub proof fn kept_vehicle_has_no_terminal_value(
    config: ScenarioConfig,
    years: int,
    include_terminal_value: int,
)
    requires
        config.keeps_forever(),
    ensures
        terminal_plan(config, years, include_terminal_value) is None,
{
}

} // verus!
