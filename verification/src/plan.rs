use crate::catalog::{catalog_entry, is_scenario_key, ScenarioConfig};
use crate::schedule::{plan_year, year_plan, YearPlan, YearPlanView};
use crate::terminal::{
    plan_terminal_value, terminal_plan, terminal_view, TerminalPlan, TerminalPlanView,
};
use vstd::prelude::*;
use vstd::string::StringExecFns;

verus! {

/// Everything about a projection that is settled before any money is computed.
#[derive(Debug, PartialEq, Eq)]
pub struct ScenarioPlan {
    /// The scenario that is projected.
    pub config: ScenarioConfig,
    /// One plan for each projected year, in order.
    pub years: Vec<YearPlan>,
    /// The adjustment of the last year for the value that is left, if there is one.
    pub terminal: Option<TerminalPlan>,
}

/// A scenario plan, with its numbers as mathematical integers.
pub struct ScenarioPlanView {
    /// The scenario that is projected.
    pub config: ScenarioConfig,
    /// The plans of the years, in order.
    pub years: Seq<YearPlanView>,
    /// The terminal plan, if there is one.
    pub terminal: Option<TerminalPlanView>,
}

impl View for ScenarioPlan {
    type V = ScenarioPlanView;

    open spec fn view(&self) -> ScenarioPlanView {
        ScenarioPlanView {
            config: self.config,
            years: Seq::new(self.years@.len(), |i: int| self.years@[i]@),
            terminal: terminal_view(self.terminal),
        }
    }
}

/// The plan of a projection of `years` years: the plans of the years 1 to `years`, and the
/// terminal plan.
pub open spec fn scenario_plan(
    config: ScenarioConfig,
    years: int,
    include_terminal_value: int,
) -> ScenarioPlanView {
    ScenarioPlanView {
        config,
        years: Seq::new(years as nat, |i: int| year_plan(config, i + 1)),
        terminal: terminal_plan(config, years, include_terminal_value),
    }
}

impl ScenarioPlan {
    /// Whether this is the plan of its scenario over as many years as it holds, with or
    /// without a terminal value.
    pub open spec fn wf(&self) -> bool {
        &&& self.config.wf()
        &&& self.years@.len() <= u32::MAX
        &&& (self@ == scenario_plan(self.config, self.years@.len() as int, 1) || self@
            == scenario_plan(self.config, self.years@.len() as int, 0))
    }
}

/// A plan holds the years in order: at place `i` stands the plan of year `i + 1`. A
/// terminal plan is there only if the vehicle is one that is replaced, and then it bears
/// on the last year.
pub proof fn plan_holds_the_years_in_order(plan: ScenarioPlan)
    requires
        plan.wf(),
    ensures
        forall|i: int|
            0 <= i < plan.years@.len() ==> (#[trigger] plan.years@[i])@ == year_plan(
                plan.config,
                i + 1,
            ),
        plan.terminal matches Some(t) ==> t.year == plan.years@.len() && plan.years@.len() >= 1
            && !plan.config.keeps_forever(),
{
    assert forall|i: int| 0 <= i < plan.years@.len() implies (#[trigger] plan.years@[i])@
        == year_plan(plan.config, i + 1) by {
        assert(plan@.years[i] == plan.years@[i]@);
    }
}

/// What is reported for a key that names no scenario.
pub open spec fn unknown_scenario_message(key: Seq<char>) -> Seq<char> {
    "Unknown scenario: "@ + key
}

/// Plans a projection of `years` years under a given configuration.
pub fn plan_config(config: ScenarioConfig, years: u32, include_terminal_value: u32) -> (plan:
    ScenarioPlan)
    requires
        config.wf(),
    ensures
        plan@ == scenario_plan(config, years as int, include_terminal_value as int),
        plan.years@.len() == years,
        plan.wf(),
{
    let mut plans: Vec<YearPlan> = Vec::new();
    let mut yr: u32 = 0;
    while yr < years
        invariant
            yr <= years,
            config.wf(),
            plans@.len() == yr,
            forall|i: int| 0 <= i < yr ==> (#[trigger] plans@[i])@ == year_plan(config, i + 1),
        decreases years - yr,
    {
        yr += 1;
        plans.push(plan_year(&config, yr));
    }
    let terminal = plan_terminal_value(&config, years, include_terminal_value);
    let plan = ScenarioPlan { config, years: plans, terminal };
    assert(plan@.years =~= scenario_plan(
        config,
        years as int,
        include_terminal_value as int,
    ).years);
    plan
}

/// Plans a projection of `years` years for the scenario that a key names. A key outside the
/// catalog gives the message that names it, and no plan.
pub fn plan_scenario(scenario_key: &str, years: u32, include_terminal_value: u32) -> (result:
    Result<ScenarioPlan, String>)
    ensures
        result is Ok <==> is_scenario_key(scenario_key@),
        catalog_entry(scenario_key@) matches Some(config) ==> (result matches Ok(plan) && plan@
            == scenario_plan(config, years as int, include_terminal_value as int)
            && plan.years@.len() == years && plan.wf()),
        catalog_entry(scenario_key@) is None ==> (result matches Err(message) && message@
            == unknown_scenario_message(scenario_key@)),
{
    match ScenarioConfig::new(scenario_key) {
        Some(config) => Ok(plan_config(config, years, include_terminal_value)),
        None => Err(String::from_str("Unknown scenario: ").concat(scenario_key)),
    }
}

/// A plan has one entry for each requested year, in order: entry `i` is the plan of year
/// `i + 1` and bears that number. Two requests that differ only in a flag other than 1
/// give the same plan.
pub proof fn plan_covers_every_year(config: ScenarioConfig, years: int, include_terminal_value: int)
    requires
        years >= 0,
    ensures
        scenario_plan(config, years, include_terminal_value).years.len() == years,
        forall|i: int|
            0 <= i < years ==> (#[trigger] scenario_plan(
                config,
                years,
                include_terminal_value,
            ).years[i]) == year_plan(config, i + 1),
        forall|i: int|
            0 <= i < years ==> (#[trigger] scenario_plan(
                config,
                years,
                include_terminal_value,
            ).years[i]).year == i + 1,
        include_terminal_value != 1 ==> scenario_plan(config, years, include_terminal_value)
            == scenario_plan(config, years, 0),
{
}

} // verus!
