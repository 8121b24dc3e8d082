use crate::catalog::{catalog_entry, is_scenario_key, ScenarioConfig};
use crate::plan::{
    plan_holds_the_years_in_order, plan_scenario, scenario_plan, unknown_scenario_message,
    ScenarioPlan,
};
use crate::records::{ScenarioResult, YearData, YearFigures};
use crate::schedule::YearPlan;
use crate::terminal::TerminalPlan;
use vstd::prelude::*;

verus! {

/// What a projection waits for next.
#[derive(Clone, Copy, Debug, PartialEq, Eq)]
pub enum Step {
    /// The figures of the year that the plan describes.
    Year(YearPlan),
    /// The reduction of the last year's cumulative figures by the value that is left.
    Terminal(TerminalPlan),
    /// Nothing more: the records are complete.
    Done,
}

/// A projection under way. It hands out, one step at a time, what is to be computed next,
/// and keeps the records of the years computed so far. The amounts come from the caller;
/// in whatever order the caller takes the steps, the records that are handed out in the end
/// are complete and their two tracks agree.
#[derive(Debug)]
pub struct Projection<A> {
    plan: ScenarioPlan,
    result: ScenarioResult<A>,
    terminal_applied: bool,
}

impl<A> Projection<A> {
    /// The plan that the projection follows.
    pub closed spec fn plan(&self) -> ScenarioPlan {
        self.plan
    }

    /// The records of the years computed so far.
    pub closed spec fn recorded(&self) -> ScenarioResult<A> {
        self.result
    }

    /// Whether the terminal value has been taken off.
    pub closed spec fn terminal_applied(&self) -> bool {
        self.terminal_applied
    }

    /// Number of years computed so far.
    pub open spec fn years_recorded(&self) -> int {
        self.recorded().cash@.len() as int
    }

    /// What holds of every projection: it follows a plan of its scenario, its two tracks
    /// agree, no year beyond the plan is recorded, and the terminal value is taken off
    /// only where the plan has one and only after the last year.
    #[verifier::type_invariant]
    pub open spec fn wf(&self) -> bool {
        &&& self.plan().wf()
        &&& self.recorded().tracks_agree()
        &&& self.years_recorded() <= self.plan().years@.len()
        &&& self.terminal_applied() ==> self.plan().terminal is Some && self.years_recorded()
            == self.plan().years@.len()
    }

    /// The step that the projection waits for: the next year of the plan; after the last
    /// year the terminal value, once, if the plan has one; then nothing.
    pub open spec fn pending_step(&self) -> Step {
        if self.years_recorded() < self.plan().years@.len() {
            Step::Year(self.plan().years@[self.years_recorded()])
        } else if self.plan().terminal is Some && !self.terminal_applied() {
            Step::Terminal(self.plan().terminal->0)
        } else {
            Step::Done
        }
    }

    /// Number of steps until the records are complete: the years that are left, and the
    /// terminal value where it is due.
    pub open spec fn steps_left(&self) -> int {
        self.plan().years@.len() - self.years_recorded() + if self.plan().terminal is Some
            && !self.terminal_applied() {
            1int
        } else {
            0int
        }
    }

}

impl<A: Copy> Projection<A> {
    /// Starts a projection of `years` years for the scenario that a key names. A key
    /// outside the catalog gives the message that names it, and no projection.
    pub fn start(scenario_key: &str, years: u32, include_terminal_value: u32) -> (result: Result<
        Projection<A>,
        String,
    >)
        ensures
            result is Ok <==> is_scenario_key(scenario_key@),
            catalog_entry(scenario_key@) matches Some(config) ==> (result matches Ok(p)
                && p.plan()@ == scenario_plan(config, years as int, include_terminal_value as int)
                && p.plan().years@.len() == years && p.years_recorded() == 0
                && !p.terminal_applied()),
            catalog_entry(scenario_key@) is None ==> (result matches Err(message) && message@
                == unknown_scenario_message(scenario_key@)),
    {
        match plan_scenario(scenario_key, years, include_terminal_value) {
            Ok(plan) => Ok(
                Projection {
                    plan,
                    result: ScenarioResult { cash: Vec::new(), finance: Vec::new() },
                    terminal_applied: false,
                },
            ),
            Err(message) => Err(message),
        }
    }

    /// The scenario that is projected.
    pub fn config(&self) -> (config: ScenarioConfig)
        ensures
            config == self.plan().config,
    {
        self.plan.config
    }

    /// Tells what is to be computed next.
    pub fn next_step(&self) -> (step: Step)
        ensures
            step == self.pending_step(),
    {
        let done: usize = self.result.cash.len();
        if done < self.plan.years.len() {
            Step::Year(self.plan.years[done])
        } else {
            match self.plan.terminal {
                Some(terminal) => if self.terminal_applied {
                    Step::Done
                } else {
                    Step::Terminal(terminal)
                },
                None => Step::Done,
            }
        }
    }

    /// Records the figures of the pending year on both tracks. Where the projection does
    /// not wait for a year, nothing is recorded and the answer is `false`.
    pub fn record_year(&mut self, figures: YearFigures<A>) -> (accepted: bool)
        ensures
            final(self).plan() == old(self).plan(),
            final(self).terminal_applied() == old(self).terminal_applied(),
            accepted == (old(self).pending_step() is Year),
            accepted ==> final(self).steps_left() == old(self).steps_left() - 1,
            accepted ==> final(self).recorded().cash@ == old(self).recorded().cash@.push(
                figures.cash_record(old(self).pending_step()->Year_0.year),
            ),
            accepted ==> final(self).recorded().finance@ == old(self).recorded().finance@.push(
                figures.finance_record(old(self).pending_step()->Year_0.year),
            ),
            !accepted ==> final(self).recorded() == old(self).recorded(),
    {
        proof {
            use_type_invariant(&*self);
        }
        let done: usize = self.result.cash.len();
        if done < self.plan.years.len() {
            let year: u32 = self.plan.years[done].year;
            proof {
                plan_holds_the_years_in_order(self.plan);
            }
            // The records leave the projection while they grow, so that it never holds one
            // track that is ahead of the other.
            let mut result = ScenarioResult { cash: Vec::new(), finance: Vec::new() };
            core::mem::swap(&mut result, &mut self.result);
            result.cash.push(
                YearData {
                    year,
                    annual: figures.cash_annual,
                    cumulative: figures.cash_cumulative,
                    insurance: figures.insurance,
                    maintenance: figures.maintenance,
                    fuel: figures.fuel,
                    purchase: figures.cash_purchase,
                },
            );
            result.finance.push(
                YearData {
                    year,
                    annual: figures.finance_annual,
                    cumulative: figures.finance_cumulative,
                    insurance: figures.insurance,
                    maintenance: figures.maintenance,
                    fuel: figures.fuel,
                    purchase: figures.finance_purchase,
                },
            );
            core::mem::swap(&mut result, &mut self.result);
            true
        } else {
            false
        }
    }

    /// Takes the terminal value off: the cumulative figure of the last year goes through
    /// `reduce`, on the cash track and on the finance track alike, and nothing else
    /// changes. Where the projection does not wait for the terminal value, nothing changes
    /// and the answer is `false`.
    pub fn record_terminal<F: Fn(A) -> A>(&mut self, reduce: F) -> (accepted: bool)
        requires
            old(self).pending_step() is Terminal ==> call_requires(
                reduce,
                (old(self).recorded().cash@.last().cumulative,),
            ) && call_requires(reduce, (old(self).recorded().finance@.last().cumulative,)),
        ensures
            final(self).plan() == old(self).plan(),
            accepted == (old(self).pending_step() is Terminal),
            accepted ==> final(self).terminal_applied() && final(self).steps_left() == 0,
            accepted ==> call_ensures(
                reduce,
                (old(self).recorded().cash@.last().cumulative,),
                final(self).recorded().cash@.last().cumulative,
            ) && call_ensures(
                reduce,
                (old(self).recorded().finance@.last().cumulative,),
                final(self).recorded().finance@.last().cumulative,
            ),
            accepted ==> final(self).recorded().cash@ == old(self).recorded().cash@.update(
                old(self).years_recorded() - 1,
                old(self).recorded().cash@.last().with_cumulative(
                    final(self).recorded().cash@.last().cumulative,
                ),
            ),
            accepted ==> final(self).recorded().finance@ == old(self).recorded().finance@.update(
                old(self).years_recorded() - 1,
                old(self).recorded().finance@.last().with_cumulative(
                    final(self).recorded().finance@.last().cumulative,
                ),
            ),
            !accepted ==> final(self).recorded() == old(self).recorded(),
            !accepted ==> final(self).terminal_applied() == old(self).terminal_applied(),
    {
        proof {
            use_type_invariant(&*self);
            plan_holds_the_years_in_order(self.plan);
        }
        let done: usize = self.result.cash.len();
        if done == self.plan.years.len() && self.plan.terminal.is_some() && !self.terminal_applied {
            let last: usize = done - 1;
            let mut cash: YearData<A> = self.result.cash[last];
            let mut finance: YearData<A> = self.result.finance[last];
            cash.cumulative = reduce(cash.cumulative);
            finance.cumulative = reduce(finance.cumulative);
            let mut result = ScenarioResult { cash: Vec::new(), finance: Vec::new() };
            core::mem::swap(&mut result, &mut self.result);
            result.cash.set(last, cash);
            result.finance.set(last, finance);
            core::mem::swap(&mut result, &mut self.result);
            self.terminal_applied = true;
            true
        } else {
            false
        }
    }

    /// Hands out the records once nothing is pending; before that, `None`.
    pub fn finish(self) -> (result: Option<ScenarioResult<A>>)
        ensures
            result is Some <==> self.pending_step() is Done,
            result matches Some(r) ==> r == self.recorded() && r.tracks_agree() && r.cash@.len()
                == self.plan().years@.len() && r.finance@.len() == self.plan().years@.len(),
    {
        proof {
            use_type_invariant(&self);
        }
        let done: usize = self.result.cash.len();
        if done == self.plan.years.len() && (self.plan.terminal.is_none()
            || self.terminal_applied) {
            Some(self.result)
        } else {
            None
        }
    }
}

/// A projection is done exactly when no step is left, and it never owes a negative number
/// of steps: a caller that takes one step after another comes to an end.
pub proof fn projection_is_done_when_no_step_is_left<A: Copy>(projection: Projection<A>)
    requires
        projection.wf(),
    ensures
        projection.steps_left() >= 0,
        projection.pending_step() is Done <==> projection.steps_left() == 0,
{
}

/// When nothing is pending, the records are complete: a projection that follows the plan
/// of `years` years holds `years` records on each track, numbered from 1, and the two
/// tracks show the same insurance, maintenance and fuel in every year.
pub proof fn finished_projection_covers_every_year<A: Copy>(
    projection: Projection<A>,
    config: ScenarioConfig,
    years: int,
    include_terminal_value: int,
)
    requires
        projection.wf(),
        years >= 0,
        projection.plan()@ == scenario_plan(config, years, include_terminal_value),
        projection.pending_step() is Done,
    ensures
        projection.recorded().cash@.len() == years,
        projection.recorded().finance@.len() == years,
        forall|i: int|
            #![trigger projection.recorded().cash@[i]]
            #![trigger projection.recorded().finance@[i]]
            0 <= i < years ==> {
                &&& projection.recorded().cash@[i].year == i + 1
                &&& projection.recorded().finance@[i].year == i + 1
                &&& projection.recorded().cash@[i].insurance
                    == projection.recorded().finance@[i].insurance
                &&& projection.recorded().cash@[i].maintenance
                    == projection.recorded().finance@[i].maintenance
                &&& projection.recorded().cash@[i].fuel == projection.recorded().finance@[i].fuel
            },
{
    assert(projection.plan()@.years.len() == projection.plan().years@.len());
}

} // verus!
