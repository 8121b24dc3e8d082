use vstd::prelude::*;

verus! {

/// The record of one year on one track. `A` is the type in which the caller computes
/// money; the records carry the amounts and never compute on them.
#[derive(Debug, PartialEq)]
pub struct YearData<A> {
    /// The year, counted from 1.
    pub year: u32,
    /// Total cost of the year.
    pub annual: A,
    /// Total cost of all years up to and including this one.
    pub cumulative: A,
    /// Insurance of the year.
    pub insurance: A,
    /// Maintenance of the year.
    pub maintenance: A,
    /// Fuel of the year.
    pub fuel: A,
    /// What the purchase of a vehicle costs in this year.
    pub purchase: A,
}

impl<A: Copy> Clone for YearData<A> {
    fn clone(&self) -> (copy: Self)
        ensures
            copy == *self,
    {
        *self
    }
}

impl<A: Copy> Copy for YearData<A> {}

impl<A> YearData<A> {
    /// The same record with another cumulative figure.
    pub open spec fn with_cumulative(self, cumulative: A) -> YearData<A> {
        YearData {
            year: self.year,
            annual: self.annual,
            cumulative,
            insurance: self.insurance,
            maintenance: self.maintenance,
            fuel: self.fuel,
            purchase: self.purchase,
        }
    }
}

/// The amounts of one year as the caller computed them: the running costs, which are the
/// same on both tracks, and the totals of each track.
#[derive(Debug, PartialEq)]
pub struct YearFigures<A> {
    /// Insurance of the year.
    pub insurance: A,
    /// Maintenance of the year.
    pub maintenance: A,
    /// Fuel of the year.
    pub fuel: A,
    /// Total cost of the year when purchases are paid in full.
    pub cash_annual: A,
    /// Total cost of all years so far when purchases are paid in full.
    pub cash_cumulative: A,
    /// What a purchase costs in this year when it is paid in full.
    pub cash_purchase: A,
    /// Total cost of the year when purchases are financed.
    pub finance_annual: A,
    /// Total cost of all years so far when purchases are financed.
    pub finance_cumulative: A,
    /// What purchase and loan cost in this year when purchases are financed.
    pub finance_purchase: A,
}

impl<A: Copy> Clone for YearFigures<A> {
    fn clone(&self) -> (copy: Self)
        ensures
            copy == *self,
    {
        *self
    }
}

impl<A: Copy> Copy for YearFigures<A> {}

impl<A> YearFigures<A> {
    /// The record of the cash track for these figures.
    pub open spec fn cash_record(self, year: u32) -> YearData<A> {
        YearData {
            year,
            annual: self.cash_annual,
            cumulative: self.cash_cumulative,
            insurance: self.insurance,
            maintenance: self.maintenance,
            fuel: self.fuel,
            purchase: self.cash_purchase,
        }
    }

    /// The record of the finance track for these figures.
    pub open spec fn finance_record(self, year: u32) -> YearData<A> {
        YearData {
            year,
            annual: self.finance_annual,
            cumulative: self.finance_cumulative,
            insurance: self.insurance,
            maintenance: self.maintenance,
            fuel: self.fuel,
            purchase: self.finance_purchase,
        }
    }
}

/// The records of a projection, year by year: one track for paying in cash, one for
/// financing the purchase.
#[derive(Debug, PartialEq)]
pub struct ScenarioResult<A> {
    /// The years when every purchase is paid in full.
    pub cash: Vec<YearData<A>>,
    /// The years when every purchase is financed.
    pub finance: Vec<YearData<A>>,
}

impl<A> ScenarioResult<A> {
    /// What holds between the two tracks at every moment: they cover the same years,
    /// numbered from 1 without a gap, and in each year they show the same insurance,
    /// maintenance and fuel.
    pub open spec fn tracks_agree(&self) -> bool {
        &&& self.cash@.len() == self.finance@.len()
        &&& forall|i: int|
            #![trigger self.cash@[i]]
            #![trigger self.finance@[i]]
            0 <= i < self.cash@.len() ==> {
                &&& self.cash@[i].year == i + 1
                &&& self.finance@[i].year == i + 1
                &&& self.cash@[i].insurance == self.finance@[i].insurance
                &&& self.cash@[i].maintenance == self.finance@[i].maintenance
                &&& self.cash@[i].fuel == self.finance@[i].fuel
            }
    }
}

} // verus!
