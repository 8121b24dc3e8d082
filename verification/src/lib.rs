//! Planning and bookkeeping for projections of what it costs to own a vehicle.
//!
//! The library knows the scenarios, plans each year of a projection (the age of the
//! vehicle, purchases and trade-ins, the insurance band, the terminal value) and keeps
//! the records of the two payment tracks in step. The amounts of money are computed by
//! the caller, in a number type of its choice.

pub mod catalog;
pub mod fields;
pub mod plan;
pub mod projection;
pub mod records;
pub mod schedule;
pub mod terminal;
mod text;

pub use catalog::{FuelMode, ScenarioConfig, NEVER_REPLACE};
pub use fields::ParamField;
pub use plan::{plan_config, plan_scenario, ScenarioPlan};
pub use projection::{Projection, Step};
pub use records::{ScenarioResult, YearData, YearFigures};
pub use schedule::{insurance_factor_for_age, plan_year, TradeIn, YearPlan};
pub use terminal::{plan_terminal_value, TerminalPlan};
