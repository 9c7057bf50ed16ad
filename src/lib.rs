//! Payroll tick engine: pay-period resolution, per-second earnings and the
//! display decisions of a menubar salary ticker.

pub mod calendar;
pub mod clock;
pub mod money;
pub mod pay_period;
pub mod salary;
pub mod text;
pub mod tray;
pub mod ticker;
pub mod types;
