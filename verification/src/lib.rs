//! An in-process recurring-task trigger runtime.
//!
//! A [`Scheduler`] owns a [`Plan`] and the history of what it has executed.
//! The library holds every decision of the runtime: how long to wait between
//! ticks, whether a tick is skipped, what is recorded after an execution and
//! when a bounded run ends. The caller owns the timer and the action; it
//! reports ticks and completed executions and does what the returned
//! [`Command`] says.

pub mod clock;
pub mod daily;
pub mod history;
pub mod plan;
pub mod scheduler;

pub use clock::{Moment, Period};
pub use daily::DailyTrigger;
pub use history::History;
pub use plan::Plan;
pub use scheduler::{Command, Scheduler};
