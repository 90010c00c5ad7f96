pub mod dispatch;
pub mod history;
pub mod layout;
pub mod stopwatch;
pub mod timefmt;
pub mod timer;
