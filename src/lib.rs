//! Birthday tracking: the next occurrence of an annual date in a time zone, the roster of
//! people built from configuration, the hourly scheduling pass and the grouping of due
//! people by notification target.

pub mod config;
pub mod occurrence;
pub mod birthday;
pub mod roster;
pub mod scheduler;
pub mod dispatch;
pub mod message;
