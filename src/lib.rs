//! Rules that classify values, one at a time or a whole column at once.

pub mod float;
pub mod table;
pub mod rule;
pub mod discrete;
pub mod dispatch;
pub mod options;
