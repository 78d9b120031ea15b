//! Client logic for the KMUTNB software portal's Adobe license reservation:
//! the date rule that computes the requested expiry date, and the two-step
//! login / reservation flow with its request contents and success gate.

pub mod clock;
pub mod date_rule;
pub mod flow;
