//! Witnesses of facts about types.

pub mod clone;
pub mod typewitness;
pub mod unit;
