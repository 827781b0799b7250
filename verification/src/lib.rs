//! A single endpoint's logic: simulate one left mouse-button click at the
//! OS cursor's current position and report the outcome as a status code.

pub mod click;
pub mod outcome;
