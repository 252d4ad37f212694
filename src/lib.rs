//! A login / signup form with a cross-fade between its two screens: the
//! state of the inputs, the fade driven by timer ticks, and the lines
//! reported on submit.
use vstd::prelude::*;

pub mod auth;
pub mod fade;
pub mod field;

verus! {

} // verus!
