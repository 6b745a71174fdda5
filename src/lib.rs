// A minimal input method for Wayland compositors: it grabs the keyboard while
// a text input is active, forwards every key through a virtual keyboard, and
// toggles a small frame-paced popup on each key press.
//
// `session` holds the state machine that decides which requests to make for
// each compositor event, `pattern` the popup's pixel fill, and `proofs` the
// laws proved of both.
use vstd::prelude::*;

pub mod pattern;
pub mod proofs;
pub mod session;

verus! {

} // verus!
