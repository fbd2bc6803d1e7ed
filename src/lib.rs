//! Startup launcher for a companion backend process.
//!
//! The library decides; the program around it acts. `paths` derives where the
//! backend binary and its log live, `launch` is the startup sequence as a
//! state machine from events to actions, and `greeting` is the one command the
//! desktop shell exposes.
use vstd::prelude::*;

pub mod greeting;
pub mod launch;
pub mod paths;

verus! {

} // verus!
