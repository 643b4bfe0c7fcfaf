//! Simulation core of a factory game: a registry of definitions, item stacks and
//! slots, producers that turn recipe inputs into outputs, and connectors that carry
//! a stack between two endpoints.
use vstd::prelude::*;

pub mod connector;
pub mod item_stack;
pub mod kinds;
pub mod local_string;
pub mod producer;
pub mod registry;
pub mod transfer;

verus! {

/// Number of ticks (20 ticks = 1 second).
pub type Time = u16;

} // verus!
