//! Synthesis of probabilistic padding machines for traffic shaping.
//!
//! A machine is a declarative description of an event-driven state machine
//! with timed padding/blocking actions; it is consumed by an external
//! behavior engine.  This crate builds such machines from a handful of
//! defense parameters and proves the structural invariants the engine
//! depends on: every transition entry's probabilities sum to exactly one
//! unit, and every referenced state index is a valid position in the same
//! machine or the reserved end sentinel.
//!
//! Scalar quantities (microseconds, packet counts, byte sizes) are carried
//! in fixed point, in millionths of a unit; probabilities are carried in
//! parts per billion.  The caller turns them into the engine's native
//! representation outside this crate.
use vstd::prelude::*;

pub mod constant;
pub mod model;
pub mod regulator;
pub mod scrambler;

verus! {

} // verus!
