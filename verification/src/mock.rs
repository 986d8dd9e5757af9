//! The events a mock ticker reports to its control handle.

use vstd::prelude::*;

verus! {

/// A side effect observed on a mock ticker, forwarded to its control handle
/// so tests can react to it.
/// `Reset` is emitted when the ticker's `reset` method is called.
/// `RequestTick` is emitted when the ticker's `tick()` method is called (before
/// the tick resolves).
/// `Randomize` is emitted when the ticker's `randomize()` method is called.
#[derive(Debug, Clone, Copy, PartialEq, Eq, Structural)]
pub enum MockTickerEvent {
    Reset,
    RequestTick,
    Randomize,
}

} // verus!
