//! Pacing primitives: the ticker traits, the anchored tick schedule and the
//! randomized period source that the concrete tickers are built from.

use vstd::prelude::*;

pub mod mock;
pub mod random;
pub mod schedule;

verus! {

/// [`Send`], the bound every ticker carries so that it can move between
/// threads.
pub trait MaybeSend: Send {}

impl<T: Send + ?Sized> MaybeSend for T {}

/// Abstraction over a synchronous periodic ticker.
pub trait Ticker: MaybeSend + 'static {
    /// Block until the next tick.
    fn tick(&mut self);

    /// Reset the ticker so the next tick happens one full period from now.
    fn reset(&mut self);
}

/// A ticker whose period can be re-rolled randomly at runtime.
pub trait Randomizable {
    /// Pick a new (random) period to use for subsequent ticks.
    fn randomize(&mut self);
}

} // verus!
