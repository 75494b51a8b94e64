use vstd::prelude::*;

verus! {

/// A clocked CPU as a driver sees it: reset entry points and a single
/// step that advances the engine and reports how many cycles elapsed.
pub trait Cpu: Sized {
    /// Puts the CPU into its documented power-on state.
    fn cold_reset(&mut self);

    /// Re-initialises the CPU without re-reading the reset vector.
    fn warm_reset(&mut self);

    /// Advances the CPU and returns the number of elapsed bus cycles.
    fn cycle(&mut self) -> u8;
}

} // verus!
