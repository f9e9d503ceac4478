//! SPI clock configuration typestates.

use vstd::prelude::*;

use crate::sealed::Sealed;
use crate::Edge;

verus! {

/// A clock polarity: the level of the clock line when idle.
pub trait ClockPolarity: Sealed {
    /// Whether the idle level is high.
    fn get_idle_state() -> bool;
}

/// The clock idles low.
pub struct LowIdle;

/// The clock idles high.
pub struct HighIdle;

impl Sealed for LowIdle {}
impl Sealed for HighIdle {}

impl ClockPolarity for LowIdle {
    fn get_idle_state() -> (r: bool)
        ensures
            !r,
    {
        false
    }
}

impl ClockPolarity for HighIdle {
    fn get_idle_state() -> (r: bool)
        ensures
            r,
    {
        true
    }
}

/// A clock phase: the clock edge on which data is sampled.
pub trait ClockPhase: Sealed {
    /// The sampling edge.
    fn get_sample_edge() -> Edge;
}

/// Data is sampled on the rising edge.
pub struct RisingEdgeSample;

/// Data is sampled on the falling edge.
pub struct FallingEdgeSample;

impl Sealed for RisingEdgeSample {}
impl Sealed for FallingEdgeSample {}

impl ClockPhase for RisingEdgeSample {
    fn get_sample_edge() -> (r: Edge)
        ensures
            r == Edge::RisingEdge,
    {
        Edge::RisingEdge
    }
}

impl ClockPhase for FallingEdgeSample {
    fn get_sample_edge() -> (r: Edge)
        ensures
            r == Edge::FallingEdge,
    {
        Edge::FallingEdge
    }
}

/// An SPI configuration: a clock polarity and a clock phase.
pub struct SpiMode<Polarity: ClockPolarity, Phase: ClockPhase> {
    _polarity: Polarity,
    _phase: Phase,
}

impl<Polarity: ClockPolarity, Phase: ClockPhase> SpiMode<Polarity, Phase> {
    /// The configuration made of `polarity` and `phase`.
    pub fn new(polarity: Polarity, phase: Phase) -> Self {
        SpiMode { _polarity: polarity, _phase: phase }
    }
}

} // verus!
