//! Exclusive ownership of microcontroller pins and ports, and a GPIO
//! configuration state machine whose register writes are sequenced so that a
//! pin never passes through an electrically unsafe state.

pub mod allocator;
pub mod bits;
pub mod gpio;
pub mod gpio_bus;
pub mod gpio_pin;
pub mod names;
pub mod port_lock;
pub mod registers;
mod sealed;
pub mod spi;
pub mod watchdog;

use vstd::prelude::*;

verus! {

/// A clock or signal edge.
#[derive(Clone, Copy, Debug, PartialEq, Eq, Structural)]
pub enum Edge {
    RisingEdge,
    FallingEdge,
}

} // verus!
