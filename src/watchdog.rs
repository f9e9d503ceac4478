//! The watchdog timer: single ownership and hold/release through its
//! password-protected control register.

use vstd::prelude::*;

use crate::registers::{ReadWriteAccess, Reg};

verus! {

/// The password field of the control register.
pub const WDTPW_MASK: u16 = 0xFF00;

/// The password that a write of the control register must carry.
pub const WDTPW_WRITE: u16 = 0x5A00;

/// The hold bit: set, the watchdog is stopped.
pub const WDTHOLD_MASK: u16 = 0x0080;

/// Ownership of the watchdog timer.
pub struct WatchdogTimer {
    _unused: (),
}

impl WatchdogTimer {
    /// Takes the watchdog, unless it is taken already (`in_use`).
    pub fn acquire(in_use: &mut bool) -> (r: Option<WatchdogTimer>)
        ensures
            r is Some <==> !*old(in_use),
            *final(in_use),
    {
        let taken = *in_use;
        *in_use = true;
        if taken {
            None
        } else {
            Some(WatchdogTimer { _unused: () })
        }
    }

    /// Stops the watchdog: the hold bit set, with the write password.
    pub fn disable(&mut self, control: &mut Reg<ReadWriteAccess>)
        ensures
            final(control)@ == (old(control)@ & !WDTPW_MASK) | WDTPW_WRITE | WDTHOLD_MASK,
    {
        let mut value = control.read();
        value = value & !WDTPW_MASK;
        value = value | WDTPW_WRITE | WDTHOLD_MASK;
        control.write(value);
    }

    /// Starts the watchdog: the hold bit cleared, with the write password.
    pub fn enable(&mut self, control: &mut Reg<ReadWriteAccess>)
        ensures
            final(control)@ == (old(control)@ & !WDTPW_MASK & !WDTHOLD_MASK) | WDTPW_WRITE,
    {
        let mut value = control.read();
        value = value & !WDTPW_MASK & !WDTHOLD_MASK;
        value = value | WDTPW_WRITE;
        control.write(value);
    }

    /// Gives the watchdog back.
    pub fn release(self, in_use: &mut bool)
        ensures
            !*final(in_use),
    {
        *in_use = false;
    }
}

} // verus!
