//! Single pins in GPIO mode: a pin ownership token wrapped in a
//! configuration mode, with the transitions between modes and the
//! operations each mode allows.

use vstd::prelude::*;

use crate::allocator::{pin_bit, Pin};
use crate::bits::{bit_mask, bit_of, lemma_mask_bit, lemma_with_bit};
use crate::gpio::{
    apply_highz, apply_opencollector, apply_pull, apply_pushpull, barrier, drive_low_steps, highz_steps, opencollector_steps, pull_steps, pushpull_steps,
    release_steps, select_steps, set_pin_function, step, Disabled, GpioIn, GpioInputMode,
    GpioMode, GpioOut, GpioOutputMode, GpioPort, GpioRegister, HighImpedance, OpenCollector,
    PinMode, PullDown, PullUp, PushPull,
};
use crate::names::{pin_offset16, pin_port16, PortName};
use crate::port_lock::{halves_of, halves_of_mask, GpioPortInUseToken, PortInUseTable};
use crate::sealed::Sealed;

verus! {

/// A pin in GPIO mode whose configuration is `Mode`.
pub struct GpioPin<Mode: GpioMode> {
    _config: Mode,
    pin: Pin,
}

impl<Mode: GpioMode> View for GpioPin<Mode> {
    type V = (PortName, nat);

    closed spec fn view(&self) -> (PortName, nat) {
        self.pin@
    }
}

/// Whether `regs` are the registers of the port of pin `p`.
pub open spec fn registers_of(regs: &GpioPort, p: (PortName, nat)) -> bool {
    regs.wf() && regs.index() == pin_port16(p)
}

/// The offset of pin `p` within its 16-bit port's registers.
pub open spec fn pin_index(p: (PortName, nat)) -> u16 {
    pin_offset16(p) as u16
}

impl GpioPin<Disabled> {
    /// Puts `pin` in GPIO mode, routing it back to the GPIO function.
    pub fn new(pin: Pin, regs: &mut GpioPort) -> (r: GpioPin<Disabled>)
        requires
            registers_of(old(regs), pin@),
        ensures
            registers_of(final(regs), pin@),
            r@ == pin@,
            final(regs).trace() == old(regs).trace() + select_steps(
                old(regs)@,
                pin_index(pin@),
                PinMode::DefaultGpio,
            ),
            !bit_of(final(regs)@.select_0, pin_index(pin@)),
            !bit_of(final(regs)@.select_1, pin_index(pin@)),
    {
        set_pin_function(regs, pin.get_pin_offset_in_port() as u16, PinMode::DefaultGpio);
        GpioPin { _config: Disabled, pin }
    }
}

impl<Mode: GpioMode> GpioPin<Mode> {
    /// Reconfigures the pin as a high-impedance input: resistor off, then
    /// direction to input.
    pub fn to_input_highz(self, regs: &mut GpioPort) -> (r: GpioPin<GpioIn<HighImpedance>>)
        requires
            registers_of(old(regs), self@),
        ensures
            registers_of(final(regs), self@),
            r@ == self@,
            final(regs).trace() == old(regs).trace() + highz_steps(old(regs)@, pin_bit(self@)),
    {
        apply_highz(regs, self.pin.get_port_mask_bits());
        GpioPin { _config: GpioIn::high_impedance(), pin: self.pin }
    }

    /// Reconfigures the pin as an input with its pull-up resistor: resistor
    /// on, direction to input, then output high to pick the pull-up.
    pub fn to_input_pullup(self, regs: &mut GpioPort) -> (r: GpioPin<GpioIn<PullUp>>)
        requires
            registers_of(old(regs), self@),
        ensures
            registers_of(final(regs), self@),
            r@ == self@,
            final(regs).trace() == old(regs).trace() + pull_steps(old(regs)@, pin_bit(self@), true),
    {
        apply_pull(regs, self.pin.get_port_mask_bits(), true);
        GpioPin { _config: GpioIn::pull_up(), pin: self.pin }
    }

    /// Reconfigures the pin as an input with its pull-down resistor: resistor
    /// on, direction to input, then output low to pick the pull-down.
    pub fn to_input_pulldown(self, regs: &mut GpioPort) -> (r: GpioPin<GpioIn<PullDown>>)
        requires
            registers_of(old(regs), self@),
        ensures
            registers_of(final(regs), self@),
            r@ == self@,
            final(regs).trace() == old(regs).trace() + pull_steps(old(regs)@, pin_bit(self@), false),
    {
        apply_pull(regs, self.pin.get_port_mask_bits(), false);
        GpioPin { _config: GpioIn::pull_down(), pin: self.pin }
    }

    /// Reconfigures the pin as a push-pull output: output low first, then
    /// direction to output, so the pin starts driving at a known level.
    pub fn to_output_pushpull(self, regs: &mut GpioPort) -> (r: GpioPin<GpioOut<PushPull>>)
        requires
            registers_of(old(regs), self@),
        ensures
            registers_of(final(regs), self@),
            r@ == self@,
            final(regs).trace() == old(regs).trace() + pushpull_steps(old(regs)@, pin_bit(self@)),
            bit_of(final(regs)@.direction, pin_index(self@)),
            !bit_of(final(regs)@.output, pin_index(self@)),
    {
        let mask = self.pin.get_port_mask_bits();
        let bit = self.pin.get_pin_offset_in_port() as u16;
        apply_pushpull(regs, mask);
        proof {
            lemma_mask_bit(final(regs)@.direction, bit);
            lemma_mask_bit(final(regs)@.output, bit);
        }
        GpioPin { _config: GpioOut::push_pull(), pin: self.pin }
    }

    /// Reconfigures the pin as an open-collector output: output low,
    /// direction to output, then resistor on, so the pin is never driven
    /// high.
    pub fn to_output_opencollector(self, regs: &mut GpioPort) -> (r: GpioPin<
        GpioOut<OpenCollector>,
    >)
        requires
            registers_of(old(regs), self@),
        ensures
            registers_of(final(regs), self@),
            r@ == self@,
            final(regs).trace() == old(regs).trace() + opencollector_steps(
                old(regs)@,
                pin_bit(self@),
            ),
    {
        apply_opencollector(regs, self.pin.get_port_mask_bits());
        GpioPin { _config: GpioOut::open_collector(), pin: self.pin }
    }

    /// Asks for exclusive access to the 8-bit port of the pin; fails while
    /// another token holds it.
    pub fn get_port_in_use_token(&self, table: &mut PortInUseTable) -> (r: Option<
        GpioPortInUseToken,
    >)
        ensures
            ({
                let bits = halves_of(pin_port16(self@), pin_bit(self@));
                &&& r is Some <==> old(table)@ & bits == 0
                &&& r is Some ==> final(table)@ == old(table)@ | bits
                &&& r is None ==> final(table)@ == old(table)@
                &&& r matches Some(t) ==> t@ == bits
            }),
    {
        let port = self.pin.get_port() as usize;
        table.acquire(halves_of_mask(port, self.pin.get_port_mask_bits()))
    }

    /// Leaves GPIO mode: the pin is made a high-impedance input and handed
    /// back.
    pub fn extract_pin(self, regs: &mut GpioPort) -> (r: Pin)
        requires
            registers_of(old(regs), self@),
        ensures
            registers_of(final(regs), self@),
            r@ == self@,
            final(regs).trace() == old(regs).trace() + highz_steps(old(regs)@, pin_bit(self@)),
    {
        self.to_input_highz(regs).pin
    }
}

impl Pin {
    /// The pin's bit within its 16-bit port's registers.
    pub(crate) fn get_port_mask_bits(&self) -> (r: u16)
        ensures
            r == pin_bit(self@),
            r == bit_mask(pin_index(self@)),
    {
        1u16 << (self.get_pin_offset_in_port() as u16)
    }
}

/// A GPIO pin whose level can be read.
pub trait GpioPinInput: Sealed + Sized {
    /// The pin.
    spec fn pin_view(&self) -> (PortName, nat);

    /// Samples the pin's level from the input register.
    fn read(&self, regs: &GpioPort) -> (r: bool)
        requires
            registers_of(regs, self.pin_view()),
        ensures
            r == bit_of(regs@.input, pin_index(self.pin_view())),
    ;
}

/// A GPIO pin whose level can be driven.
pub trait GpioPinOutput: GpioPinInput {
    /// Makes the pin high.
    fn set(&mut self, regs: &mut GpioPort)
        requires
            registers_of(old(regs), old(self).pin_view()),
        ensures
            registers_of(final(regs), old(self).pin_view()),
            *final(self) == *old(self),
            bit_of(final(regs)@.output, pin_index(old(self).pin_view())),
    ;

    /// Makes the pin low.
    fn clear(&mut self, regs: &mut GpioPort)
        requires
            registers_of(old(regs), old(self).pin_view()),
        ensures
            registers_of(final(regs), old(self).pin_view()),
            *final(self) == *old(self),
            !bit_of(final(regs)@.output, pin_index(old(self).pin_view())),
    ;

    /// Inverts the pin's level.
    fn toggle(&mut self, regs: &mut GpioPort)
        requires
            registers_of(old(regs), old(self).pin_view()),
        ensures
            registers_of(final(regs), old(self).pin_view()),
            *final(self) == *old(self),
    ;
}

impl<Mode: GpioMode> Sealed for GpioPin<Mode> {}

impl<InputMode: GpioInputMode> GpioPinInput for GpioPin<GpioIn<InputMode>> {
    open spec fn pin_view(&self) -> (PortName, nat) {
        self@
    }

    fn read(&self, regs: &GpioPort) -> (r: bool) {
        regs.read_input_bit(self.pin.get_pin_offset_in_port() as u16)
    }
}

impl<OutputMode: GpioOutputMode> GpioPinInput for GpioPin<GpioOut<OutputMode>> {
    open spec fn pin_view(&self) -> (PortName, nat) {
        self@
    }

    fn read(&self, regs: &GpioPort) -> (r: bool) {
        regs.read_input_bit(self.pin.get_pin_offset_in_port() as u16)
    }
}

impl GpioPinOutput for GpioPin<GpioOut<PushPull>> {
    /// One write of the output bit.
    fn set(&mut self, regs: &mut GpioPort)
        ensures
            final(regs).trace() == old(regs).trace().push(
                step(old(regs)@, GpioRegister::Output, pin_bit(old(self)@), true),
            ),
    {
        let mask = self.pin.get_port_mask_bits();
        let bit = self.pin.get_pin_offset_in_port() as u16;
        proof {
            lemma_with_bit(regs@.output, bit, true);
        }
        regs.write_bits(GpioRegister::Output, mask, true);
    }

    /// One write of the output bit.
    fn clear(&mut self, regs: &mut GpioPort)
        ensures
            final(regs).trace() == old(regs).trace().push(
                step(old(regs)@, GpioRegister::Output, pin_bit(old(self)@), false),
            ),
    {
        let mask = self.pin.get_port_mask_bits();
        let bit = self.pin.get_pin_offset_in_port() as u16;
        proof {
            lemma_with_bit(regs@.output, bit, false);
        }
        regs.write_bits(GpioRegister::Output, mask, false);
    }

    /// One inversion of the output bit.
    fn toggle(&mut self, regs: &mut GpioPort)
        ensures
            final(regs).trace() == old(regs).trace().push(
                old(regs)@.set(GpioRegister::Output, old(regs)@.output ^ pin_bit(old(self)@)),
            ),
            bit_of(final(regs)@.output, pin_index(old(self)@)) == !bit_of(
                old(regs)@.output,
                pin_index(old(self)@),
            ),
    {
        let mask = self.pin.get_port_mask_bits();
        let bit = self.pin.get_pin_offset_in_port() as u16;
        proof {
            crate::bits::lemma_flip_bit(regs@.output, bit);
        }
        regs.toggle_bits(GpioRegister::Output, mask);
    }
}

impl GpioPinOutput for GpioPin<GpioOut<OpenCollector>> {
    /// Stops driving first, then pulls up, with a barrier between the two
    /// writes.
    fn set(&mut self, regs: &mut GpioPort)
        ensures
            final(regs).trace() == old(regs).trace() + release_steps(old(regs)@, pin_bit(old(self)@)),
    {
        let mask = self.pin.get_port_mask_bits();
        let bit = self.pin.get_pin_offset_in_port() as u16;
        regs.write_bits(GpioRegister::Direction, mask, false);
        barrier();
        let ghost s1 = regs@;
        regs.write_bits(GpioRegister::Output, mask, true);
        proof {
            lemma_with_bit(s1.output, bit, true);
        }
        assert(final(regs).trace() =~= old(regs).trace() + release_steps(old(regs)@, mask));
    }

    /// Makes the output low first, then starts driving, with a barrier
    /// between the two writes.
    fn clear(&mut self, regs: &mut GpioPort)
        ensures
            final(regs).trace() == old(regs).trace() + drive_low_steps(old(regs)@, pin_bit(old(self)@)),
    {
        let mask = self.pin.get_port_mask_bits();
        let bit = self.pin.get_pin_offset_in_port() as u16;
        let ghost s0 = regs@;
        regs.write_bits(GpioRegister::Output, mask, false);
        barrier();
        regs.write_bits(GpioRegister::Direction, mask, true);
        proof {
            lemma_with_bit(s0.output, bit, false);
        }
        assert(final(regs).trace() =~= old(regs).trace() + drive_low_steps(old(regs)@, mask));
    }

    /// Reads the line and then releases it if it is low, or drives it low if
    /// it is high.
    fn toggle(&mut self, regs: &mut GpioPort)
        ensures
            bit_of(old(regs)@.input, pin_index(old(self)@)) ==> final(regs).trace() == old(regs).trace()
                + drive_low_steps(old(regs)@, pin_bit(old(self)@)),
            !bit_of(old(regs)@.input, pin_index(old(self)@)) ==> final(regs).trace() == old(regs).trace()
                + release_steps(old(regs)@, pin_bit(old(self)@)),
    {
        if self.read(regs) {
            self.clear(regs);
        } else {
            self.set(regs);
        }
    }
}

} // verus!
