//! Whole ports and port sections in GPIO mode, used as multi-bit buses. The
//! mode transitions are those of single pins, applied to every bit of the
//! bus at once.

use vstd::prelude::*;

use crate::allocator::{
    port_mask, port_shift, port_shift_of, section_mask, Port, PortComponent, PortId,
    PortSection, PortSectionX,
};
use crate::bits::merge_bits;
use crate::gpio::{
    apply_gpio_function, apply_highz, apply_opencollector, apply_pull, apply_pushpull,
    bus_select_steps, highz_steps, opencollector_steps, pull_steps, pushpull_steps, Disabled,
    GpioIn, GpioInputMode, GpioMode, GpioOut, GpioOutputMode, GpioPort, GpioRegister,
    HighImpedance, OpenCollector, PullDown, PullUp, PushPull,
};
use crate::names::PortName;
use crate::port_lock::{halves_of, halves_of_mask, GpioPortInUseToken, PortInUseTable};
use crate::sealed::Sealed;

verus! {

/// Where a bus lies: its 16-bit port, its bits there, and the offset of its
/// lowest bit.
pub struct BusPlace {
    pub port: nat,
    pub mask: u16,
    pub shift: nat,
}

/// Whether `regs` are the registers of the port of the bus at `place`.
pub open spec fn bus_registers(regs: &GpioPort, place: BusPlace) -> bool {
    regs.wf() && regs.index() == place.port
}

/// The bits of the bus at `place` that a bus value `value` sets.
pub open spec fn bus_bits(place: BusPlace, value: usize) -> u16 {
    ((value as u16) << (place.shift as u16)) & place.mask
}

/// The value that the bus at `place` reads from the input register `input`.
pub open spec fn bus_value(place: BusPlace, input: u16) -> usize {
    ((input & place.mask) >> (place.shift as u16)) as usize
}

/// The bus bits of `value`, as `bus_bits` states it.
fn bus_bits_of(mask: u16, shift: u16, value: usize) -> (r: u16)
    requires
        shift < 16,
    ensures
        r == bus_bits(BusPlace { port: 0, mask, shift: shift as nat }, value),
{
    #[verifier::truncate]
    let low = value as u16;
    (low << shift) & mask
}

/// A GPIO bus whose value can be read.
pub trait GpioBusInput: Sealed + Sized {
    /// Where the bus lies.
    spec fn place(&self) -> BusPlace;

    /// Samples the bus from the input register, shifted down to bit 0.
    fn read(&self, regs: &GpioPort) -> (r: usize)
        requires
            bus_registers(regs, self.place()),
        ensures
            r == bus_value(self.place(), regs@.input),
    ;
}

/// A GPIO bus whose value can be driven. Each operation is one write of the
/// output register.
pub trait GpioBusOutput: GpioBusInput {
    /// Drives the bus to `value`.
    fn write(&mut self, regs: &mut GpioPort, value: usize)
        requires
            bus_registers(old(regs), old(self).place()),
        ensures
            bus_registers(final(regs), old(self).place()),
            *final(self) == *old(self),
            final(regs).trace() == old(regs).trace().push(
                old(regs)@.set(
                    GpioRegister::Output,
                    merge_bits(old(regs)@.output, old(self).place().mask, bus_bits(old(self).place(), value)),
                ),
            ),
    ;

    /// Sets the bus bits of `set_mask`.
    fn set_bits(&mut self, regs: &mut GpioPort, set_mask: usize)
        requires
            bus_registers(old(regs), old(self).place()),
        ensures
            bus_registers(final(regs), old(self).place()),
            *final(self) == *old(self),
            final(regs).trace() == old(regs).trace().push(
                old(regs)@.set(GpioRegister::Output, old(regs)@.output | bus_bits(old(self).place(), set_mask)),
            ),
    ;

    /// Clears the bus bits of `clear_mask`.
    fn clear_bits(&mut self, regs: &mut GpioPort, clear_mask: usize)
        requires
            bus_registers(old(regs), old(self).place()),
        ensures
            bus_registers(final(regs), old(self).place()),
            *final(self) == *old(self),
            final(regs).trace() == old(regs).trace().push(
                old(regs)@.set(GpioRegister::Output, old(regs)@.output & !bus_bits(old(self).place(), clear_mask)),
            ),
    ;

    /// Inverts the bus bits of `toggle_mask`.
    fn toggle_bits(&mut self, regs: &mut GpioPort, toggle_mask: usize)
        requires
            bus_registers(old(regs), old(self).place()),
        ensures
            bus_registers(final(regs), old(self).place()),
            *final(self) == *old(self),
            final(regs).trace() == old(regs).trace().push(
                old(regs)@.set(GpioRegister::Output, old(regs)@.output ^ bus_bits(old(self).place(), toggle_mask)),
            ),
    ;
}

/// A whole port (an 8-bit half or a 16-bit port) in GPIO mode `Mode`.
pub struct GpioPortBus<Mode: GpioMode> {
    _config: Mode,
    port: Port,
}

/// Where the bus over `port` lies.
pub open spec fn port_place(port: PortName) -> BusPlace {
    BusPlace { port: port.spec_index16(), mask: port_mask(port), shift: port_shift(port) }
}

impl<Mode: GpioMode> View for GpioPortBus<Mode> {
    type V = PortName;

    closed spec fn view(&self) -> PortName {
        self.port@
    }
}

impl GpioPortBus<Disabled> {
    /// Puts `port` in GPIO mode, routing all its pins back to the GPIO
    /// function.
    pub fn new(port: Port, regs: &mut GpioPort) -> (r: GpioPortBus<Disabled>)
        requires
            bus_registers(old(regs), port_place(port@)),
        ensures
            bus_registers(final(regs), port_place(port@)),
            r@ == port@,
            final(regs).trace() == old(regs).trace() + bus_select_steps(old(regs)@, port_mask(port@)),
    {
        apply_gpio_function(regs, port.get_port_mask());
        GpioPortBus { _config: Disabled, port }
    }
}

impl<Mode: GpioMode> GpioPortBus<Mode> {
    /// Reconfigures the port as high-impedance inputs.
    pub fn to_input_highz(self, regs: &mut GpioPort) -> (r: GpioPortBus<GpioIn<HighImpedance>>)
        requires
            bus_registers(old(regs), port_place(self@)),
        ensures
            bus_registers(final(regs), port_place(self@)),
            r@ == self@,
            final(regs).trace() == old(regs).trace() + highz_steps(old(regs)@, port_mask(self@)),
    {
        apply_highz(regs, self.port.get_port_mask());
        GpioPortBus { _config: GpioIn::high_impedance(), port: self.port }
    }

    /// Reconfigures the port as inputs with pull-up resistors.
    pub fn to_input_pullup(self, regs: &mut GpioPort) -> (r: GpioPortBus<GpioIn<PullUp>>)
        requires
            bus_registers(old(regs), port_place(self@)),
        ensures
            bus_registers(final(regs), port_place(self@)),
            r@ == self@,
            final(regs).trace() == old(regs).trace() + pull_steps(old(regs)@, port_mask(self@), true),
    {
        apply_pull(regs, self.port.get_port_mask(), true);
        GpioPortBus { _config: GpioIn::pull_up(), port: self.port }
    }

    /// Reconfigures the port as inputs with pull-down resistors.
    pub fn to_input_pulldown(self, regs: &mut GpioPort) -> (r: GpioPortBus<GpioIn<PullDown>>)
        requires
            bus_registers(old(regs), port_place(self@)),
        ensures
            bus_registers(final(regs), port_place(self@)),
            r@ == self@,
            final(regs).trace() == old(regs).trace() + pull_steps(old(regs)@, port_mask(self@), false),
    {
        apply_pull(regs, self.port.get_port_mask(), false);
        GpioPortBus { _config: GpioIn::pull_down(), port: self.port }
    }

    /// Reconfigures the port as push-pull outputs, driving low.
    pub fn to_output_pushpull(self, regs: &mut GpioPort) -> (r: GpioPortBus<GpioOut<PushPull>>)
        requires
            bus_registers(old(regs), port_place(self@)),
        ensures
            bus_registers(final(regs), port_place(self@)),
            r@ == self@,
            final(regs).trace() == old(regs).trace() + pushpull_steps(old(regs)@, port_mask(self@)),
            final(regs)@.direction & port_mask(self@) == port_mask(self@),
            final(regs)@.output & port_mask(self@) == 0,
    {
        apply_pushpull(regs, self.port.get_port_mask());
        GpioPortBus { _config: GpioOut::push_pull(), port: self.port }
    }

    /// Reconfigures the port as open-collector outputs, driving low.
    pub fn to_output_opencollector(self, regs: &mut GpioPort) -> (r: GpioPortBus<
        GpioOut<OpenCollector>,
    >)
        requires
            bus_registers(old(regs), port_place(self@)),
        ensures
            bus_registers(final(regs), port_place(self@)),
            r@ == self@,
            final(regs).trace() == old(regs).trace() + opencollector_steps(old(regs)@, port_mask(self@)),
    {
        apply_opencollector(regs, self.port.get_port_mask());
        GpioPortBus { _config: GpioOut::open_collector(), port: self.port }
    }

    /// The bus owns its whole port, so its token holds nothing and is always
    /// granted.
    pub fn get_port_in_use_token(&self, table: &mut PortInUseTable) -> (r: Option<GpioPortInUseToken>)
        ensures
            final(table)@ == old(table)@,
            r matches Some(t) && t@ == 0,
            r is Some,
    {
        let ghost t = table@;
        assert(t | 0u16 == t && t & 0u16 == 0) by (bit_vector);
        table.acquire(0)
    }
}

impl<Mode: GpioMode> Sealed for GpioPortBus<Mode> {}

/// The input part of every port bus mode but `Disabled`.
fn port_bus_read(port: &Port, regs: &GpioPort) -> (r: usize)
    requires
        bus_registers(regs, port_place(port@)),
    ensures
        r == bus_value(port_place(port@), regs@.input),
{
    let shift = port_shift_of(port.get_port_name());
    ((regs.input_levels() & port.get_port_mask()) >> shift) as usize
}

impl<InputMode: GpioInputMode> GpioBusInput for GpioPortBus<GpioIn<InputMode>> {
    open spec fn place(&self) -> BusPlace {
        port_place(self@)
    }

    fn read(&self, regs: &GpioPort) -> (r: usize) {
        port_bus_read(&self.port, regs)
    }
}

impl<OutputMode: GpioOutputMode> GpioBusInput for GpioPortBus<GpioOut<OutputMode>> {
    open spec fn place(&self) -> BusPlace {
        port_place(self@)
    }

    fn read(&self, regs: &GpioPort) -> (r: usize) {
        port_bus_read(&self.port, regs)
    }
}

impl GpioBusOutput for GpioPortBus<GpioOut<PushPull>> {
    fn write(&mut self, regs: &mut GpioPort, value: usize) {
        let mask = self.port.get_port_mask();
        let bits = bus_bits_of(mask, port_shift_of(self.port.get_port_name()), value);
        regs.write_masked(GpioRegister::Output, mask, bits);
    }

    fn set_bits(&mut self, regs: &mut GpioPort, set_mask: usize) {
        let mask = self.port.get_port_mask();
        let bits = bus_bits_of(mask, port_shift_of(self.port.get_port_name()), set_mask);
        regs.write_bits(GpioRegister::Output, bits, true);
    }

    fn clear_bits(&mut self, regs: &mut GpioPort, clear_mask: usize) {
        let mask = self.port.get_port_mask();
        let bits = bus_bits_of(mask, port_shift_of(self.port.get_port_name()), clear_mask);
        regs.write_bits(GpioRegister::Output, bits, false);
    }

    fn toggle_bits(&mut self, regs: &mut GpioPort, toggle_mask: usize) {
        let mask = self.port.get_port_mask();
        let bits = bus_bits_of(mask, port_shift_of(self.port.get_port_name()), toggle_mask);
        regs.toggle_bits(GpioRegister::Output, bits);
    }
}

/// A section of a port in GPIO mode `Mode`.
pub struct GpioSectionBus<Mode: GpioMode> {
    _config: Mode,
    section: PortSection,
}

/// Where the bus over the section `(port, offset, size)` lies.
pub open spec fn section_place(section: (PortName, nat, nat)) -> BusPlace {
    BusPlace {
        port: section.0.spec_index16(),
        mask: section_mask(section.0, section.1, section.2),
        shift: section.1 + port_shift(section.0),
    }
}

impl<Mode: GpioMode> View for GpioSectionBus<Mode> {
    type V = (PortName, nat, nat);

    closed spec fn view(&self) -> (PortName, nat, nat) {
        self.section@
    }
}

impl GpioSectionBus<Disabled> {
    /// Puts `section` in GPIO mode, routing its pins back to the GPIO
    /// function.
    pub fn new(section: PortSection, regs: &mut GpioPort) -> (r: GpioSectionBus<Disabled>)
        requires
            bus_registers(old(regs), section_place(section@)),
        ensures
            bus_registers(final(regs), section_place(section@)),
            r@ == section@,
            final(regs).trace() == old(regs).trace() + bus_select_steps(
                old(regs)@,
                section_place(section@).mask,
            ),
    {
        apply_gpio_function(regs, section.get_mask());
        GpioSectionBus { _config: Disabled, section }
    }
}

impl<Mode: GpioMode> GpioSectionBus<Mode> {
    /// Reconfigures the section as high-impedance inputs.
    pub fn to_input_highz(self, regs: &mut GpioPort) -> (r: GpioSectionBus<GpioIn<HighImpedance>>)
        requires
            bus_registers(old(regs), section_place(self@)),
        ensures
            bus_registers(final(regs), section_place(self@)),
            r@ == self@,
            final(regs).trace() == old(regs).trace() + highz_steps(
                old(regs)@,
                section_place(self@).mask,
            ),
    {
        apply_highz(regs, self.section.get_mask());
        GpioSectionBus { _config: GpioIn::high_impedance(), section: self.section }
    }

    /// Reconfigures the section as inputs with pull-up resistors.
    pub fn to_input_pullup(self, regs: &mut GpioPort) -> (r: GpioSectionBus<GpioIn<PullUp>>)
        requires
            bus_registers(old(regs), section_place(self@)),
        ensures
            bus_registers(final(regs), section_place(self@)),
            r@ == self@,
            final(regs).trace() == old(regs).trace() + pull_steps(
                old(regs)@,
                section_place(self@).mask,
                true,
            ),
    {
        apply_pull(regs, self.section.get_mask(), true);
        GpioSectionBus { _config: GpioIn::pull_up(), section: self.section }
    }

    /// Reconfigures the section as inputs with pull-down resistors.
    pub fn to_input_pulldown(self, regs: &mut GpioPort) -> (r: GpioSectionBus<GpioIn<PullDown>>)
        requires
            bus_registers(old(regs), section_place(self@)),
        ensures
            bus_registers(final(regs), section_place(self@)),
            r@ == self@,
            final(regs).trace() == old(regs).trace() + pull_steps(
                old(regs)@,
                section_place(self@).mask,
                false,
            ),
    {
        apply_pull(regs, self.section.get_mask(), false);
        GpioSectionBus { _config: GpioIn::pull_down(), section: self.section }
    }

    /// Reconfigures the section as push-pull outputs, driving low.
    pub fn to_output_pushpull(self, regs: &mut GpioPort) -> (r: GpioSectionBus<GpioOut<PushPull>>)
        requires
            bus_registers(old(regs), section_place(self@)),
        ensures
            bus_registers(final(regs), section_place(self@)),
            r@ == self@,
            final(regs).trace() == old(regs).trace() + pushpull_steps(
                old(regs)@,
                section_place(self@).mask,
            ),
            final(regs)@.direction & section_place(self@).mask == section_place(self@).mask,
            final(regs)@.output & section_place(self@).mask == 0,
    {
        apply_pushpull(regs, self.section.get_mask());
        GpioSectionBus { _config: GpioOut::push_pull(), section: self.section }
    }

    /// Reconfigures the section as open-collector outputs, driving low.
    pub fn to_output_opencollector(self, regs: &mut GpioPort) -> (r: GpioSectionBus<
        GpioOut<OpenCollector>,
    >)
        requires
            bus_registers(old(regs), section_place(self@)),
        ensures
            bus_registers(final(regs), section_place(self@)),
            r@ == self@,
            final(regs).trace() == old(regs).trace() + opencollector_steps(
                old(regs)@,
                section_place(self@).mask,
            ),
    {
        apply_opencollector(regs, self.section.get_mask());
        GpioSectionBus { _config: GpioOut::open_collector(), section: self.section }
    }

    /// Asks for exclusive access to the 8-bit ports that the section
    /// touches; fails while another token holds one of them.
    pub fn get_port_in_use_token(&self, table: &mut PortInUseTable) -> (r: Option<
        GpioPortInUseToken,
    >)
        ensures
            ({
                let bits = halves_of(section_place(self@).port, section_place(self@).mask);
                &&& r is Some <==> old(table)@ & bits == 0
                &&& r is Some ==> final(table)@ == old(table)@ | bits
                &&& r is None ==> final(table)@ == old(table)@
                &&& r matches Some(t) ==> t@ == bits
            }),
    {
        proof {
            use_type_invariant(&self.section);
            crate::names::lemma_port_of_names(self@.0);
        }
        let port = self.section.get_port_name().get_16_bit_port_index();
        table.acquire(halves_of_mask(port, self.section.get_mask()))
    }
}

impl<Mode: GpioMode> Sealed for GpioSectionBus<Mode> {}

/// The bit-0 offset of a section's bus, as `section_place` states it.
fn section_shift(section: &PortSection) -> (r: u16)
    ensures
        r == section_place(section@).shift,
        r < 16,
{
    proof {
        use_type_invariant(section);
    }
    let port = section.get_port_name();
    assert(port.spec_width() <= 16);
    assert(port_shift(port) == 8 ==> port.spec_width() <= 8);
    (section.get_offset() as u16) + port_shift_of(port)
}

/// The input part of every section bus mode but `Disabled`.
fn section_bus_read(section: &PortSection, regs: &GpioPort) -> (r: usize)
    requires
        bus_registers(regs, section_place(section@)),
    ensures
        r == bus_value(section_place(section@), regs@.input),
{
    let shift = section_shift(section);
    ((regs.input_levels() & section.get_mask()) >> shift) as usize
}

impl<InputMode: GpioInputMode> GpioBusInput for GpioSectionBus<GpioIn<InputMode>> {
    open spec fn place(&self) -> BusPlace {
        section_place(self@)
    }

    fn read(&self, regs: &GpioPort) -> (r: usize) {
        section_bus_read(&self.section, regs)
    }
}

impl<OutputMode: GpioOutputMode> GpioBusInput for GpioSectionBus<GpioOut<OutputMode>> {
    open spec fn place(&self) -> BusPlace {
        section_place(self@)
    }

    fn read(&self, regs: &GpioPort) -> (r: usize) {
        section_bus_read(&self.section, regs)
    }
}

impl GpioBusOutput for GpioSectionBus<GpioOut<PushPull>> {
    fn write(&mut self, regs: &mut GpioPort, value: usize) {
        let mask = self.section.get_mask();
        let bits = bus_bits_of(mask, section_shift(&self.section), value);
        regs.write_masked(GpioRegister::Output, mask, bits);
    }

    fn set_bits(&mut self, regs: &mut GpioPort, set_mask: usize) {
        let mask = self.section.get_mask();
        let bits = bus_bits_of(mask, section_shift(&self.section), set_mask);
        regs.write_bits(GpioRegister::Output, bits, true);
    }

    fn clear_bits(&mut self, regs: &mut GpioPort, clear_mask: usize) {
        let mask = self.section.get_mask();
        let bits = bus_bits_of(mask, section_shift(&self.section), clear_mask);
        regs.write_bits(GpioRegister::Output, bits, false);
    }

    fn toggle_bits(&mut self, regs: &mut GpioPort, toggle_mask: usize) {
        let mask = self.section.get_mask();
        let bits = bus_bits_of(mask, section_shift(&self.section), toggle_mask);
        regs.toggle_bits(GpioRegister::Output, bits);
    }
}

} // verus!
