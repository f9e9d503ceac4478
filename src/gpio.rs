//! The GPIO configuration modes, the register block of a GPIO port, and the
//! register-write sequences that move pins between modes.
//!
//! A `GpioPort` keeps, besides its registers, the ghost sequence of every
//! state its registers have been in after each committed write. The
//! contracts of the mode transitions state that sequence exactly, so the
//! order of the writes, and every intermediate electrical state, is part of
//! what is proved.

use core::sync::atomic::{compiler_fence, Ordering};
use vstd::prelude::*;

use crate::bits::{bit_mask, bit_of, merge_bits, with_bits};
use crate::names::PortName;
use crate::registers::{
    bitband_alias, peripheral_to_bitband_alias, ReadOnlyAccess, ReadWriteAccess, Reg,
    PERIPHERAL_BASE,
};
use crate::sealed::Sealed;

verus! {

/// A GPIO configuration mode.
pub trait GpioMode: Sealed {}

/// A GPIO input configuration.
pub trait GpioInputMode: Sealed {}

/// A GPIO output configuration.
pub trait GpioOutputMode: Sealed {}

/// The mode of a newly created GPIO instance: not yet configured.
pub struct Disabled;

/// An input configuration; `InputMode` picks the resistor.
pub struct GpioIn<InputMode: GpioInputMode> {
    _input_mode: InputMode,
}

/// Input without a pull resistor.
pub struct HighImpedance;

/// Input with the pull-up resistor.
pub struct PullUp;

/// Input with the pull-down resistor.
pub struct PullDown;

/// An output configuration; `OutputMode` picks the drive.
pub struct GpioOut<OutputMode: GpioOutputMode> {
    _output_mode: OutputMode,
}

/// Output that drives both levels.
pub struct PushPull;

/// Output that only drives low and otherwise releases the line to its
/// pull-up.
pub struct OpenCollector;

impl Sealed for Disabled {}
impl<InputMode: GpioInputMode> Sealed for GpioIn<InputMode> {}
impl<OutputMode: GpioOutputMode> Sealed for GpioOut<OutputMode> {}
impl Sealed for HighImpedance {}
impl Sealed for PullUp {}
impl Sealed for PullDown {}
impl Sealed for PushPull {}
impl Sealed for OpenCollector {}

impl GpioMode for Disabled {}
impl<InputMode: GpioInputMode> GpioMode for GpioIn<InputMode> {}
impl<OutputMode: GpioOutputMode> GpioMode for GpioOut<OutputMode> {}
impl GpioInputMode for HighImpedance {}
impl GpioInputMode for PullUp {}
impl GpioInputMode for PullDown {}
impl GpioOutputMode for PushPull {}
impl GpioOutputMode for OpenCollector {}

impl GpioIn<HighImpedance> {
    pub(crate) fn high_impedance() -> Self {
        GpioIn { _input_mode: HighImpedance }
    }
}

impl GpioIn<PullUp> {
    pub(crate) fn pull_up() -> Self {
        GpioIn { _input_mode: PullUp }
    }
}

impl GpioIn<PullDown> {
    pub(crate) fn pull_down() -> Self {
        GpioIn { _input_mode: PullDown }
    }
}

impl GpioOut<PushPull> {
    pub(crate) fn push_pull() -> Self {
        GpioOut { _output_mode: PushPull }
    }
}

impl GpioOut<OpenCollector> {
    pub(crate) fn open_collector() -> Self {
        GpioOut { _output_mode: OpenCollector }
    }
}

/// The registers of a GPIO port that the configuration logic writes.
#[derive(Clone, Copy, Debug, PartialEq, Eq, Structural)]
pub enum GpioRegister {
    /// Output level, or pull direction of an input with its resistor on.
    Output,
    /// Direction: 1 is output, 0 is input.
    Direction,
    /// Pull resistor enable.
    ResistorEnable,
    /// Low bit of the function select.
    Select0,
    /// High bit of the function select.
    Select1,
}

/// The contents of a GPIO port's registers.
#[derive(Clone, Copy, Debug, PartialEq, Eq, Structural)]
pub struct PortState {
    pub input: u16,
    pub output: u16,
    pub direction: u16,
    pub resistor_enable: u16,
    pub select_0: u16,
    pub select_1: u16,
}

impl PortState {
    /// The contents of register `reg`.
    pub open spec fn get(self, reg: GpioRegister) -> u16 {
        match reg {
            GpioRegister::Output => self.output,
            GpioRegister::Direction => self.direction,
            GpioRegister::ResistorEnable => self.resistor_enable,
            GpioRegister::Select0 => self.select_0,
            GpioRegister::Select1 => self.select_1,
        }
    }

    /// The state with register `reg` holding `value`.
    pub open spec fn set(self, reg: GpioRegister, value: u16) -> PortState {
        match reg {
            GpioRegister::Output => PortState { output: value, ..self },
            GpioRegister::Direction => PortState { direction: value, ..self },
            GpioRegister::ResistorEnable => PortState { resistor_enable: value, ..self },
            GpioRegister::Select0 => PortState { select_0: value, ..self },
            GpioRegister::Select1 => PortState { select_1: value, ..self },
        }
    }
}

/// The state after the bits `m` of `reg` are set (`v`) or cleared.
pub open spec fn step(s: PortState, reg: GpioRegister, m: u16, v: bool) -> PortState {
    s.set(reg, with_bits(s.get(reg), m, v))
}

/// Whether some pin of `m` is driven high.
pub open spec fn drives_high(s: PortState, m: u16) -> bool {
    s.direction & s.output & m != 0
}

/// To high-impedance input: resistor off, then direction to input.
pub open spec fn highz_steps(s: PortState, m: u16) -> Seq<PortState> {
    let s1 = step(s, GpioRegister::ResistorEnable, m, false);
    let s2 = step(s1, GpioRegister::Direction, m, false);
    seq![s1, s2]
}

/// To input with a pull resistor: resistor on, direction to input, then the
/// output bit picks the pull (`up` for pull-up).
pub open spec fn pull_steps(s: PortState, m: u16, up: bool) -> Seq<PortState> {
    let s1 = step(s, GpioRegister::ResistorEnable, m, true);
    let s2 = step(s1, GpioRegister::Direction, m, false);
    let s3 = step(s2, GpioRegister::Output, m, up);
    seq![s1, s2, s3]
}

/// To push-pull output: output low first, then direction to output.
pub open spec fn pushpull_steps(s: PortState, m: u16) -> Seq<PortState> {
    let s1 = step(s, GpioRegister::Output, m, false);
    let s2 = step(s1, GpioRegister::Direction, m, true);
    seq![s1, s2]
}

/// To open-collector output: output low, direction to output, then the
/// resistor on (so that a released line is pulled up).
pub open spec fn opencollector_steps(s: PortState, m: u16) -> Seq<PortState> {
    let s1 = step(s, GpioRegister::Output, m, false);
    let s2 = step(s1, GpioRegister::Direction, m, true);
    let s3 = step(s2, GpioRegister::ResistorEnable, m, true);
    seq![s1, s2, s3]
}

/// Open-collector high: stop driving first, then pull up.
pub open spec fn release_steps(s: PortState, m: u16) -> Seq<PortState> {
    let s1 = step(s, GpioRegister::Direction, m, false);
    let s2 = step(s1, GpioRegister::Output, m, true);
    seq![s1, s2]
}

/// Open-collector low: output low first, then start driving.
pub open spec fn drive_low_steps(s: PortState, m: u16) -> Seq<PortState> {
    let s1 = step(s, GpioRegister::Output, m, false);
    let s2 = step(s1, GpioRegister::Direction, m, true);
    seq![s1, s2]
}

/// The alternate function that a pin is routed to.
#[derive(Clone, Copy, Debug, PartialEq, Eq, Structural)]
pub enum PinMode {
    DefaultGpio,
    Alternate1,
    Alternate2,
    Alternate3,
}

/// The function-select bits (select 0, select 1) of a mode.
pub open spec fn mode_select(mode: PinMode) -> (bool, bool) {
    match mode {
        PinMode::DefaultGpio => (false, false),
        PinMode::Alternate1 => (true, false),
        PinMode::Alternate2 => (false, true),
        PinMode::Alternate3 => (true, true),
    }
}

/// The writes that route pin `b` to `mode`: nothing when it is there
/// already; one toggle of the select bit that differs; and when both differ,
/// one write of the complement register, which inverts both at once.
pub open spec fn select_steps(s: PortState, b: u16, mode: PinMode) -> Seq<PortState> {
    let flip0 = bit_of(s.select_0, b) != mode_select(mode).0;
    let flip1 = bit_of(s.select_1, b) != mode_select(mode).1;
    let m = bit_mask(b);
    if flip0 && flip1 {
        seq![PortState { select_0: s.select_0 ^ m, select_1: s.select_1 ^ m, ..s }]
    } else if flip0 {
        seq![PortState { select_0: s.select_0 ^ m, ..s }]
    } else if flip1 {
        seq![PortState { select_1: s.select_1 ^ m, ..s }]
    } else {
        seq![]
    }
}

/// Relies on std::sync::atomic::compiler_fence: no memory access is moved
/// across this point by the compiler.
#[verifier::external_body]
pub(crate) fn barrier() {
    compiler_fence(Ordering::SeqCst)
}

/// The register block of one 16-bit GPIO port.
pub struct GpioPort {
    index: usize,
    input: Reg<ReadOnlyAccess>,
    output: Reg<ReadWriteAccess>,
    direction: Reg<ReadWriteAccess>,
    resistor_enable: Reg<ReadWriteAccess>,
    select_0: Reg<ReadWriteAccess>,
    select_1: Reg<ReadWriteAccess>,
    history: Ghost<Seq<PortState>>,
}

impl View for GpioPort {
    type V = PortState;

    closed spec fn view(&self) -> PortState {
        PortState {
            input: self.input@,
            output: self.output@,
            direction: self.direction@,
            resistor_enable: self.resistor_enable@,
            select_0: self.select_0@,
            select_1: self.select_1@,
        }
    }
}

impl GpioPort {
    /// The index of the 16-bit port whose registers these are.
    pub closed spec fn index(&self) -> nat {
        self.index as nat
    }

    /// Every state the registers have held, one after each committed write,
    /// oldest first.
    pub closed spec fn trace(&self) -> Seq<PortState> {
        self.history@
    }

    /// The last state of the trace is the current one.
    pub open spec fn wf(&self) -> bool {
        &&& self.index() < 6
        &&& self.trace().len() > 0
        &&& self.trace().last() == self@
    }

    /// The registers of `port`'s 16-bit port, all zero, as after reset.
    pub fn new(port: PortName) -> (r: GpioPort)
        ensures
            r.wf(),
            r.index() == port.spec_index16(),
            r@ == (PortState {
                input: 0,
                output: 0,
                direction: 0,
                resistor_enable: 0,
                select_0: 0,
                select_1: 0,
            }),
            r.trace() == seq![r@],
    {
        proof {
            crate::names::lemma_port_of_names(port);
        }
        let mut r = GpioPort {
            index: port.get_16_bit_port_index(),
            input: Reg::new(0),
            output: Reg::new(0),
            direction: Reg::new(0),
            resistor_enable: Reg::new(0),
            select_0: Reg::new(0),
            select_1: Reg::new(0),
            history: Ghost(Seq::empty()),
        };
        let ghost first = seq![r@];
        r.history = Ghost(first);
        r
    }

    /// The index of the 16-bit port whose registers these are.
    pub fn port_index(&self) -> (r: usize)
        ensures
            r == self.index(),
    {
        self.index
    }

    /// Latches `levels` into the input register, as the pins' sampled levels.
    pub fn set_input_levels(&mut self, levels: u16)
        requires
            old(self).wf(),
        ensures
            final(self).wf(),
            final(self).index() == old(self).index(),
            final(self)@ == (PortState { input: levels, ..old(self)@ }),
            final(self).trace() == old(self).trace().push(final(self)@),
    {
        self.input = Reg::new(levels);
        let ghost grown = self.history@.push(self@);
        self.history = Ghost(grown);
    }

    /// The input register.
    pub fn input_levels(&self) -> (r: u16)
        ensures
            r == self@.input,
    {
        self.input.read()
    }

    /// The output register.
    pub fn output_levels(&self) -> (r: u16)
        ensures
            r == self@.output,
    {
        self.output.read()
    }

    /// The direction register.
    pub fn direction_bits(&self) -> (r: u16)
        ensures
            r == self@.direction,
    {
        self.direction.read()
    }

    /// The resistor-enable register.
    pub fn resistor_bits(&self) -> (r: u16)
        ensures
            r == self@.resistor_enable,
    {
        self.resistor_enable.read()
    }

    /// The two function-select registers.
    pub fn select_bits(&self) -> (r: (u16, u16))
        ensures
            r == (self@.select_0, self@.select_1),
    {
        (self.select_0.read(), self.select_1.read())
    }

    /// Reads bit `bit` of the input register.
    pub fn read_input_bit(&self, bit: u16) -> (r: bool)
        requires
            bit < 16,
        ensures
            r == bit_of(self@.input, bit),
    {
        self.input.read_bit(bit)
    }

    /// Sets (`value`) or clears the bits `mask` of `reg`: one committed write.
    pub(crate) fn write_bits(&mut self, reg: GpioRegister, mask: u16, value: bool)
        requires
            old(self).wf(),
        ensures
            final(self).wf(),
            final(self).index() == old(self).index(),
            final(self)@ == step(old(self)@, reg, mask, value),
            final(self).trace() == old(self).trace().push(final(self)@),
    {
        let target = match reg {
            GpioRegister::Output => &mut self.output,
            GpioRegister::Direction => &mut self.direction,
            GpioRegister::ResistorEnable => &mut self.resistor_enable,
            GpioRegister::Select0 => &mut self.select_0,
            GpioRegister::Select1 => &mut self.select_1,
        };
        if value {
            target.set_bits(mask);
        } else {
            target.clear_bits(mask);
        }
        let ghost grown = self.history@.push(self@);
        self.history = Ghost(grown);
    }

    /// Inverts the bits `mask` of `reg`: one committed write.
    pub(crate) fn toggle_bits(&mut self, reg: GpioRegister, mask: u16)
        requires
            old(self).wf(),
        ensures
            final(self).wf(),
            final(self).index() == old(self).index(),
            final(self)@ == old(self)@.set(reg, old(self)@.get(reg) ^ mask),
            final(self).trace() == old(self).trace().push(final(self)@),
    {
        let target = match reg {
            GpioRegister::Output => &mut self.output,
            GpioRegister::Direction => &mut self.direction,
            GpioRegister::ResistorEnable => &mut self.resistor_enable,
            GpioRegister::Select0 => &mut self.select_0,
            GpioRegister::Select1 => &mut self.select_1,
        };
        target.toggle_bits(mask);
        let ghost grown = self.history@.push(self@);
        self.history = Ghost(grown);
    }

    /// Replaces the bits `mask` of `reg` with those of `value`: one committed
    /// write.
    pub(crate) fn write_masked(&mut self, reg: GpioRegister, mask: u16, value: u16)
        requires
            old(self).wf(),
        ensures
            final(self).wf(),
            final(self).index() == old(self).index(),
            final(self)@ == old(self)@.set(reg, merge_bits(old(self)@.get(reg), mask, value)),
            final(self).trace() == old(self).trace().push(final(self)@),
    {
        let target = match reg {
            GpioRegister::Output => &mut self.output,
            GpioRegister::Direction => &mut self.direction,
            GpioRegister::ResistorEnable => &mut self.resistor_enable,
            GpioRegister::Select0 => &mut self.select_0,
            GpioRegister::Select1 => &mut self.select_1,
        };
        target.write_masked(mask, value);
        let ghost grown = self.history@.push(self@);
        self.history = Ghost(grown);
    }

    /// Writes the complement-select bits `mask`, which inverts both
    /// function-select bits of those pins in one committed write.
    pub(crate) fn complement_select(&mut self, mask: u16)
        requires
            old(self).wf(),
        ensures
            final(self).wf(),
            final(self).index() == old(self).index(),
            final(self)@ == (PortState {
                select_0: old(self)@.select_0 ^ mask,
                select_1: old(self)@.select_1 ^ mask,
                ..old(self)@
            }),
            final(self).trace() == old(self).trace().push(final(self)@),
    {
        self.select_0.toggle_bits(mask);
        self.select_1.toggle_bits(mask);
        let ghost grown = self.history@.push(self@);
        self.history = Ghost(grown);
    }
}

/// Routes pin `bit` of `regs` to the function `desired_mode`, changing only
/// the select bits that differ (both at once through the complement
/// register).
pub fn set_pin_function(regs: &mut GpioPort, bit: u16, desired_mode: PinMode)
    requires
        old(regs).wf(),
        bit < 16,
    ensures
        final(regs).wf(),
        final(regs).index() == old(regs).index(),
        final(regs).trace() == old(regs).trace() + select_steps(old(regs)@, bit, desired_mode),
        bit_of(final(regs)@.select_0, bit) == mode_select(desired_mode).0,
        bit_of(final(regs)@.select_1, bit) == mode_select(desired_mode).1,
{
    let (want_0, want_1) = match desired_mode {
        PinMode::DefaultGpio => (false, false),
        PinMode::Alternate1 => (true, false),
        PinMode::Alternate2 => (false, true),
        PinMode::Alternate3 => (true, true),
    };
    let (select_0, select_1) = regs.select_bits();
    let flip_0 = ((select_0 >> bit) & 1u16 == 1u16) != want_0;
    let flip_1 = ((select_1 >> bit) & 1u16 == 1u16) != want_1;
    let mask = 1u16 << bit;
    proof {
        crate::bits::lemma_flip_bit(select_0, bit);
        crate::bits::lemma_flip_bit(select_1, bit);
    }
    if flip_0 && flip_1 {
        regs.complement_select(mask);
    } else if flip_0 {
        regs.toggle_bits(GpioRegister::Select0, mask);
    } else if flip_1 {
        regs.toggle_bits(GpioRegister::Select1, mask);
    }
    assert(final(regs).trace() =~= old(regs).trace() + select_steps(old(regs)@, bit, desired_mode));
}

/// Makes the pins of `mask` high-impedance inputs.
pub(crate) fn apply_highz(regs: &mut GpioPort, mask: u16)
    requires
        old(regs).wf(),
    ensures
        final(regs).wf(),
        final(regs).index() == old(regs).index(),
        final(regs).trace() == old(regs).trace() + highz_steps(old(regs)@, mask),
{
    regs.write_bits(GpioRegister::ResistorEnable, mask, false);
    regs.write_bits(GpioRegister::Direction, mask, false);
    assert(final(regs).trace() =~= old(regs).trace() + highz_steps(old(regs)@, mask));
}

/// Makes the pins of `mask` inputs pulled up (`up`) or down.
pub(crate) fn apply_pull(regs: &mut GpioPort, mask: u16, up: bool)
    requires
        old(regs).wf(),
    ensures
        final(regs).wf(),
        final(regs).index() == old(regs).index(),
        final(regs).trace() == old(regs).trace() + pull_steps(old(regs)@, mask, up),
{
    regs.write_bits(GpioRegister::ResistorEnable, mask, true);
    regs.write_bits(GpioRegister::Direction, mask, false);
    regs.write_bits(GpioRegister::Output, mask, up);
    assert(final(regs).trace() =~= old(regs).trace() + pull_steps(old(regs)@, mask, up));
}

/// Makes the pins of `mask` push-pull outputs, driving low.
pub(crate) fn apply_pushpull(regs: &mut GpioPort, mask: u16)
    requires
        old(regs).wf(),
    ensures
        final(regs).wf(),
        final(regs).index() == old(regs).index(),
        final(regs).trace() == old(regs).trace() + pushpull_steps(old(regs)@, mask),
        final(regs)@.direction & mask == mask,
        final(regs)@.output & mask == 0,
{
    let ghost s0 = regs@;
    regs.write_bits(GpioRegister::Output, mask, false);
    let ghost s1 = regs@;
    regs.write_bits(GpioRegister::Direction, mask, true);
    let ghost o = s0.output;
    let ghost d = s1.direction;
    assert((o & !mask) & mask == 0) by (bit_vector);
    assert((d | mask) & mask == mask) by (bit_vector);
    assert(final(regs).trace() =~= old(regs).trace() + pushpull_steps(old(regs)@, mask));
}

/// Makes the pins of `mask` open-collector outputs, driving low.
pub(crate) fn apply_opencollector(regs: &mut GpioPort, mask: u16)
    requires
        old(regs).wf(),
    ensures
        final(regs).wf(),
        final(regs).index() == old(regs).index(),
        final(regs).trace() == old(regs).trace() + opencollector_steps(old(regs)@, mask),
{
    regs.write_bits(GpioRegister::Output, mask, false);
    regs.write_bits(GpioRegister::Direction, mask, true);
    regs.write_bits(GpioRegister::ResistorEnable, mask, true);
    assert(final(regs).trace() =~= old(regs).trace() + opencollector_steps(old(regs)@, mask));
}

/// Routing every pin of `m` back to GPIO: pins with both select bits set
/// flip both at once through the complement register, then the remaining
/// select 0 and select 1 bits are cleared. No pin changes function more than
/// once.
pub open spec fn bus_select_steps(s: PortState, m: u16) -> Seq<PortState> {
    let both = s.select_0 & s.select_1 & m;
    let s1 = PortState { select_0: s.select_0 ^ both, select_1: s.select_1 ^ both, ..s };
    let s2 = step(s1, GpioRegister::Select0, m, false);
    let s3 = step(s2, GpioRegister::Select1, m, false);
    seq![s1, s2, s3]
}

/// Routes every pin of `mask` back to the GPIO function.
pub(crate) fn apply_gpio_function(regs: &mut GpioPort, mask: u16)
    requires
        old(regs).wf(),
    ensures
        final(regs).wf(),
        final(regs).index() == old(regs).index(),
        final(regs).trace() == old(regs).trace() + bus_select_steps(old(regs)@, mask),
        final(regs)@.select_0 & mask == 0,
        final(regs)@.select_1 & mask == 0,
{
    let (select_0, select_1) = regs.select_bits();
    let both = select_0 & select_1 & mask;
    regs.complement_select(both);
    let ghost s1 = regs@;
    regs.write_bits(GpioRegister::Select0, mask, false);
    let ghost s2 = regs@;
    regs.write_bits(GpioRegister::Select1, mask, false);
    let ghost a = s1.select_0;
    let ghost b = s2.select_1;
    assert((a & !mask) & mask == 0) by (bit_vector);
    assert((b & !mask) & mask == 0) by (bit_vector);
    assert(final(regs).trace() =~= old(regs).trace() + bus_select_steps(old(regs)@, mask));
}

/// No configuration sequence into an output mode, and no level change of an
/// open-collector output, passes through a state in which a pin of `m` is
/// driven high: push-pull and open-collector configuration and the
/// open-collector low write the output low before the direction becomes
/// output, and the open-collector high makes the direction input before the
/// output goes high.
pub proof fn lemma_outputs_never_glitch_high(s: PortState, m: u16)
    ensures
        forall|i: int| 0 <= i < 2 ==> !drives_high(#[trigger] pushpull_steps(s, m)[i], m),
        forall|i: int| 0 <= i < 3 ==> !drives_high(#[trigger] opencollector_steps(s, m)[i], m),
        forall|i: int| 0 <= i < 2 ==> !drives_high(#[trigger] release_steps(s, m)[i], m),
        forall|i: int| 0 <= i < 2 ==> !drives_high(#[trigger] drive_low_steps(s, m)[i], m),
        drive_low_steps(s, m)[0].output & m == 0,
        drive_low_steps(s, m)[0].direction == s.direction,
        release_steps(s, m)[0].direction & m == 0,
        release_steps(s, m)[0].output == s.output,
{
    let d = s.direction;
    let o = s.output;
    assert(d & (o & !m) & m == 0) by (bit_vector);
    assert((d | m) & (o & !m) & m == 0) by (bit_vector);
    assert((d & !m) & o & m == 0) by (bit_vector);
    assert((d & !m) & (o | m) & m == 0) by (bit_vector);
    assert((o & !m) & m == 0) by (bit_vector);
    assert((d & !m) & m == 0) by (bit_vector);
    assert forall|i: int| 0 <= i < 2 implies !drives_high(#[trigger] pushpull_steps(s, m)[i], m) by {
    }
    assert forall|i: int| 0 <= i < 3 implies !drives_high(#[trigger] opencollector_steps(s, m)[i], m) by {
    }
    assert forall|i: int| 0 <= i < 2 implies !drives_high(#[trigger] release_steps(s, m)[i], m) by {
    }
    assert forall|i: int| 0 <= i < 2 implies !drives_high(#[trigger] drive_low_steps(s, m)[i], m) by {
    }
}

/// Base address of the GPIO port modules.
pub const PORT_MODULE: u32 = PERIPHERAL_BASE + 0x4C00;

/// Offset of port J's registers from `PORT_MODULE`.
pub const PORT_J_OFFSET: u32 = 0x120;

/// Size in bytes of one port's register block (sixteen 16-bit registers).
pub const GPIO_PORT_SIZE: u32 = 0x20;

/// The address of the register block of 16-bit port `index`.
pub open spec fn port_address(index: nat) -> int {
    if index == 5 {
        PORT_MODULE + PORT_J_OFFSET
    } else {
        PORT_MODULE + GPIO_PORT_SIZE * index
    }
}

/// The byte offset of a register within its port's block.
pub open spec fn register_offset(reg: GpioRegister) -> u32 {
    match reg {
        GpioRegister::Output => 2,
        GpioRegister::Direction => 4,
        GpioRegister::ResistorEnable => 6,
        GpioRegister::Select0 => 10,
        GpioRegister::Select1 => 12,
    }
}

/// The address of the register block of the 16-bit port that holds `port`.
pub fn gpio_port_address(port: PortName) -> (r: u32)
    ensures
        r == port_address(port.spec_index16()),
{
    proof {
        crate::names::lemma_port_of_names(port);
    }
    let index = port.get_16_bit_port_index() as u32;
    if index == 5 {
        PORT_MODULE + PORT_J_OFFSET
    } else {
        PORT_MODULE + GPIO_PORT_SIZE * index
    }
}

/// The bit-band alias address through which bit `bit` of register `reg` of
/// `port`'s 16-bit port is written on its own.
pub fn register_bitband_address(port: PortName, reg: GpioRegister, bit: u8) -> (r: u32)
    requires
        bit < 16,
    ensures
        r == bitband_alias((port_address(port.spec_index16()) + register_offset(reg)) as u32, bit),
{
    let offset: u32 = match reg {
        GpioRegister::Output => 2,
        GpioRegister::Direction => 4,
        GpioRegister::ResistorEnable => 6,
        GpioRegister::Select0 => 10,
        GpioRegister::Select1 => 12,
    };
    peripheral_to_bitband_alias(gpio_port_address(port) + offset, bit)
}

} // verus!
