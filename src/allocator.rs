//! Runtime ownership of pins, ports and port sections.
//!
//! A `PinAllocator` keeps one "available" mask per 16-bit port. A claim
//! clears the bits it takes and succeeds only if all of them were set; a
//! release sets them again. The allocator is a single service object that
//! every claim and release borrows exclusively, so each read-and-clear is
//! indivisible with respect to every other claim.

use vstd::prelude::*;

use crate::bits::bit_mask;
use crate::names::{
    lemma_conversion_round_trip, lemma_port_of_names, pin_offset16, pin_port16, valid_pin, PinName,
    PortName, PortSize,
};
use crate::sealed::Sealed;

verus! {

/// The chip packages, which bond out different sets of pins.
#[derive(Clone, Copy, Debug, PartialEq, Eq, Structural)]
pub enum Package {
    Vqfn,
    Nfbga,
    Lqfp,
}

/// The pins that a package bonds out, as one mask per 16-bit port.
pub open spec fn package_pins(package: Package) -> Seq<u16> {
    match package {
        Package::Vqfn => seq![0x0FFFu16, 0xFCFFu16, 0xC0FFu16, 0x03FFu16, 0x0000u16, 0x003Fu16],
        Package::Nfbga => seq![0xFFFFu16, 0xFFFFu16, 0xFFFFu16, 0x03FFu16, 0x0000u16, 0x003Fu16],
        Package::Lqfp => seq![0xFFFFu16, 0xFFFFu16, 0xFFFFu16, 0xFFFFu16, 0xFFFFu16, 0x003Fu16],
    }
}

/// Whether port `i` exists and every bit of `m` is available in its mask.
pub open spec fn bits_free(s: Seq<u16>, i: nat, m: u16) -> bool {
    i < s.len() && s[i as int] & m == m
}

/// The state after a claim of the bits `m` of port `i`: they are taken when
/// all of them are available, and nothing changes otherwise.
pub open spec fn take_bits(s: Seq<u16>, i: nat, m: u16) -> Seq<u16> {
    if bits_free(s, i, m) {
        s.update(i as int, s[i as int] & !m)
    } else {
        s
    }
}

/// The state after the bits `m` of port `i` are given back.
pub open spec fn return_bits(s: Seq<u16>, i: nat, m: u16) -> Seq<u16> {
    if i < s.len() {
        s.update(i as int, s[i as int] | m)
    } else {
        s
    }
}

/// The bit of a pin within its 16-bit port's mask.
pub open spec fn pin_bit(p: (PortName, nat)) -> u16 {
    bit_mask(pin_offset16(p) as u16)
}

/// Whether pin `p` is available.
pub open spec fn pin_free(s: Seq<u16>, p: (PortName, nat)) -> bool {
    bits_free(s, pin_port16(p), pin_bit(p))
}

/// The state after a claim of pin `p`.
pub open spec fn claim_pin(s: Seq<u16>, p: (PortName, nat)) -> Seq<u16> {
    take_bits(s, pin_port16(p), pin_bit(p))
}

/// The state after pin `p` is released.
pub open spec fn release_pin(s: Seq<u16>, p: (PortName, nat)) -> Seq<u16> {
    return_bits(s, pin_port16(p), pin_bit(p))
}

/// The bits, within its 16-bit port's mask, of the pins of `port`.
pub open spec fn port_mask(port: PortName) -> u16 {
    if port == PortName::PORTJ || port == PortName::PORTJ_8BIT {
        0x003Fu16
    } else if port.spec_size() == PortSize::Port16Bit {
        0xFFFFu16
    } else if port.spec_number() % 2 == 1 {
        0xFF00u16
    } else {
        0x00FFu16
    }
}

/// Where the bits of `port` start within its 16-bit port's mask.
pub open spec fn port_shift(port: PortName) -> nat {
    if port.spec_size() == PortSize::Port8Bit && port.spec_number() % 2 == 1 {
        8
    } else {
        0
    }
}

/// The bits, within its 16-bit port's mask, of the `size` pins of `port`
/// that start at `offset`.
pub open spec fn section_mask(port: PortName, offset: nat, size: nat) -> u16 {
    ((((1u32 << size as u32) - 1) as u32) << (offset + port_shift(port)) as u32) as u16
}

/// Every pin of the names in `names`, claimed one after the other.
pub open spec fn claim_all(s: Seq<u16>, names: Seq<(PortName, nat)>) -> Seq<u16>
    decreases names.len(),
{
    if names.len() == 0 {
        s
    } else {
        claim_pin(claim_all(s, names.drop_last()), names.last())
    }
}

/// Whether each pin of `names` is available when its turn comes, in a claim
/// of all of them one after the other.
pub open spec fn all_claimable(s: Seq<u16>, names: Seq<(PortName, nat)>) -> bool
    decreases names.len(),
{
    names.len() == 0 || (all_claimable(s, names.drop_last()) && pin_free(
        claim_all(s, names.drop_last()),
        names.last(),
    ))
}

/// Every pin of `pins` released, the last first.
pub open spec fn release_all(s: Seq<u16>, pins: Seq<(PortName, nat)>) -> Seq<u16>
    decreases pins.len(),
{
    if pins.len() == 0 {
        s
    } else {
        release_all(release_pin(s, pins.last()), pins.drop_last())
    }
}

/// Taking bits that are available and giving them back restores the state.
pub proof fn lemma_take_return(s: Seq<u16>, i: nat, m: u16)
    requires
        i < s.len(),
        bits_free(s, i, m),
    ensures
        return_bits(take_bits(s, i, m), i, m) == s,
{
    let x = s[i as int];
    assert((x & !m) | m == x) by (bit_vector)
        requires x & m == m;
    assert(return_bits(take_bits(s, i, m), i, m) =~= s);
}

/// A pin's coordinates lie within the allocator's masks.
pub proof fn lemma_pin_in_range(p: (PortName, nat))
    requires
        valid_pin(p),
    ensures
        pin_port16(p) < 6,
        pin_offset16(p) < 16,
{
    lemma_conversion_round_trip(p);
}

/// The table of available pins.
pub struct PinAllocator {
    available: Vec<u16>,
}

impl View for PinAllocator {
    type V = Seq<u16>;

    closed spec fn view(&self) -> Seq<u16> {
        self.available@
    }
}

impl PinAllocator {
    /// One mask for each of the six 16-bit ports.
    pub open spec fn wf(&self) -> bool {
        self@.len() == 6
    }

    /// The table for `package`, with every pin that it bonds out available.
    pub fn new(package: Package) -> (r: PinAllocator)
        ensures
            r.wf(),
            r@ == package_pins(package),
    {
        let available = match package {
            Package::Vqfn => vec![0x0FFFu16, 0xFCFFu16, 0xC0FFu16, 0x03FFu16, 0x0000u16, 0x003Fu16],
            Package::Nfbga => vec![0xFFFFu16, 0xFFFFu16, 0xFFFFu16, 0x03FFu16, 0x0000u16, 0x003Fu16],
            Package::Lqfp => vec![0xFFFFu16, 0xFFFFu16, 0xFFFFu16, 0xFFFFu16, 0xFFFFu16, 0x003Fu16],
        };
        let r = PinAllocator { available };
        assert(r@ =~= package_pins(package));
        r
    }

    /// Whether the pin named `name` is available.
    pub fn is_available(&self, name: PinName) -> (r: bool)
        requires
            self.wf(),
        ensures
            r == pin_free(self@, name@),
    {
        let p16 = name.to_16_bit();
        proof {
            use_type_invariant(&name);
            lemma_conversion_round_trip(name@);
        }
        let mask = 1u16 << (p16.pin_offset() as u16);
        self.available[p16.port_name().number()] & mask == mask
    }

    /// Claims the bits `mask` of port `index`: clears them all in one
    /// read-and-clear and, if any of them was already taken, sets back the
    /// ones that this claim cleared, so that bits owned by others are never
    /// touched.
    fn take(&mut self, index: usize, mask: u16) -> (r: bool)
        requires
            old(self).wf(),
            index < 6,
        ensures
            final(self).wf(),
            r == bits_free(old(self)@, index as nat, mask),
            final(self)@ == take_bits(old(self)@, index as nat, mask),
    {
        let previous = self.available[index];
        self.available.set(index, previous & !mask);
        if previous & mask != mask {
            let cleared = previous & mask;
            let now = self.available[index];
            self.available.set(index, now | cleared);
            assert((previous & !mask) | (previous & mask) == previous) by (bit_vector);
            assert(final(self)@ =~= old(self)@);
            false
        } else {
            true
        }
    }

    /// Gives back the bits `mask` of port `index`.
    fn give_back(&mut self, index: usize, mask: u16)
        requires
            old(self).wf(),
            index < 6,
        ensures
            final(self).wf(),
            final(self)@ == return_bits(old(self)@, index as nat, mask),
    {
        let previous = self.available[index];
        self.available.set(index, previous | mask);
    }
}

/// Implemented by what owns bits of a port.
pub trait PortComponent: Sealed {
    /// The bits owned within the 16-bit port's mask.
    fn get_port_mask(&self) -> u16;

    /// The complement of `get_port_mask`.
    fn get_port_clear_mask(&self) -> u16;
}

/// Exclusive ownership of one pin.
pub struct Pin {
    pin: PinName,
}

impl View for Pin {
    type V = (PortName, nat);

    closed spec fn view(&self) -> (PortName, nat) {
        self.pin@
    }
}

impl Pin {
    /// A pin is owned under a valid name.
    #[verifier::type_invariant]
    pub open spec fn well_formed(self) -> bool {
        valid_pin(self@)
    }

    /// Claims the pin named `pin`: succeeds exactly when it is available.
    pub fn new(allocator: &mut PinAllocator, pin: PinName) -> (r: Option<Pin>)
        requires
            old(allocator).wf(),
        ensures
            final(allocator).wf(),
            r is Some <==> pin_free(old(allocator)@, pin@),
            final(allocator)@ == claim_pin(old(allocator)@, pin@),
            r matches Some(p) ==> p@ == pin@,
    {
        let p16 = pin.to_16_bit();
        proof {
            use_type_invariant(&pin);
            lemma_conversion_round_trip(pin@);
        }
        let mask = 1u16 << (p16.pin_offset() as u16);
        if allocator.take(p16.port_name().number(), mask) {
            Some(Pin { pin })
        } else {
            None
        }
    }

    /// Gives the pin back.
    pub fn release(self, allocator: &mut PinAllocator)
        requires
            old(allocator).wf(),
        ensures
            final(allocator).wf(),
            final(allocator)@ == release_pin(old(allocator)@, self@),
    {
        let p16 = self.pin.to_16_bit();
        proof {
            use_type_invariant(&self.pin);
            lemma_conversion_round_trip(self.pin@);
        }
        allocator.give_back(p16.port_name().number(), 1u16 << (p16.pin_offset() as u16));
    }

    /// The name the pin was claimed under.
    pub fn get_pin(&self) -> (r: PinName)
        ensures
            r@ == self@,
    {
        self.pin
    }

    /// The index of the pin's 16-bit port.
    pub fn get_port(&self) -> (r: u8)
        ensures
            r == pin_port16(self@),
            r < 6,
    {
        proof {
            use_type_invariant(&self.pin);
            lemma_pin_in_range(self.pin@);
        }
        self.pin.to_16_bit().port_name().number() as u8
    }

    /// The pin's offset within its 16-bit port.
    pub fn get_pin_offset_in_port(&self) -> (r: u8)
        ensures
            r == pin_offset16(self@),
            r < 16,
    {
        proof {
            use_type_invariant(&self.pin);
            lemma_pin_in_range(self.pin@);
        }
        self.pin.to_16_bit().pin_offset() as u8
    }
}

impl Sealed for Pin {}

impl PortComponent for Pin {
    fn get_port_mask(&self) -> (r: u16)
        ensures
            r == pin_bit(self@),
    {
        1u16 << (self.get_pin_offset_in_port() as u16)
    }

    fn get_port_clear_mask(&self) -> (r: u16)
        ensures
            r == !pin_bit(self@),
    {
        !self.get_port_mask()
    }
}

/// The mask of a port's pins, as `port_mask` states it.
fn port_mask_of(port: PortName) -> (r: u16)
    ensures
        r == port_mask(port),
{
    match port {
        PortName::PORTJ | PortName::PORTJ_8BIT => 0x003F,
        _ => match port.get_port_size() {
            PortSize::Port16Bit => 0xFFFF,
            PortSize::Port8Bit => if port.is_upper_half_port() {
                0xFF00
            } else {
                0x00FF
            },
        },
    }
}

/// Where a port's bits start within its 16-bit port, as `port_shift` states.
pub(crate) fn port_shift_of(port: PortName) -> (r: u16)
    ensures
        r == port_shift(port),
{
    match port.get_port_size() {
        PortSize::Port8Bit => if port.is_upper_half_port() {
            8
        } else {
            0
        },
        PortSize::Port16Bit => 0,
    }
}

/// Describes a port that can be identified by its name.
pub trait PortId: Sealed {
    /// The name of the port.
    fn get_port_name(&self) -> PortName;

    /// The number of pins of the port.
    fn get_port_size(&self) -> usize;
}

/// Exclusive ownership of every pin of a port (an 8-bit half or a whole
/// 16-bit port).
pub struct Port {
    name: PortName,
}

impl View for Port {
    type V = PortName;

    closed spec fn view(&self) -> PortName {
        self.name
    }
}

impl Port {
    /// Claims every pin of `name`: succeeds exactly when all of them are
    /// available, and on failure leaves every pin as it was.
    pub fn new(allocator: &mut PinAllocator, name: PortName) -> (r: Option<Port>)
        requires
            old(allocator).wf(),
        ensures
            final(allocator).wf(),
            r is Some <==> bits_free(old(allocator)@, name.spec_index16(), port_mask(name)),
            final(allocator)@ == take_bits(old(allocator)@, name.spec_index16(), port_mask(name)),
            r matches Some(p) ==> p@ == name,
    {
        proof {
            lemma_port_of_names(name);
        }
        if allocator.take(name.get_16_bit_port_index(), port_mask_of(name)) {
            Some(Port { name })
        } else {
            None
        }
    }

    /// Gives every pin of the port back.
    pub fn release(self, allocator: &mut PinAllocator)
        requires
            old(allocator).wf(),
        ensures
            final(allocator).wf(),
            final(allocator)@ == return_bits(
                old(allocator)@,
                self@.spec_index16(),
                port_mask(self@),
            ),
    {
        proof {
            lemma_port_of_names(self.name);
        }
        allocator.give_back(self.name.get_16_bit_port_index(), port_mask_of(self.name));
    }
}

impl Sealed for Port {}

impl PortId for Port {
    fn get_port_name(&self) -> (r: PortName)
        ensures
            r == self@,
    {
        self.name
    }

    fn get_port_size(&self) -> (r: usize)
        ensures
            r == self@.spec_width(),
    {
        self.name.width()
    }
}

impl PortComponent for Port {
    fn get_port_mask(&self) -> (r: u16)
        ensures
            r == port_mask(self@),
    {
        port_mask_of(self.name)
    }

    fn get_port_clear_mask(&self) -> (r: u16)
        ensures
            r == !port_mask(self@),
    {
        !port_mask_of(self.name)
    }
}

/// Describes a contiguous run of pins within one port.
pub trait PortSectionX: Sealed {
    /// The port that holds the section.
    fn get_port_name(&self) -> PortName;

    /// The number of pins of the section.
    fn get_size(&self) -> usize;

    /// The offset, within its port, of the section's first pin.
    fn get_offset(&self) -> usize;

    /// The section's bits within its 16-bit port's mask.
    fn get_mask(&self) -> u16;
}

/// Exclusive ownership of `size` consecutive pins of a port.
pub struct PortSection {
    port: PortName,
    offset: usize,
    size: usize,
}

/// Whether `size` pins from `offset` on lie within `port`.
pub open spec fn valid_section(port: PortName, offset: nat, size: nat) -> bool {
    1 <= size && offset + size <= port.spec_width()
}

impl View for PortSection {
    type V = (PortName, nat, nat);

    closed spec fn view(&self) -> (PortName, nat, nat) {
        (self.port, self.offset as nat, self.size as nat)
    }
}

/// The mask of a section, as `section_mask` states it.
fn section_mask_of(port: PortName, offset: usize, size: usize) -> (r: u16)
    requires
        valid_section(port, offset as nat, size as nat),
    ensures
        r == section_mask(port, offset as nat, size as nat),
{
    let shift = port_shift_of(port);
    assert(port.spec_width() <= 16);
    assert(port_shift(port) == 8 ==> port.spec_width() <= 8);
    let width = size as u32;
    assert(1u32 << width >= 1) by (bit_vector)
        requires width <= 16;
    let ones: u32 = (1u32 << width) - 1;
    #[verifier::truncate]
    ((ones << ((offset as u32) + (shift as u32))) as u16)
}

impl PortSection {
    /// A section names pins that its port has.
    #[verifier::type_invariant]
    pub open spec fn well_formed(self) -> bool {
        valid_section(self@.0, self@.1, self@.2)
    }

    /// Claims the `size` pins of `port` from `offset` on: succeeds exactly
    /// when all of them are available, and on failure changes nothing.
    pub fn new(allocator: &mut PinAllocator, port: PortName, offset: usize, size: usize) -> (r:
        Option<PortSection>)
        requires
            old(allocator).wf(),
            valid_section(port, offset as nat, size as nat),
        ensures
            final(allocator).wf(),
            r is Some <==> bits_free(
                old(allocator)@,
                port.spec_index16(),
                section_mask(port, offset as nat, size as nat),
            ),
            final(allocator)@ == take_bits(
                old(allocator)@,
                port.spec_index16(),
                section_mask(port, offset as nat, size as nat),
            ),
            r matches Some(p) ==> p@ == (port, offset as nat, size as nat),
    {
        proof {
            lemma_port_of_names(port);
        }
        let mask = section_mask_of(port, offset, size);
        if allocator.take(port.get_16_bit_port_index(), mask) {
            Some(PortSection { port, offset, size })
        } else {
            None
        }
    }

    /// Gives every pin of the section back.
    pub fn release(self, allocator: &mut PinAllocator)
        requires
            old(allocator).wf(),
        ensures
            final(allocator).wf(),
            final(allocator)@ == return_bits(
                old(allocator)@,
                self@.0.spec_index16(),
                section_mask(self@.0, self@.1, self@.2),
            ),
    {
        proof {
            use_type_invariant(&self);
            lemma_port_of_names(self.port);
        }
        let mask = section_mask_of(self.port, self.offset, self.size);
        allocator.give_back(self.port.get_16_bit_port_index(), mask);
    }
}

impl Sealed for PortSection {}

impl PortSectionX for PortSection {
    fn get_port_name(&self) -> (r: PortName)
        ensures
            r == self@.0,
    {
        self.port
    }

    fn get_size(&self) -> (r: usize)
        ensures
            r == self@.2,
    {
        self.size
    }

    fn get_offset(&self) -> (r: usize)
        ensures
            r == self@.1,
    {
        self.offset
    }

    fn get_mask(&self) -> (r: u16)
        ensures
            r == section_mask(self@.0, self@.1, self@.2),
    {
        proof {
            use_type_invariant(self);
        }
        section_mask_of(self.port, self.offset, self.size)
    }
}

impl PortComponent for PortSection {
    fn get_port_mask(&self) -> (r: u16)
        ensures
            r == section_mask(self@.0, self@.1, self@.2),
    {
        self.get_mask()
    }

    fn get_port_clear_mask(&self) -> (r: u16)
        ensures
            r == !section_mask(self@.0, self@.1, self@.2),
    {
        !self.get_mask()
    }
}

/// While a claim holds bits of a port, no claim that overlaps them (of a
/// pin, a port or a section) succeeds; once they are given back the state is
/// what it was before the claim, so the same claim succeeds again.
pub proof fn lemma_exclusive_claims(s: Seq<u16>, i: nat, m: u16, other: u16)
    requires
        i < s.len(),
        bits_free(s, i, m),
        m & other != 0,
    ensures
        !bits_free(take_bits(s, i, m), i, other),
        return_bits(take_bits(s, i, m), i, m) == s,
        bits_free(return_bits(take_bits(s, i, m), i, m), i, m),
{
    let x = s[i as int];
    assert((x & !m) & other != other) by (bit_vector)
        requires m & other != 0;
    lemma_take_return(s, i, m);
}

/// A pin, under whatever name, has at most one owner: after a successful
/// claim of `p`, a claim of any name `q` of the same pin fails; after `p` is
/// released the state is as before and the claim of `q` succeeds.
pub proof fn lemma_pin_exclusive(s: Seq<u16>, p: (PortName, nat), q: (PortName, nat))
    requires
        s.len() == 6,
        valid_pin(p),
        valid_pin(q),
        pin_free(s, p),
        pin_port16(p) == pin_port16(q),
        pin_offset16(p) == pin_offset16(q),
    ensures
        !pin_free(claim_pin(s, p), q),
        release_pin(claim_pin(s, p), p) == s,
        pin_free(release_pin(claim_pin(s, p), p), q),
{
    lemma_pin_in_range(p);
    let b = pin_offset16(p) as u16;
    assert((1u16 << b) & (1u16 << b) != 0) by (bit_vector)
        requires b < 16;
    lemma_exclusive_claims(s, pin_port16(p), pin_bit(p), pin_bit(q));
}

/// While a pin of a port is owned, neither that port nor any section of it
/// that holds the pin can be claimed.
pub proof fn lemma_pin_blocks_covering_claims(s: Seq<u16>, p: (PortName, nat), m: u16)
    requires
        s.len() == 6,
        valid_pin(p),
        pin_free(s, p),
        pin_bit(p) & m != 0,
    ensures
        !bits_free(claim_pin(s, p), pin_port16(p), m),
{
    lemma_pin_in_range(p);
    lemma_exclusive_claims(s, pin_port16(p), pin_bit(p), m);
}

/// A claim of a port (or section) over which some pin is owned by someone
/// else fails and changes nothing: every owned pin stays owned.
pub proof fn lemma_port_claim_spares_owned_pins(s: Seq<u16>, p: (PortName, nat), m: u16)
    requires
        s.len() == 6,
        valid_pin(p),
        !pin_free(s, p),
        pin_bit(p) & m != 0,
    ensures
        !bits_free(s, pin_port16(p), m),
        take_bits(s, pin_port16(p), m) == s,
        !pin_free(take_bits(s, pin_port16(p), m), p),
{
    lemma_pin_in_range(p);
    let x = s[pin_port16(p) as int];
    let b = pin_offset16(p) as u16;
    assert(x & m != m) by (bit_vector)
        requires
            b < 16,
            x & (1u16 << b) != (1u16 << b),
            (1u16 << b) & m != 0,
    ;
}

/// Exclusive ownership of a list of pins, claimed all together.
pub struct PinSet {
    pins: Vec<Pin>,
}

impl View for PinSet {
    type V = Seq<(PortName, nat)>;

    closed spec fn view(&self) -> Seq<(PortName, nat)> {
        self.pins@.map_values(|p: Pin| p@)
    }
}

/// The names of `names`, as pin coordinates.
pub open spec fn name_views(names: Seq<PinName>) -> Seq<(PortName, nat)> {
    names.map_values(|n: PinName| n@)
}

impl PinSet {
    /// Claims the pins of `pins` in order. If one of them cannot be claimed,
    /// every pin already claimed by this call is released again, so that
    /// either all the pins are claimed or the table is left as it was.
    pub fn new(allocator: &mut PinAllocator, pins: &[PinName]) -> (r: Option<PinSet>)
        requires
            old(allocator).wf(),
        ensures
            final(allocator).wf(),
            r is Some <==> all_claimable(old(allocator)@, name_views(pins@)),
            r is Some ==> final(allocator)@ == claim_all(old(allocator)@, name_views(pins@)),
            r is None ==> final(allocator)@ == old(allocator)@,
            r matches Some(set) ==> set@ == name_views(pins@),
    {
        let ghost start = allocator@;
        let ghost names = name_views(pins@);
        let mut claimed: Vec<Pin> = Vec::new();
        let mut i: usize = 0;
        let mut complete = true;
        while i < pins.len() && complete
            invariant
                allocator.wf(),
                names == name_views(pins@),
                0 <= i <= pins@.len(),
                claimed@.len() == i,
                forall|j: int| 0 <= j < i ==> (#[trigger] claimed@[j])@ == names[j],
                allocator@ == claim_all(start, names.subrange(0, i as int)),
                all_claimable(start, names.subrange(0, i as int)),
                !complete ==> !all_claimable(start, names),
            decreases pins@.len() - i + (if complete { 1int } else { 0int }),
        {
            let ghost before = allocator@;
            assert(names.subrange(0, i as int + 1).drop_last() =~= names.subrange(0, i as int));
            assert(names.subrange(0, i as int + 1).last() == names[i as int]);
            match Pin::new(allocator, pins[i]) {
                Some(pin) => {
                    claimed.push(pin);
                    i = i + 1;
                },
                None => {
                    proof {
                        lemma_claimable_prefix(start, names, i as int + 1);
                    }
                    complete = false;
                },
            }
        }
        if complete {
            assert(names.subrange(0, i as int) =~= names);
            let set = PinSet { pins: claimed };
            assert(set@ =~= names);
            return Some(set);
        }
        let mut k: usize = i;
        while k > 0
            invariant
                allocator.wf(),
                names == name_views(pins@),
                0 <= k <= i <= pins@.len(),
                claimed@.len() == k,
                forall|j: int| 0 <= j < k ==> (#[trigger] claimed@[j])@ == names[j],
                allocator@ == claim_all(start, names.subrange(0, k as int)),
                all_claimable(start, names.subrange(0, k as int)),
            decreases k,
        {
            let ghost prefix = names.subrange(0, k as int);
            assert(prefix.drop_last() =~= names.subrange(0, k as int - 1));
            let pin = claimed.pop().unwrap();
            proof {
                use_type_invariant(&pin);
                lemma_pin_in_range(pin@);
                lemma_claim_all_len(start, prefix.drop_last());
                lemma_take_return(
                    claim_all(start, prefix.drop_last()),
                    pin_port16(pin@),
                    pin_bit(pin@),
                );
            }
            pin.release(allocator);
            k = k - 1;
        }
        assert(names.subrange(0, 0) =~= Seq::<(PortName, nat)>::empty());
        None
    }

    /// Gives every pin of the set back, the last first.
    pub fn release(self, allocator: &mut PinAllocator)
        requires
            old(allocator).wf(),
        ensures
            final(allocator).wf(),
            final(allocator)@ == release_all(old(allocator)@, self@),
    {
        let ghost start = allocator@;
        let ghost all = self@;
        let mut pins = self.pins;
        while pins.len() > 0
            invariant
                allocator.wf(),
                release_all(allocator@, pins@.map_values(|p: Pin| p@)) == release_all(start, all),
            decreases pins.len(),
        {
            let ghost views = pins@.map_values(|p: Pin| p@);
            let pin = pins.pop().unwrap();
            assert(pins@.map_values(|p: Pin| p@) =~= views.drop_last());
            pin.release(allocator);
        }
        assert(pins@.map_values(|p: Pin| p@) =~= Seq::<(PortName, nat)>::empty());
    }

    /// The names of the pins, in order.
    pub fn get_pins(&self) -> (r: Vec<PinName>)
        ensures
            name_views(r@) == self@,
    {
        let mut r: Vec<PinName> = Vec::new();
        let mut i: usize = 0;
        while i < self.pins.len()
            invariant
                i <= self.pins@.len(),
                r@.len() == i,
                forall|j: int| 0 <= j < i ==> (#[trigger] r@[j])@ == self.pins@[j]@,
            decreases self.pins@.len() - i,
        {
            r.push(self.pins[i].get_pin());
            i = i + 1;
        }
        assert(name_views(r@) =~= self@);
        r
    }

    /// The index of each pin's 16-bit port, in order.
    pub fn get_ports(&self) -> (r: Vec<u8>)
        ensures
            r@.len() == self@.len(),
            forall|j: int| 0 <= j < r@.len() ==> r@[j] == pin_port16(#[trigger] self@[j]),
    {
        let mut r: Vec<u8> = Vec::new();
        let mut i: usize = 0;
        while i < self.pins.len()
            invariant
                i <= self.pins@.len(),
                r@.len() == i,
                forall|j: int| 0 <= j < i ==> #[trigger] r@[j] == pin_port16(self.pins@[j]@),
            decreases self.pins@.len() - i,
        {
            r.push(self.pins[i].get_port());
            i = i + 1;
        }
        r
    }

    /// Each pin's offset within its 16-bit port, in order.
    pub fn get_pin_offsets_in_port(&self) -> (r: Vec<u8>)
        ensures
            r@.len() == self@.len(),
            forall|j: int| 0 <= j < r@.len() ==> r@[j] == pin_offset16(#[trigger] self@[j]),
    {
        let mut r: Vec<u8> = Vec::new();
        let mut i: usize = 0;
        while i < self.pins.len()
            invariant
                i <= self.pins@.len(),
                r@.len() == i,
                forall|j: int| 0 <= j < i ==> #[trigger] r@[j] == pin_offset16(self.pins@[j]@),
            decreases self.pins@.len() - i,
        {
            r.push(self.pins[i].get_pin_offset_in_port());
            i = i + 1;
        }
        r
    }
}

/// Claims keep one mask per port.
proof fn lemma_claim_all_len(s: Seq<u16>, names: Seq<(PortName, nat)>)
    ensures
        claim_all(s, names).len() == s.len(),
    decreases names.len(),
{
    if names.len() > 0 {
        lemma_claim_all_len(s, names.drop_last());
    }
}

/// If a prefix of `names` cannot be claimed in turn, neither can `names`.
proof fn lemma_claimable_prefix(s: Seq<u16>, names: Seq<(PortName, nat)>, n: int)
    requires
        0 <= n <= names.len(),
        !all_claimable(s, names.subrange(0, n)),
    ensures
        !all_claimable(s, names),
    decreases names.len() - n,
{
    if n < names.len() {
        assert(names.subrange(0, n + 1).drop_last() =~= names.subrange(0, n));
        lemma_claimable_prefix(s, names, n + 1);
    } else {
        assert(names.subrange(0, n) =~= names);
    }
}

} // verus!
