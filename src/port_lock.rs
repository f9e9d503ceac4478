//! Port-in-use tokens: temporary exclusive access to the 8-bit halves of a
//! port, for register sequences that are not a single indivisible write.
//!
//! The table keeps one bit per 8-bit port (bit `2 * p` for the lower half of
//! 16-bit port `p`, bit `2 * p + 1` for its upper half). Like the pin
//! allocator, it is a single service object that every acquisition and
//! release borrows exclusively.

use vstd::prelude::*;

use crate::allocator::{lemma_pin_in_range, pin_bit};
use crate::names::{
    lemma_conversion_round_trip, lemma_port_of_numbers, pin_offset16, pin_port16, pin_port8,
    pin_to_16_bit, valid_pin, PortName, PortSize,
};

verus! {

/// The 8-bit ports that are currently held.
pub struct PortInUseTable {
    in_use: u16,
}

impl View for PortInUseTable {
    type V = u16;

    closed spec fn view(&self) -> u16 {
        self.in_use
    }
}

/// The bits, in a `PortInUseTable`, of the halves of 16-bit port `port` that
/// the pin mask `m` touches.
pub open spec fn halves_of(port: nat, m: u16) -> u16 {
    (if m & 0x00FFu16 != 0 {
        1u16 << (2 * port) as u16
    } else {
        0u16
    }) | (if m & 0xFF00u16 != 0 {
        1u16 << (2 * port + 1) as u16
    } else {
        0u16
    })
}

/// The halves of `port` that `mask` touches, as `halves_of` states it.
pub(crate) fn halves_of_mask(port: usize, mask: u16) -> (r: u16)
    requires
        port < 6,
    ensures
        r == halves_of(port as nat, mask),
{
    let lower: u16 = if mask & 0x00FF != 0 {
        1u16 << ((2 * port) as u16)
    } else {
        0
    };
    let upper: u16 = if mask & 0xFF00 != 0 {
        1u16 << ((2 * port + 1) as u16)
    } else {
        0
    };
    lower | upper
}

/// Proof of temporary exclusive access to the 8-bit ports of its bits.
pub struct GpioPortInUseToken {
    bits: u16,
}

impl View for GpioPortInUseToken {
    type V = u16;

    closed spec fn view(&self) -> u16 {
        self.bits
    }
}

impl PortInUseTable {
    /// A table in which no port is held.
    pub fn new() -> (r: PortInUseTable)
        ensures
            r@ == 0,
    {
        PortInUseTable { in_use: 0 }
    }

    /// Marks the ports of `bits` held, unless one of them already is: one
    /// fetch-or of the bits, after which, on failure, exactly the bits this
    /// call set are cleared again.
    pub fn acquire(&mut self, bits: u16) -> (r: Option<GpioPortInUseToken>)
        ensures
            r is Some <==> old(self)@ & bits == 0,
            r is Some ==> final(self)@ == old(self)@ | bits,
            r is None ==> final(self)@ == old(self)@,
            r matches Some(t) ==> t@ == bits,
    {
        let previous = self.in_use;
        self.in_use = previous | bits;
        if previous & bits != 0 {
            self.in_use = self.in_use & !(bits & !previous);
            assert((previous | bits) & !(bits & !previous) == previous) by (bit_vector);
            None
        } else {
            Some(GpioPortInUseToken { bits })
        }
    }
}

impl GpioPortInUseToken {
    /// The ports that the token holds.
    pub fn get_bits(&self) -> (r: u16)
        ensures
            r == self@,
    {
        self.bits
    }

    /// Gives the ports back: exactly the token's bits are cleared.
    pub fn release(self, table: &mut PortInUseTable)
        ensures
            final(table)@ == old(table)@ & !self@,
    {
        table.in_use = table.in_use & !self.bits;
    }
}

/// Tokens exclude each other: while a token holds some ports, an acquisition
/// of any of them fails; releasing the token restores the table, after which
/// the same acquisition succeeds.
pub proof fn lemma_token_exclusive(table: u16, bits: u16, other: u16)
    requires
        table & bits == 0,
        bits & other != 0,
    ensures
        (table | bits) & other != 0,
        (table | bits) & !bits == table,
        ((table | bits) & !bits) & bits == 0,
{
    assert((table | bits) & other != 0) by (bit_vector)
        requires bits & other != 0;
    assert((table | bits) & !bits == table) by (bit_vector)
        requires table & bits == 0;
    assert(((table | bits) & !bits) & bits == 0) by (bit_vector);
}

/// A pin's token holds exactly the bit of the pin's 8-bit port, so the
/// tokens of two pins of the same 8-bit port exclude each other, and those of
/// pins of different 8-bit ports do not.
pub proof fn lemma_pin_token_is_its_half(p: (PortName, nat))
    requires
        valid_pin(p),
    ensures
        halves_of(pin_port16(p), pin_bit(p)) == 1u16 << pin_port8(p) as u16,
        pin_port8(p) < 11,
{
    lemma_conversion_round_trip(p);
    lemma_pin_in_range(p);
    let n = pin_port16(p);
    let o = pin_offset16(p) as u16;
    let q = pin_to_16_bit(p);
    lemma_port_of_numbers(n, PortSize::Port16Bit);
    crate::names::lemma_port_of_names(q.0);
    if o < 8 {
        lemma_port_of_numbers(n * 2, PortSize::Port8Bit);
        assert((1u16 << o) & 0x00FFu16 != 0 && (1u16 << o) & 0xFF00u16 == 0) by (bit_vector)
            requires o < 8;
    } else {
        assert(q.0 != PortName::PORTJ);
        lemma_port_of_numbers(n * 2 + 1, PortSize::Port8Bit);
        assert((1u16 << o) & 0x00FFu16 == 0 && (1u16 << o) & 0xFF00u16 != 0) by (bit_vector)
            requires 8 <= o < 16;
    }
    let a = (2 * n) as u16;
    let b = (2 * n + 1) as u16;
    assert((1u16 << a) | 0u16 == 1u16 << a) by (bit_vector);
    assert(0u16 | (1u16 << b) == 1u16 << b) by (bit_vector);
}

} // verus!
