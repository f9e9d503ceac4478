//! Memory-mapped register primitives: typed access modes, volatile
//! read/write, read-modify-write helpers, single-bit (bit-band) access and
//! the bit-band alias address computation.

use core::marker::PhantomData;
use vcell::VolatileCell;
use vstd::prelude::*;

use crate::bits::{bit_mask, bit_of, with_bits};
use crate::sealed::Sealed;

verus! {

/// First address of the peripheral window.
pub const PERIPHERAL_BASE: u32 = 0x4000_0000;

/// Last address of the peripheral window.
pub const PERIPHERAL_END: u32 = 0x400F_FFFF;

/// First address of the peripheral bit-band alias window.
pub const PERIPHERAL_BITBAND_BASE: u32 = 0x4200_0000;

/// Last address of the peripheral bit-band alias window.
pub const PERIPHERAL_BITBAND_END: u32 = 0x43FF_FFFF;

/// The alias word through which bit `bit` of the peripheral word at `address`
/// is read or written on its own.
pub open spec fn bitband_alias(address: u32, bit: u8) -> int {
    PERIPHERAL_BITBAND_BASE + (address - PERIPHERAL_BASE) * 32 + bit * 4
}

/// Computes the bit-band alias address of bit `bit` of the register at
/// `address`, which must lie in the peripheral window.
pub fn peripheral_to_bitband_alias(address: u32, bit: u8) -> (r: u32)
    requires
        PERIPHERAL_BASE <= address <= PERIPHERAL_END,
        bit < 32,
    ensures
        r == bitband_alias(address, bit),
{
    let byte_offset = address - PERIPHERAL_BASE;
    PERIPHERAL_BITBAND_BASE + (byte_offset * 32) + ((bit as u32) * 4)
}

/// Declares vcell::VolatileCell, the storage of a register, as an opaque type.
#[verifier::external_type_specification]
#[verifier::external_body]
#[verifier::reject_recursive_types(T)]
pub struct ExVolatileCell<T>(VolatileCell<T>);

/// The word a volatile cell currently holds. This crate writes a cell only
/// through `&mut`, so a read returns the word last written.
pub uninterp spec fn cell_value(c: VolatileCell<u16>) -> u16;

/// Relies on vcell::VolatileCell::new: the new cell holds `value`.
#[verifier::external_body]
fn cell_new(value: u16) -> (r: VolatileCell<u16>)
    ensures
        cell_value(r) == value,
{
    VolatileCell::new(value)
}

/// Relies on vcell::VolatileCell::get: a volatile read returns the word the
/// cell holds.
#[verifier::external_body]
fn cell_get(c: &VolatileCell<u16>) -> (r: u16)
    ensures
        r == cell_value(*c),
{
    c.get()
}

/// Relies on vcell::VolatileCell::set: after a volatile write the cell holds
/// `value`.
#[verifier::external_body]
fn cell_set(c: &mut VolatileCell<u16>, value: u16)
    ensures
        cell_value(*final(c)) == value,
{
    c.set(value)
}

/// The access mode of a register.
pub trait AccessMode: Sealed {}

/// An access mode that allows reading.
pub trait ReadAccessMode: AccessMode {}

/// An access mode that allows writing.
pub trait WriteAccessMode: AccessMode {}

/// A register that cannot be accessed.
pub struct NoAccess;

/// A read-only register.
pub struct ReadOnlyAccess;

/// A write-only register.
pub struct WriteOnlyAccess;

/// A read/write register.
pub struct ReadWriteAccess;

impl Sealed for NoAccess {}
impl Sealed for ReadOnlyAccess {}
impl Sealed for WriteOnlyAccess {}
impl Sealed for ReadWriteAccess {}

impl AccessMode for NoAccess {}
impl AccessMode for ReadOnlyAccess {}
impl AccessMode for WriteOnlyAccess {}
impl AccessMode for ReadWriteAccess {}

impl ReadAccessMode for ReadOnlyAccess {}
impl ReadAccessMode for ReadWriteAccess {}

impl WriteAccessMode for WriteOnlyAccess {}
impl WriteAccessMode for ReadWriteAccess {}

/// A 16-bit register accessed through volatile reads and writes; `Mode`
/// decides which accesses exist.
pub struct Reg<Mode: AccessMode> {
    value: VolatileCell<u16>,
    _mode: PhantomData<Mode>,
}

impl<Mode: AccessMode> View for Reg<Mode> {
    type V = u16;

    closed spec fn view(&self) -> u16 {
        cell_value(self.value)
    }
}

impl<Mode: AccessMode> Reg<Mode> {
    /// A register holding `value`.
    pub fn new(value: u16) -> (r: Self)
        ensures
            r@ == value,
    {
        Reg { value: cell_new(value), _mode: PhantomData }
    }
}

impl<Mode: ReadAccessMode> Reg<Mode> {
    /// Reads the register.
    pub fn read(&self) -> (r: u16)
        ensures
            r == self@,
    {
        cell_get(&self.value)
    }

    /// Reads one bit of the register, as its bit-band alias does.
    pub fn read_bit(&self, bit: u16) -> (r: bool)
        requires
            bit < 16,
        ensures
            r == bit_of(self@, bit),
    {
        (cell_get(&self.value) >> bit) & 1u16 == 1u16
    }
}

impl<Mode: WriteAccessMode> Reg<Mode> {
    /// Writes the register.
    pub fn write(&mut self, value: u16)
        ensures
            final(self)@ == value,
    {
        cell_set(&mut self.value, value)
    }
}

impl Reg<ReadWriteAccess> {
    /// Writes back what `modify_func` makes of the value read.
    pub fn modify<F: FnOnce(u16) -> u16>(&mut self, modify_func: F)
        requires
            modify_func.requires((old(self)@,)),
        ensures
            modify_func.ensures((old(self)@,), final(self)@),
    {
        let modified_value = modify_func(cell_get(&self.value));
        cell_set(&mut self.value, modified_value);
    }

    /// Clears the bits of `mask`.
    pub fn clear_bits(&mut self, mask: u16)
        ensures
            final(self)@ == old(self)@ & !mask,
    {
        let value = cell_get(&self.value);
        cell_set(&mut self.value, value & !mask);
    }

    /// Sets the bits of `mask`.
    pub fn set_bits(&mut self, mask: u16)
        ensures
            final(self)@ == old(self)@ | mask,
    {
        let value = cell_get(&self.value);
        cell_set(&mut self.value, value | mask);
    }

    /// Inverts the bits of `mask`.
    pub fn toggle_bits(&mut self, mask: u16)
        ensures
            final(self)@ == old(self)@ ^ mask,
    {
        let value = cell_get(&self.value);
        cell_set(&mut self.value, value ^ mask);
    }

    /// Replaces the bits of `mask` with those of `value`.
    pub fn write_masked(&mut self, mask: u16, value: u16)
        ensures
            final(self)@ == (old(self)@ & !mask) | (value & mask),
    {
        let current = cell_get(&self.value);
        cell_set(&mut self.value, (current & !mask) | (value & mask));
    }

    /// Sets or clears one bit, as a write through its bit-band alias does.
    pub fn write_bit(&mut self, bit: u16, value: bool)
        requires
            bit < 16,
        ensures
            final(self)@ == with_bits(old(self)@, bit_mask(bit), value),
    {
        let current = cell_get(&self.value);
        let mask = 1u16 << bit;
        if value {
            cell_set(&mut self.value, current | mask);
        } else {
            cell_set(&mut self.value, current & !mask);
        }
    }

    /// Inverts one bit, as a read-modify-write of its bit-band alias does.
    pub fn toggle_bit(&mut self, bit: u16)
        requires
            bit < 16,
        ensures
            final(self)@ == old(self)@ ^ bit_mask(bit),
    {
        let current = cell_get(&self.value);
        cell_set(&mut self.value, current ^ (1u16 << bit));
    }
}

} // verus!
