use msp432_razcal::registers::{
    peripheral_to_bitband_alias, ReadOnlyAccess, ReadWriteAccess, Reg, WriteOnlyAccess,
    PERIPHERAL_BASE, PERIPHERAL_BITBAND_BASE,
};

#[test]
fn bitband_alias_address() {
    assert_eq!(peripheral_to_bitband_alias(PERIPHERAL_BASE, 0), PERIPHERAL_BITBAND_BASE);
    assert_eq!(
        peripheral_to_bitband_alias(0x4000_4C02, 3),
        0x4200_0000 + 0x4C02 * 32 + 3 * 4
    );
    assert_eq!(peripheral_to_bitband_alias(0x400F_FFFF, 7), 0x43FF_FFFC);
}

#[test]
fn register_reads_what_was_written() {
    let mut r: Reg<ReadWriteAccess> = Reg::new(0x1234);
    assert_eq!(r.read(), 0x1234);
    r.write(0xBEEF);
    assert_eq!(r.read(), 0xBEEF);
    let ro: Reg<ReadOnlyAccess> = Reg::new(7);
    assert_eq!(ro.read(), 7);
    assert!(ro.read_bit(2));
    assert!(!ro.read_bit(3));
    let mut wo: Reg<WriteOnlyAccess> = Reg::new(0);
    wo.write(5);
}

#[test]
fn register_bit_operations() {
    let mut r: Reg<ReadWriteAccess> = Reg::new(0b1010);
    r.set_bits(0b0101);
    assert_eq!(r.read(), 0b1111);
    r.clear_bits(0b0011);
    assert_eq!(r.read(), 0b1100);
    r.toggle_bits(0b0110);
    assert_eq!(r.read(), 0b1010);
    r.write_masked(0x00FF, 0x1234);
    assert_eq!(r.read(), 0x0034);
    r.write_bit(15, true);
    assert_eq!(r.read(), 0x8034);
    r.write_bit(2, false);
    assert_eq!(r.read(), 0x8030);
    r.toggle_bit(0);
    assert_eq!(r.read(), 0x8031);
    r.modify(|v| v >> 4);
    assert_eq!(r.read(), 0x0803);
}
