use msp432_razcal::allocator::{
    Package, Pin, PinAllocator, PinSet, Port, PortComponent, PortId, PortSection, PortSectionX,
};
use msp432_razcal::names::{PinName, PortName};

fn pin(port: PortName, offset: usize) -> PinName {
    PinName::new(port, offset).unwrap()
}

#[test]
fn pin_claim_is_exclusive_until_released() {
    let mut alloc = PinAllocator::new(Package::Lqfp);
    let p1_0 = pin(PortName::PORT1, 0);
    let first = Pin::new(&mut alloc, p1_0).unwrap();
    assert!(Pin::new(&mut alloc, p1_0).is_none());
    assert!(Pin::new(&mut alloc, pin(PortName::PORTA, 0)).is_none());
    assert!(!alloc.is_available(p1_0));
    first.release(&mut alloc);
    assert!(alloc.is_available(p1_0));
    let again = Pin::new(&mut alloc, p1_0);
    assert!(again.is_some());
}

#[test]
fn pins_not_bonded_out_cannot_be_claimed() {
    let mut alloc = PinAllocator::new(Package::Vqfn);
    assert!(Pin::new(&mut alloc, pin(PortName::PORTA, 12)).is_none());
    assert!(Pin::new(&mut alloc, pin(PortName::PORTA, 11)).is_some());
    assert!(Pin::new(&mut alloc, pin(PortName::PORT9, 0)).is_none());
    let mut nfbga = PinAllocator::new(Package::Nfbga);
    assert!(Pin::new(&mut nfbga, pin(PortName::PORTD, 10)).is_none());
    assert!(Pin::new(&mut nfbga, pin(PortName::PORTC, 15)).is_some());
}

#[test]
fn pin_accessors() {
    let mut alloc = PinAllocator::new(Package::Lqfp);
    let p = Pin::new(&mut alloc, pin(PortName::PORT4, 2)).unwrap();
    assert_eq!(p.get_pin(), pin(PortName::PORT4, 2));
    assert_eq!(p.get_port(), 1);
    assert_eq!(p.get_pin_offset_in_port(), 10);
    assert_eq!(p.get_port_mask(), 1 << 10);
    assert_eq!(p.get_port_clear_mask(), !(1u16 << 10));
}

#[test]
fn port_claim_fails_over_owned_pins_and_leaves_them_owned() {
    let mut alloc = PinAllocator::new(Package::Lqfp);
    let a = Pin::new(&mut alloc, pin(PortName::PORT1, 0)).unwrap();
    let b = Pin::new(&mut alloc, pin(PortName::PORT1, 3)).unwrap();
    assert!(Port::new(&mut alloc, PortName::PORT1).is_none());
    assert!(Port::new(&mut alloc, PortName::PORTA).is_none());
    assert!(!alloc.is_available(pin(PortName::PORT1, 0)));
    assert!(!alloc.is_available(pin(PortName::PORT1, 3)));
    assert!(alloc.is_available(pin(PortName::PORT1, 1)));
    assert!(Pin::new(&mut alloc, pin(PortName::PORT1, 0)).is_none());
    let upper = Port::new(&mut alloc, PortName::PORT2).unwrap();
    assert_eq!(upper.get_port_mask(), 0xFF00);
    assert_eq!(upper.get_port_name(), PortName::PORT2);
    assert_eq!(upper.get_port_size(), 8);
    a.release(&mut alloc);
    b.release(&mut alloc);
    let lower = Port::new(&mut alloc, PortName::PORT1).unwrap();
    assert_eq!(lower.get_port_clear_mask(), 0xFF00);
    assert!(Pin::new(&mut alloc, pin(PortName::PORT1, 5)).is_none());
    lower.release(&mut alloc);
    upper.release(&mut alloc);
    assert!(Port::new(&mut alloc, PortName::PORTA).is_some());
}

#[test]
fn port_j_claims_its_six_pins() {
    let mut alloc = PinAllocator::new(Package::Lqfp);
    let j = Port::new(&mut alloc, PortName::PORTJ).unwrap();
    assert_eq!(j.get_port_mask(), 0x003F);
    assert!(Port::new(&mut alloc, PortName::PORTJ_8BIT).is_none());
    j.release(&mut alloc);
    assert!(Port::new(&mut alloc, PortName::PORTJ_8BIT).is_some());
}

#[test]
fn failed_pin_set_releases_what_it_claimed() {
    let mut alloc = PinAllocator::new(Package::Lqfp);
    let held = Pin::new(&mut alloc, pin(PortName::PORT1, 5)).unwrap();
    let names = [pin(PortName::PORT1, 0), pin(PortName::PORT1, 1), pin(PortName::PORT1, 5)];
    assert!(PinSet::new(&mut alloc, &names).is_none());
    assert!(alloc.is_available(pin(PortName::PORT1, 0)));
    assert!(alloc.is_available(pin(PortName::PORT1, 1)));
    assert!(!alloc.is_available(pin(PortName::PORT1, 5)));
    held.release(&mut alloc);
    let set = PinSet::new(&mut alloc, &names).unwrap();
    assert!(!alloc.is_available(pin(PortName::PORT1, 0)));
    set.release(&mut alloc);
    assert!(alloc.is_available(pin(PortName::PORT1, 0)));
    assert!(alloc.is_available(pin(PortName::PORT1, 5)));
}

#[test]
fn pin_set_with_one_pin_twice_fails() {
    let mut alloc = PinAllocator::new(Package::Lqfp);
    let names = [pin(PortName::PORT3, 2), pin(PortName::PORTB, 2)];
    assert!(PinSet::new(&mut alloc, &names).is_none());
    assert!(alloc.is_available(pin(PortName::PORT3, 2)));
}

#[test]
fn pin_set_accessors() {
    let mut alloc = PinAllocator::new(Package::Lqfp);
    let names = [pin(PortName::PORT2, 1), pin(PortName::PORTJ, 4), pin(PortName::PORTC, 0)];
    let set = PinSet::new(&mut alloc, &names).unwrap();
    assert_eq!(set.get_pins(), names.to_vec());
    assert_eq!(set.get_ports(), vec![0, 5, 2]);
    assert_eq!(set.get_pin_offsets_in_port(), vec![9, 4, 0]);
    let empty = PinSet::new(&mut alloc, &[]).unwrap();
    assert!(empty.get_pins().is_empty());
}

#[test]
fn section_claims_its_range() {
    let mut alloc = PinAllocator::new(Package::Lqfp);
    let section = PortSection::new(&mut alloc, PortName::PORT4, 2, 3).unwrap();
    assert_eq!(section.get_mask(), 0b0001_1100_0000_0000);
    assert_eq!(section.get_port_name(), PortName::PORT4);
    assert_eq!(section.get_offset(), 2);
    assert_eq!(section.get_size(), 3);
    assert!(Pin::new(&mut alloc, pin(PortName::PORTB, 11)).is_none());
    assert!(Pin::new(&mut alloc, pin(PortName::PORTB, 13)).is_some());
    assert!(PortSection::new(&mut alloc, PortName::PORTB, 12, 2).is_none());
    section.release(&mut alloc);
    assert!(Pin::new(&mut alloc, pin(PortName::PORTB, 11)).is_some());
    let full = PortSection::new(&mut alloc, PortName::PORTC, 0, 16).unwrap();
    assert_eq!(full.get_port_mask(), 0xFFFF);
}
