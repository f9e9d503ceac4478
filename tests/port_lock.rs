use msp432_razcal::allocator::{Package, Pin, PinAllocator, Port, PortSection};
use msp432_razcal::gpio::GpioPort;
use msp432_razcal::gpio_bus::{GpioPortBus, GpioSectionBus};
use msp432_razcal::gpio_pin::GpioPin;
use msp432_razcal::names::{PinName, PortName};
use msp432_razcal::port_lock::PortInUseTable;

fn pin(port: PortName, offset: usize) -> PinName {
    PinName::new(port, offset).unwrap()
}

#[test]
fn token_is_exclusive_per_half_port() {
    let mut alloc = PinAllocator::new(Package::Lqfp);
    let mut regs = GpioPort::new(PortName::PORTA);
    let mut table = PortInUseTable::new();
    let a = GpioPin::new(Pin::new(&mut alloc, pin(PortName::PORT1, 0)).unwrap(), &mut regs);
    let b = GpioPin::new(Pin::new(&mut alloc, pin(PortName::PORT1, 6)).unwrap(), &mut regs);
    let c = GpioPin::new(Pin::new(&mut alloc, pin(PortName::PORT2, 6)).unwrap(), &mut regs);
    let token = a.get_port_in_use_token(&mut table).unwrap();
    assert_eq!(token.get_bits(), 0b01);
    assert!(a.get_port_in_use_token(&mut table).is_none());
    assert!(b.get_port_in_use_token(&mut table).is_none());
    let upper = c.get_port_in_use_token(&mut table).unwrap();
    assert_eq!(upper.get_bits(), 0b10);
    token.release(&mut table);
    let again = b.get_port_in_use_token(&mut table).unwrap();
    assert_eq!(again.get_bits(), 0b01);
    again.release(&mut table);
    upper.release(&mut table);
    assert!(a.get_port_in_use_token(&mut table).is_some());
}

#[test]
fn failed_acquisition_leaves_table_unchanged() {
    let mut table = PortInUseTable::new();
    let held = table.acquire(0b0100).unwrap();
    assert!(table.acquire(0b0110).is_none());
    let other = table.acquire(0b0010).unwrap();
    held.release(&mut table);
    assert!(table.acquire(0b0100).is_some());
    other.release(&mut table);
}

#[test]
fn section_token_covers_both_halves_it_touches() {
    let mut alloc = PinAllocator::new(Package::Lqfp);
    let mut regs = GpioPort::new(PortName::PORTB);
    let mut table = PortInUseTable::new();
    let section = PortSection::new(&mut alloc, PortName::PORTB, 6, 4).unwrap();
    let bus = GpioSectionBus::new(section, &mut regs);
    let token = bus.get_port_in_use_token(&mut table).unwrap();
    assert_eq!(token.get_bits(), 0b1100);
    assert!(bus.get_port_in_use_token(&mut table).is_none());
    token.release(&mut table);
}

#[test]
fn port_bus_token_holds_nothing() {
    let mut alloc = PinAllocator::new(Package::Lqfp);
    let mut regs = GpioPort::new(PortName::PORTE);
    let mut table = PortInUseTable::new();
    let bus = GpioPortBus::new(Port::new(&mut alloc, PortName::PORTE).unwrap(), &mut regs);
    let first = bus.get_port_in_use_token(&mut table).unwrap();
    let second = bus.get_port_in_use_token(&mut table).unwrap();
    assert_eq!(first.get_bits(), 0);
    assert_eq!(second.get_bits(), 0);
}
