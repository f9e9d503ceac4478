use msp432_razcal::allocator::{Package, Pin, PinAllocator, Port, PortSection};
use msp432_razcal::gpio::{
    gpio_port_address, register_bitband_address, set_pin_function, GpioPort, GpioRegister,
    PinMode,
};
use msp432_razcal::gpio_bus::{GpioBusInput, GpioBusOutput, GpioPortBus, GpioSectionBus};
use msp432_razcal::gpio_pin::{GpioPin, GpioPinInput, GpioPinOutput};
use msp432_razcal::names::{PinName, PortName};

fn pin(port: PortName, offset: usize) -> PinName {
    PinName::new(port, offset).unwrap()
}

fn bit(x: u16, b: u16) -> bool {
    (x >> b) & 1 == 1
}

#[test]
fn push_pull_output_drives_low_from_any_mode() {
    let mut alloc = PinAllocator::new(Package::Lqfp);
    let mut regs = GpioPort::new(PortName::PORTA);
    let p = Pin::new(&mut alloc, pin(PortName::PORT2, 3)).unwrap();
    let pulled = GpioPin::new(p, &mut regs).to_input_pullup(&mut regs);
    assert!(bit(regs.output_levels(), 11));
    assert!(bit(regs.resistor_bits(), 11));
    assert!(!bit(regs.direction_bits(), 11));
    let out = pulled.to_output_pushpull(&mut regs);
    assert!(bit(regs.direction_bits(), 11));
    assert!(!bit(regs.output_levels(), 11));
    let q = Pin::new(&mut alloc, pin(PortName::PORT1, 4)).unwrap();
    let _direct = GpioPin::new(q, &mut regs).to_output_pushpull(&mut regs);
    assert!(bit(regs.direction_bits(), 4));
    assert!(!bit(regs.output_levels(), 4));
    let _back = out.extract_pin(&mut regs);
    assert!(!bit(regs.direction_bits(), 11));
    assert!(!bit(regs.resistor_bits(), 11));
}

#[test]
fn input_modes_set_resistor_and_pull() {
    let mut alloc = PinAllocator::new(Package::Lqfp);
    let mut regs = GpioPort::new(PortName::PORTB);
    let p = Pin::new(&mut alloc, pin(PortName::PORTB, 6)).unwrap();
    let down = GpioPin::new(p, &mut regs).to_input_pulldown(&mut regs);
    assert!(bit(regs.resistor_bits(), 6));
    assert!(!bit(regs.output_levels(), 6));
    assert!(!bit(regs.direction_bits(), 6));
    regs.set_input_levels(1 << 6);
    assert!(down.read(&regs));
    let highz = down.to_input_highz(&mut regs);
    assert!(!bit(regs.resistor_bits(), 6));
    assert!(!bit(regs.direction_bits(), 6));
    regs.set_input_levels(0);
    assert!(!highz.read(&regs));
}

#[test]
fn gpio_pin_new_routes_pin_back_to_gpio() {
    let mut alloc = PinAllocator::new(Package::Lqfp);
    let mut regs = GpioPort::new(PortName::PORTC);
    set_pin_function(&mut regs, 2, PinMode::Alternate3);
    assert_eq!(regs.select_bits(), (1 << 2, 1 << 2));
    set_pin_function(&mut regs, 5, PinMode::Alternate2);
    assert_eq!(regs.select_bits(), (1 << 2, (1 << 2) | (1 << 5)));
    let p = Pin::new(&mut alloc, pin(PortName::PORT5, 2)).unwrap();
    let _g = GpioPin::new(p, &mut regs);
    assert_eq!(regs.select_bits(), (0, 1 << 5));
    set_pin_function(&mut regs, 5, PinMode::Alternate1);
    assert_eq!(regs.select_bits(), (1 << 5, 0));
}

#[test]
fn open_collector_only_drives_low() {
    let mut alloc = PinAllocator::new(Package::Lqfp);
    let mut regs = GpioPort::new(PortName::PORTD);
    let p = Pin::new(&mut alloc, pin(PortName::PORT7, 1)).unwrap();
    let mut oc = GpioPin::new(p, &mut regs).to_output_opencollector(&mut regs);
    assert!(bit(regs.direction_bits(), 1));
    assert!(!bit(regs.output_levels(), 1));
    assert!(bit(regs.resistor_bits(), 1));
    oc.set(&mut regs);
    assert!(!bit(regs.direction_bits(), 1));
    assert!(bit(regs.output_levels(), 1));
    oc.clear(&mut regs);
    assert!(bit(regs.direction_bits(), 1));
    assert!(!bit(regs.output_levels(), 1));
    regs.set_input_levels(0);
    oc.toggle(&mut regs);
    assert!(!bit(regs.direction_bits(), 1));
    assert!(bit(regs.output_levels(), 1));
    regs.set_input_levels(1 << 1);
    oc.toggle(&mut regs);
    assert!(bit(regs.direction_bits(), 1));
    assert!(!bit(regs.output_levels(), 1));
}

#[test]
fn end_to_end_push_pull_set_toggle_read() {
    let mut alloc = PinAllocator::new(Package::Lqfp);
    let mut regs = GpioPort::new(PortName::PORT1);
    let p = Pin::new(&mut alloc, pin(PortName::PORT1, 0)).unwrap();
    let mut out = GpioPin::new(p, &mut regs).to_output_pushpull(&mut regs);
    out.set(&mut regs);
    assert!(bit(regs.output_levels(), 0));
    out.toggle(&mut regs);
    assert!(!bit(regs.output_levels(), 0));
    let mirrored = regs.output_levels();
    regs.set_input_levels(mirrored);
    assert!(!out.read(&regs));
    out.set(&mut regs);
    out.clear(&mut regs);
    assert!(!bit(regs.output_levels(), 0));
}

#[test]
fn port_bus_reads_and_writes_its_half() {
    let mut alloc = PinAllocator::new(Package::Lqfp);
    let mut regs = GpioPort::new(PortName::PORTA);
    let port = Port::new(&mut alloc, PortName::PORT2).unwrap();
    let mut bus = GpioPortBus::new(port, &mut regs).to_output_pushpull(&mut regs);
    assert_eq!(regs.direction_bits(), 0xFF00);
    assert_eq!(regs.output_levels(), 0x0000);
    bus.write(&mut regs, 0xA5);
    assert_eq!(regs.output_levels(), 0xA500);
    bus.set_bits(&mut regs, 0x0F);
    assert_eq!(regs.output_levels(), 0xAF00);
    bus.clear_bits(&mut regs, 0xF0);
    assert_eq!(regs.output_levels(), 0x0F00);
    bus.toggle_bits(&mut regs, 0x11);
    assert_eq!(regs.output_levels(), 0x1E00);
    regs.set_input_levels(0x3C7F);
    assert_eq!(bus.read(&regs), 0x3C);
    let input = bus.to_input_pullup(&mut regs);
    assert_eq!(regs.resistor_bits(), 0xFF00);
    assert_eq!(regs.direction_bits(), 0x0000);
    assert_eq!(regs.output_levels(), 0xFF00);
    assert_eq!(input.read(&regs), 0x3C);
}

#[test]
fn whole_port_bus() {
    let mut alloc = PinAllocator::new(Package::Lqfp);
    let mut regs = GpioPort::new(PortName::PORTC);
    let port = Port::new(&mut alloc, PortName::PORTC).unwrap();
    let mut bus = GpioPortBus::new(port, &mut regs).to_output_pushpull(&mut regs);
    bus.write(&mut regs, 0x1_BEEF);
    assert_eq!(regs.output_levels(), 0xBEEF);
    let oc = bus.to_output_opencollector(&mut regs);
    assert_eq!(regs.output_levels(), 0);
    assert_eq!(regs.direction_bits(), 0xFFFF);
    assert_eq!(regs.resistor_bits(), 0xFFFF);
    let down = oc.to_input_pulldown(&mut regs);
    assert_eq!(regs.direction_bits(), 0);
    let _z = down.to_input_highz(&mut regs);
    assert_eq!(regs.resistor_bits(), 0);
}

#[test]
fn section_bus_shifts_values_into_place() {
    let mut alloc = PinAllocator::new(Package::Lqfp);
    let mut regs = GpioPort::new(PortName::PORTB);
    let section = PortSection::new(&mut alloc, PortName::PORT4, 1, 3).unwrap();
    let mut bus = GpioSectionBus::new(section, &mut regs).to_output_pushpull(&mut regs);
    assert_eq!(regs.direction_bits(), 0b0000_1110_0000_0000);
    bus.write(&mut regs, 0b101);
    assert_eq!(regs.output_levels(), 0b0000_1010_0000_0000);
    bus.write(&mut regs, 0xFF);
    assert_eq!(regs.output_levels(), 0b0000_1110_0000_0000);
    bus.clear_bits(&mut regs, 0b010);
    assert_eq!(regs.output_levels(), 0b0000_1010_0000_0000);
    bus.toggle_bits(&mut regs, 0b111);
    assert_eq!(regs.output_levels(), 0b0000_0100_0000_0000);
    bus.set_bits(&mut regs, 0b001);
    assert_eq!(regs.output_levels(), 0b0000_0110_0000_0000);
    regs.set_input_levels(0b1111_0101_0000_0000);
    assert_eq!(bus.read(&regs), 0b010);
    let up = bus.to_input_pullup(&mut regs);
    assert_eq!(regs.resistor_bits(), 0b0000_1110_0000_0000);
    let oc = up.to_input_pulldown(&mut regs).to_output_opencollector(&mut regs);
    assert_eq!(oc.read(&regs), 0b010);
    let _z = oc.to_input_highz(&mut regs);
    assert_eq!(regs.direction_bits(), 0);
}

#[test]
fn register_map_addresses() {
    assert_eq!(gpio_port_address(PortName::PORTA), 0x4000_4C00);
    assert_eq!(gpio_port_address(PortName::PORT4), 0x4000_4C20);
    assert_eq!(gpio_port_address(PortName::PORTE), 0x4000_4C80);
    assert_eq!(gpio_port_address(PortName::PORTJ_8BIT), 0x4000_4D20);
    assert_eq!(
        register_bitband_address(PortName::PORT1, GpioRegister::Output, 0),
        0x4200_0000 + 0x4C02 * 32
    );
    assert_eq!(
        register_bitband_address(PortName::PORTB, GpioRegister::Direction, 9),
        0x4200_0000 + 0x4C24 * 32 + 9 * 4
    );
}
