use msp432_razcal::names::{Half, PinName, PortName, PortNameConversionResult, PortSize};

fn pin(port: PortName, offset: usize) -> PinName {
    PinName::new(port, offset).unwrap()
}

const ALL_PORTS: [PortName; 17] = [
    PortName::PORTA,
    PortName::PORTB,
    PortName::PORTC,
    PortName::PORTD,
    PortName::PORTE,
    PortName::PORTJ,
    PortName::PORT1,
    PortName::PORT2,
    PortName::PORT3,
    PortName::PORT4,
    PortName::PORT5,
    PortName::PORT6,
    PortName::PORT7,
    PortName::PORT8,
    PortName::PORT9,
    PortName::PORT10,
    PortName::PORTJ_8BIT,
];

#[test]
fn pin_name_rejects_offsets_past_the_port() {
    assert!(PinName::new(PortName::PORT1, 7).is_some());
    assert!(PinName::new(PortName::PORT1, 8).is_none());
    assert!(PinName::new(PortName::PORTA, 15).is_some());
    assert!(PinName::new(PortName::PORTA, 16).is_none());
    assert!(PinName::new(PortName::PORTJ, 5).is_some());
    assert!(PinName::new(PortName::PORTJ, 6).is_none());
    assert!(PinName::new(PortName::PORTJ_8BIT, 6).is_none());
}

#[test]
fn upper_half_pin_maps_to_offset_plus_eight() {
    let p2_3 = pin(PortName::PORT2, 3);
    let wide = p2_3.to_16_bit();
    assert_eq!(wide.port_name(), PortName::PORTA);
    assert_eq!(wide.pin_offset(), 11);
    let narrow = pin(PortName::PORTA, 11).to_8_bit();
    assert_eq!(narrow.port_name(), PortName::PORT2);
    assert_eq!(narrow.pin_offset(), 3);
    assert_eq!(pin(PortName::PORTB, 4).to_8_bit(), pin(PortName::PORT3, 4));
    assert_eq!(pin(PortName::PORT10, 7).to_16_bit(), pin(PortName::PORTE, 15));
}

#[test]
fn port_j_has_a_single_narrow_half() {
    assert_eq!(pin(PortName::PORTJ, 5).to_8_bit(), pin(PortName::PORTJ_8BIT, 5));
    assert_eq!(pin(PortName::PORTJ_8BIT, 0).to_16_bit(), pin(PortName::PORTJ, 0));
    assert_eq!(
        PortName::PORTJ.to_8_bit(),
        PortNameConversionResult::SinglePort(PortName::PORTJ_8BIT)
    );
}

#[test]
fn conversions_round_trip_for_every_pin() {
    for port in ALL_PORTS {
        for offset in 0..port.width() {
            let p = pin(port, offset);
            assert_eq!(p.to_16_bit().to_8_bit(), p.to_8_bit());
            assert_eq!(p.to_8_bit().to_16_bit(), p.to_16_bit());
            assert_eq!(p.to_8_bit().port_name().get_port_size(), PortSize::Port8Bit);
            assert_eq!(p.to_16_bit().port_name().get_port_size(), PortSize::Port16Bit);
        }
    }
}

#[test]
fn port_name_conversions() {
    assert_eq!(
        PortName::PORTB.to_8_bit(),
        PortNameConversionResult::TwoPorts([PortName::PORT3, PortName::PORT4])
    );
    assert_eq!(PortName::PORT3.to_8_bit(), PortNameConversionResult::SinglePort(PortName::PORT3));
    assert_eq!(
        PortName::PORT4.to_16_bit(),
        PortNameConversionResult::HalfPort(PortName::PORTB, Half::Upper)
    );
    assert_eq!(
        PortName::PORT9.to_16_bit(),
        PortNameConversionResult::HalfPort(PortName::PORTE, Half::Lower)
    );
    assert_eq!(PortName::PORTC.to_16_bit(), PortNameConversionResult::SinglePort(PortName::PORTC));
}

#[test]
fn port_indices() {
    assert_eq!(PortName::PORTD.get_8_bit_port_index(Half::Lower), 6);
    assert_eq!(PortName::PORTD.get_8_bit_port_index(Half::Upper), 7);
    assert_eq!(PortName::PORT8.get_8_bit_port_index(Half::Lower), 7);
    assert_eq!(PortName::PORT8.get_16_bit_port_index(), 3);
    assert_eq!(PortName::PORTJ_8BIT.get_16_bit_port_index(), 5);
    assert!(PortName::PORT6.is_upper_half_port());
    assert!(!PortName::PORT5.is_upper_half_port());
    assert_eq!(PortName::PORTE.get_port_size(), PortSize::Port16Bit);
    assert_eq!(PortName::PORT10.get_port_size(), PortSize::Port8Bit);
    assert_eq!(PortName::from_number(9, PortSize::Port8Bit), PortName::PORT10);
}

#[test]
fn owning_port_names() {
    let p = pin(PortName::PORTC, 9);
    assert_eq!(p.get_owning_port_name(PortSize::Port8Bit), PortName::PORT6);
    assert_eq!(p.get_owning_port_name(PortSize::Port16Bit), PortName::PORTC);
    let q = pin(PortName::PORT7, 2);
    assert_eq!(q.get_owning_port_name(PortSize::Port16Bit), PortName::PORTD);
    assert_eq!(q.get_owning_port_name(PortSize::Port8Bit), PortName::PORT7);
}
