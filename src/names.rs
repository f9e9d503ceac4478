//! Names of ports and pins, in the two port granularities: 16-bit logical
//! ports (A to E, and J) and 8-bit physical ports (two halves of each 16-bit
//! port, except J, which has a single narrow half).

use vstd::prelude::*;

verus! {

/// The width of a port.
#[derive(Clone, Copy, Debug, PartialEq, Eq, Structural)]
pub enum PortSize {
    Port8Bit,
    Port16Bit,
}

/// One of the two 8-bit halves of a 16-bit port.
#[derive(Clone, Copy, Debug, PartialEq, Eq, Structural)]
pub enum Half {
    Lower,
    Upper,
}

/// A port, in either granularity.
#[allow(non_camel_case_types)]
#[derive(Clone, Copy, Debug, PartialEq, Eq, Structural)]
pub enum PortName {
    PORTA,
    PORTB,
    PORTC,
    PORTD,
    PORTE,
    PORTJ,
    PORT1,
    PORT2,
    PORT3,
    PORT4,
    PORT5,
    PORT6,
    PORT7,
    PORT8,
    PORT9,
    PORT10,
    PORTJ_8BIT,
}

/// What a port name converts to in the other granularity.
#[derive(Clone, Copy, Debug, PartialEq, Eq)]
pub enum PortNameConversionResult {
    /// The port is its own counterpart (or has a single one).
    SinglePort(PortName),
    /// The lower and the upper 8-bit halves of a 16-bit port.
    TwoPorts([PortName; 2]),
    /// The 16-bit port that holds an 8-bit port, and which half it is.
    HalfPort(PortName, Half),
}

/// Whether `number` names a port of width `size`.
pub open spec fn valid_port_number(number: nat, size: PortSize) -> bool {
    match size {
        PortSize::Port16Bit => number <= 5,
        PortSize::Port8Bit => number <= 10,
    }
}

/// The port with index `number` in granularity `size`.
pub open spec fn port_of(number: nat, size: PortSize) -> PortName {
    match size {
        PortSize::Port16Bit => if number == 0 {
            PortName::PORTA
        } else if number == 1 {
            PortName::PORTB
        } else if number == 2 {
            PortName::PORTC
        } else if number == 3 {
            PortName::PORTD
        } else if number == 4 {
            PortName::PORTE
        } else {
            PortName::PORTJ
        },
        PortSize::Port8Bit => if number == 0 {
            PortName::PORT1
        } else if number == 1 {
            PortName::PORT2
        } else if number == 2 {
            PortName::PORT3
        } else if number == 3 {
            PortName::PORT4
        } else if number == 4 {
            PortName::PORT5
        } else if number == 5 {
            PortName::PORT6
        } else if number == 6 {
            PortName::PORT7
        } else if number == 7 {
            PortName::PORT8
        } else if number == 8 {
            PortName::PORT9
        } else if number == 9 {
            PortName::PORT10
        } else {
            PortName::PORTJ_8BIT
        },
    }
}

impl PortName {
    /// The index of the port among the ports of its granularity.
    pub open spec fn spec_number(self) -> nat {
        match self {
            PortName::PORTA => 0,
            PortName::PORTB => 1,
            PortName::PORTC => 2,
            PortName::PORTD => 3,
            PortName::PORTE => 4,
            PortName::PORTJ => 5,
            PortName::PORT1 => 0,
            PortName::PORT2 => 1,
            PortName::PORT3 => 2,
            PortName::PORT4 => 3,
            PortName::PORT5 => 4,
            PortName::PORT6 => 5,
            PortName::PORT7 => 6,
            PortName::PORT8 => 7,
            PortName::PORT9 => 8,
            PortName::PORT10 => 9,
            PortName::PORTJ_8BIT => 10,
        }
    }

    /// The granularity of the port.
    pub open spec fn spec_size(self) -> PortSize {
        match self {
            PortName::PORTA | PortName::PORTB | PortName::PORTC | PortName::PORTD
            | PortName::PORTE | PortName::PORTJ => PortSize::Port16Bit,
            _ => PortSize::Port8Bit,
        }
    }

    /// How many pins the port has.
    pub open spec fn spec_width(self) -> nat {
        match self {
            PortName::PORTJ | PortName::PORTJ_8BIT => 6,
            _ => if self.spec_size() == PortSize::Port16Bit {
                16
            } else {
                8
            },
        }
    }

    /// The index of the 16-bit port that holds this port.
    pub open spec fn spec_index16(self) -> nat {
        match self.spec_size() {
            PortSize::Port16Bit => self.spec_number(),
            PortSize::Port8Bit => self.spec_number() / 2,
        }
    }

    /// The index of this port's half (for a 16-bit port, of half `half`)
    /// among the 8-bit ports.
    pub open spec fn spec_index8(self, half: Half) -> nat {
        match self.spec_size() {
            PortSize::Port8Bit => self.spec_number(),
            PortSize::Port16Bit => match half {
                Half::Lower => self.spec_number() * 2,
                Half::Upper => self.spec_number() * 2 + 1,
            },
        }
    }

    /// The index of the port among the ports of its granularity.
    pub fn number(&self) -> (r: usize)
        ensures
            r == self.spec_number(),
    {
        match self {
            PortName::PORTA => 0,
            PortName::PORTB => 1,
            PortName::PORTC => 2,
            PortName::PORTD => 3,
            PortName::PORTE => 4,
            PortName::PORTJ => 5,
            PortName::PORT1 => 0,
            PortName::PORT2 => 1,
            PortName::PORT3 => 2,
            PortName::PORT4 => 3,
            PortName::PORT5 => 4,
            PortName::PORT6 => 5,
            PortName::PORT7 => 6,
            PortName::PORT8 => 7,
            PortName::PORT9 => 8,
            PortName::PORT10 => 9,
            PortName::PORTJ_8BIT => 10,
        }
    }

    /// How many pins the port has.
    pub fn width(&self) -> (r: usize)
        ensures
            r == self.spec_width(),
    {
        match self {
            PortName::PORTJ | PortName::PORTJ_8BIT => 6,
            PortName::PORTA | PortName::PORTB | PortName::PORTC | PortName::PORTD
            | PortName::PORTE => 16,
            _ => 8,
        }
    }

    /// The port with index `number` in granularity `size`.
    pub fn from_number(number: usize, size: PortSize) -> (r: PortName)
        requires
            valid_port_number(number as nat, size),
        ensures
            r == port_of(number as nat, size),
            r.spec_number() == number,
            r.spec_size() == size,
    {
        match size {
            PortSize::Port16Bit => if number == 0 {
                PortName::PORTA
            } else if number == 1 {
                PortName::PORTB
            } else if number == 2 {
                PortName::PORTC
            } else if number == 3 {
                PortName::PORTD
            } else if number == 4 {
                PortName::PORTE
            } else {
                PortName::PORTJ
            },
            PortSize::Port8Bit => if number == 0 {
                PortName::PORT1
            } else if number == 1 {
                PortName::PORT2
            } else if number == 2 {
                PortName::PORT3
            } else if number == 3 {
                PortName::PORT4
            } else if number == 4 {
                PortName::PORT5
            } else if number == 5 {
                PortName::PORT6
            } else if number == 6 {
                PortName::PORT7
            } else if number == 7 {
                PortName::PORT8
            } else if number == 8 {
                PortName::PORT9
            } else if number == 9 {
                PortName::PORT10
            } else {
                PortName::PORTJ_8BIT
            },
        }
    }

    /// Whether this 8-bit port is the upper half of its 16-bit port.
    pub fn is_upper_half_port(&self) -> (r: bool)
        requires
            self.spec_size() == PortSize::Port8Bit,
        ensures
            r == (self.spec_number() % 2 == 1),
    {
        self.number() % 2 == 1
    }

    /// The index of the 16-bit port that holds this port.
    pub fn get_16_bit_port_index(&self) -> (r: usize)
        ensures
            r == self.spec_index16(),
    {
        match self.get_port_size() {
            PortSize::Port8Bit => self.number() / 2,
            PortSize::Port16Bit => self.number(),
        }
    }

    /// The index of this 8-bit port, or of half `half` of this 16-bit port,
    /// among the 8-bit ports.
    pub fn get_8_bit_port_index(&self, half: Half) -> (r: usize)
        ensures
            r == self.spec_index8(half),
    {
        match self.get_port_size() {
            PortSize::Port16Bit => match half {
                Half::Lower => self.number() * 2,
                Half::Upper => self.number() * 2 + 1,
            },
            PortSize::Port8Bit => self.number(),
        }
    }

    /// The granularity of the port.
    pub fn get_port_size(&self) -> (r: PortSize)
        ensures
            r == self.spec_size(),
    {
        match self {
            PortName::PORTA | PortName::PORTB | PortName::PORTC | PortName::PORTD
            | PortName::PORTE | PortName::PORTJ => PortSize::Port16Bit,
            _ => PortSize::Port8Bit,
        }
    }

    /// The 8-bit ports that make up this port.
    pub fn to_8_bit(self) -> (r: PortNameConversionResult)
        ensures
            self.spec_size() == PortSize::Port8Bit ==> r == PortNameConversionResult::SinglePort(self),
            self == PortName::PORTJ ==> r == PortNameConversionResult::SinglePort(PortName::PORTJ_8BIT),
            self.spec_size() == PortSize::Port16Bit && self != PortName::PORTJ ==> r
                == PortNameConversionResult::TwoPorts(
                [
                    port_of(self.spec_number() * 2, PortSize::Port8Bit),
                    port_of(self.spec_number() * 2 + 1, PortSize::Port8Bit),
                ],
            ),
    {
        match self.get_port_size() {
            PortSize::Port8Bit => PortNameConversionResult::SinglePort(self),
            PortSize::Port16Bit => {
                if self.number() == 5 {
                    PortNameConversionResult::SinglePort(PortName::PORTJ_8BIT)
                } else {
                    let lower_port = PortName::from_number(
                        self.get_8_bit_port_index(Half::Lower),
                        PortSize::Port8Bit,
                    );
                    let upper_port = PortName::from_number(
                        self.get_8_bit_port_index(Half::Upper),
                        PortSize::Port8Bit,
                    );
                    PortNameConversionResult::TwoPorts([lower_port, upper_port])
                }
            },
        }
    }

    /// The 16-bit port that holds this port, with the half for an 8-bit port.
    pub fn to_16_bit(self) -> (r: PortNameConversionResult)
        ensures
            self.spec_size() == PortSize::Port16Bit ==> r == PortNameConversionResult::SinglePort(self),
            self.spec_size() == PortSize::Port8Bit ==> r == PortNameConversionResult::HalfPort(
                port_of(self.spec_number() / 2, PortSize::Port16Bit),
                if self.spec_number() % 2 == 1 {
                    Half::Upper
                } else {
                    Half::Lower
                },
            ),
    {
        match self.get_port_size() {
            PortSize::Port16Bit => PortNameConversionResult::SinglePort(self),
            PortSize::Port8Bit => {
                let half = if self.is_upper_half_port() {
                    Half::Upper
                } else {
                    Half::Lower
                };
                let port_name = PortName::from_number(
                    self.get_16_bit_port_index(),
                    PortSize::Port16Bit,
                );
                PortNameConversionResult::HalfPort(port_name, half)
            },
        }
    }
}


/// A pin: a port and the pin's offset within that port.
#[derive(Clone, Copy, Debug, PartialEq, Eq)]
pub struct PinName {
    port_name: PortName,
    pin_offset: usize,
}

/// Whether `offset` is a pin of `port`.
pub open spec fn valid_pin(v: (PortName, nat)) -> bool {
    v.1 < v.0.spec_width()
}

/// The same pin, named within its 16-bit port.
pub open spec fn pin_to_16_bit(v: (PortName, nat)) -> (PortName, nat) {
    match v.0.spec_size() {
        PortSize::Port16Bit => v,
        PortSize::Port8Bit => (
            port_of(v.0.spec_number() / 2, PortSize::Port16Bit),
            if v.0.spec_number() % 2 == 1 {
                v.1 + 8
            } else {
                v.1
            },
        ),
    }
}

/// The same pin, named within its 8-bit port.
pub open spec fn pin_to_8_bit(v: (PortName, nat)) -> (PortName, nat) {
    match v.0.spec_size() {
        PortSize::Port8Bit => v,
        PortSize::Port16Bit => if v.1 < 8 {
            (port_of(v.0.spec_number() * 2, PortSize::Port8Bit), v.1)
        } else {
            (port_of(v.0.spec_number() * 2 + 1, PortSize::Port8Bit), (v.1 - 8) as nat)
        },
    }
}

/// The index of the 16-bit port that holds the pin.
pub open spec fn pin_port16(v: (PortName, nat)) -> nat {
    pin_to_16_bit(v).0.spec_number()
}

/// The pin's offset within its 16-bit port.
pub open spec fn pin_offset16(v: (PortName, nat)) -> nat {
    pin_to_16_bit(v).1
}

/// The index of the 8-bit port that holds the pin.
pub open spec fn pin_port8(v: (PortName, nat)) -> nat {
    pin_to_8_bit(v).0.spec_number()
}

impl View for PinName {
    type V = (PortName, nat);

    closed spec fn view(&self) -> (PortName, nat) {
        (self.port_name, self.pin_offset as nat)
    }
}

impl PinName {
    /// Every pin name names a pin that its port has.
    #[verifier::type_invariant]
    pub open spec fn well_formed(self) -> bool {
        valid_pin(self@)
    }

    /// The pin at `pin_offset` of `port_name`, if the port has such a pin.
    pub fn new(port_name: PortName, pin_offset: usize) -> (r: Option<PinName>)
        ensures
            r is Some <==> valid_pin((port_name, pin_offset as nat)),
            r matches Some(p) ==> p@ == (port_name, pin_offset as nat),
    {
        if pin_offset < port_name.width() {
            Some(PinName { port_name, pin_offset })
        } else {
            None
        }
    }

    /// The port that the pin is named in.
    pub fn port_name(&self) -> (r: PortName)
        ensures
            r == self@.0,
    {
        self.port_name
    }

    /// The pin's offset within the port it is named in.
    pub fn pin_offset(&self) -> (r: usize)
        ensures
            r == self@.1,
    {
        self.pin_offset
    }

    /// The same pin, named within its 8-bit port.
    pub fn to_8_bit(self) -> (r: PinName)
        ensures
            r@ == pin_to_8_bit(self@),
    {
        proof {
            use_type_invariant(&self);
            lemma_port_of_names(self.port_name);
        }
        match self.port_name.get_port_size() {
            PortSize::Port8Bit => self,
            PortSize::Port16Bit => {
                let (offset, port_number) = if self.pin_offset < 8 {
                    (self.pin_offset, self.port_name.get_8_bit_port_index(Half::Lower))
                } else {
                    (self.pin_offset - 8, self.port_name.get_8_bit_port_index(Half::Upper))
                };
                proof {
                    lemma_port_of_numbers(port_number as nat, PortSize::Port8Bit);
                }
                PinName {
                    port_name: PortName::from_number(port_number, PortSize::Port8Bit),
                    pin_offset: offset,
                }
            },
        }
    }

    /// The same pin, named within its 16-bit port.
    pub fn to_16_bit(self) -> (r: PinName)
        ensures
            r@ == pin_to_16_bit(self@),
    {
        proof {
            use_type_invariant(&self);
            lemma_port_of_names(self.port_name);
        }
        match self.port_name.get_port_size() {
            PortSize::Port16Bit => self,
            PortSize::Port8Bit => {
                let offset = if self.port_name.is_upper_half_port() {
                    self.pin_offset + 8
                } else {
                    self.pin_offset
                };
                let port_number = self.port_name.get_16_bit_port_index();
                proof {
                    lemma_port_of_numbers(port_number as nat, PortSize::Port16Bit);
                }
                PinName {
                    port_name: PortName::from_number(port_number, PortSize::Port16Bit),
                    pin_offset: offset,
                }
            },
        }
    }

    /// The port of granularity `port_size` that holds the pin.
    pub fn get_owning_port_name(&self, port_size: PortSize) -> (r: PortName)
        ensures
            port_size == PortSize::Port8Bit ==> r == pin_to_8_bit(self@).0,
            port_size == PortSize::Port16Bit ==> r == pin_to_16_bit(self@).0,
    {
        match port_size {
            PortSize::Port8Bit => self.to_8_bit().port_name,
            PortSize::Port16Bit => self.to_16_bit().port_name,
        }
    }
}

/// A port is the port of its own index and granularity.
pub proof fn lemma_port_of_names(p: PortName)
    ensures
        port_of(p.spec_number(), p.spec_size()) == p,
        valid_port_number(p.spec_number(), p.spec_size()),
{
}

/// The port of a valid index and granularity has that index and granularity.
pub proof fn lemma_port_of_numbers(number: nat, size: PortSize)
    requires
        valid_port_number(number, size),
    ensures
        port_of(number, size).spec_number() == number,
        port_of(number, size).spec_size() == size,
{
}

/// Converting a pin name to either granularity gives a valid pin name, and
/// converting through the other granularity first gives the same name:
/// `to_8_bit(to_16_bit(p)) == to_8_bit(p)` and
/// `to_16_bit(to_8_bit(p)) == to_16_bit(p)`.
pub proof fn lemma_conversion_round_trip(p: (PortName, nat))
    requires
        valid_pin(p),
    ensures
        valid_pin(pin_to_8_bit(p)),
        valid_pin(pin_to_16_bit(p)),
        pin_to_8_bit(pin_to_16_bit(p)) == pin_to_8_bit(p),
        pin_to_16_bit(pin_to_8_bit(p)) == pin_to_16_bit(p),
        pin_to_8_bit(p).0.spec_size() == PortSize::Port8Bit,
        pin_to_16_bit(p).0.spec_size() == PortSize::Port16Bit,
{
    lemma_port_of_names(p.0);
    let n = p.0.spec_number();
    match p.0.spec_size() {
        PortSize::Port8Bit => {
            lemma_port_of_numbers(n / 2, PortSize::Port16Bit);
        },
        PortSize::Port16Bit => {
            lemma_port_of_numbers(n * 2, PortSize::Port8Bit);
            if n < 5 {
                lemma_port_of_numbers(n * 2 + 1, PortSize::Port8Bit);
            }
        },
    }
}

} // verus!
