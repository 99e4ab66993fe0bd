//! The modelled register bank: one plain value holding, per port, the
//! data-output word and the mode-configuration words this layer owns.
//!
//! The hardware owns the live registers; this handle is their model, and it
//! is the single owned value every operation takes explicitly, which makes
//! the exclusive, non-reentrant access the hardware demands a property of
//! the type rather than a hidden convention. The unverified binding mirrors
//! every write of this model onto the memory-mapped peripheral.

use vstd::prelude::*;

use crate::registry::Port;

verus! {

/// The register bank model. Each data-output word is a set of 32 output
/// levels, one per bit index; each mode word packs one four-bit mode nibble
/// per pin, the low word for pins 0 to 7, the high word for pins 8 to 15.
/// Only the registers this layer writes are modelled: port A is the one port
/// with owned pins above bit 7, so it alone carries its high mode word.
#[derive(Clone, Copy, PartialEq, Eq, Structural, Debug)]
pub struct Gpio {
    pub porta_dout: u32,
    pub portb_dout: u32,
    pub portc_dout: u32,
    pub portd_dout: u32,
    pub porta_model: u32,
    pub porta_modeh: u32,
    pub portb_model: u32,
    pub portc_model: u32,
    pub portd_model: u32,
}

/// The bank as hardware reset leaves it: every modelled register zero, that
/// is, all outputs low and every pin in the disabled mode.
pub open spec fn reset_gpio() -> Gpio {
    Gpio {
        porta_dout: 0,
        portb_dout: 0,
        portc_dout: 0,
        portd_dout: 0,
        porta_model: 0,
        porta_modeh: 0,
        portb_model: 0,
        portc_model: 0,
        portd_model: 0,
    }
}

/// The data-output word of one port.
pub open spec fn spec_dout(g: Gpio, p: Port) -> u32 {
    match p {
        Port::A => g.porta_dout,
        Port::B => g.portb_dout,
        Port::C => g.portc_dout,
        Port::D => g.portd_dout,
    }
}

/// The bank with one port's data-output word replaced and everything else
/// kept.
pub open spec fn with_dout(g: Gpio, p: Port, v: u32) -> Gpio {
    match p {
        Port::A => Gpio { porta_dout: v, ..g },
        Port::B => Gpio { portb_dout: v, ..g },
        Port::C => Gpio { portc_dout: v, ..g },
        Port::D => Gpio { portd_dout: v, ..g },
    }
}

/// The mode nibble of one pin: four bits out of the port's low mode word for
/// pins 0 to 7, out of the high word for pins 8 to 15. Ports B, C and D own
/// no pin above 7, so their unmodelled high words read as the reset zero.
pub open spec fn spec_mode_nibble(g: Gpio, p: Port, bit: u32) -> u32
    recommends
        bit < 16,
{
    if bit < 8 {
        (spec_model_word(g, p) >> ((4 * bit) as u32)) & 0xF
    } else {
        (spec_modeh_word(g, p) >> ((4 * (bit - 8)) as u32)) & 0xF
    }
}

/// The low mode word of one port.
pub open spec fn spec_model_word(g: Gpio, p: Port) -> u32 {
    match p {
        Port::A => g.porta_model,
        Port::B => g.portb_model,
        Port::C => g.portc_model,
        Port::D => g.portd_model,
    }
}

/// The high mode word of one port; zero for the ports whose high half this
/// layer never writes.
pub open spec fn spec_modeh_word(g: Gpio, p: Port) -> u32 {
    match p {
        Port::A => g.porta_modeh,
        Port::B => 0,
        Port::C => 0,
        Port::D => 0,
    }
}

impl Gpio {
    /// A bank in the hardware reset state.
    pub fn reset() -> (g: Gpio)
        ensures
            g == reset_gpio(),
    {
        Gpio {
            porta_dout: 0,
            portb_dout: 0,
            portc_dout: 0,
            portd_dout: 0,
            porta_model: 0,
            porta_modeh: 0,
            portb_model: 0,
            portc_model: 0,
            portd_model: 0,
        }
    }
}

/// Register access, read half: the current data-output word of one port.
pub fn read_dout(g: &Gpio, p: Port) -> (v: u32)
    ensures
        v == spec_dout(*g, p),
{
    match p {
        Port::A => g.porta_dout,
        Port::B => g.portb_dout,
        Port::C => g.portc_dout,
        Port::D => g.portd_dout,
    }
}

/// Register access, write half: replace one port's data-output word whole,
/// leaving every other register untouched.
pub fn write_dout(g: &mut Gpio, p: Port, v: u32)
    ensures
        *final(g) == with_dout(*old(g), p, v),
{
    match p {
        Port::A => g.porta_dout = v,
        Port::B => g.portb_dout = v,
        Port::C => g.portc_dout = v,
        Port::D => g.portd_dout = v,
    }
}

/// Inspect the mode nibble a pin is configured to.
pub fn mode_nibble_of(g: &Gpio, p: Port, bit: u32) -> (n: u32)
    requires
        bit < 16,
    ensures
        n == spec_mode_nibble(*g, p, bit),
{
    if bit < 8 {
        let word = match p {
            Port::A => g.porta_model,
            Port::B => g.portb_model,
            Port::C => g.portc_model,
            Port::D => g.portd_model,
        };
        (word >> (4 * bit)) & 0xF
    } else {
        let word = match p {
            Port::A => g.porta_modeh,
            Port::B => 0,
            Port::C => 0,
            Port::D => 0,
        };
        (word >> (4 * (bit - 8))) & 0xF
    }
}

} // verus!
