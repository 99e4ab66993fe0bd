//! Mode configuration: program, once per port, the bulk mode register words
//! covering every pin the registry owns on that port.
//!
//! Each word is written whole, never field by field, so a port can never sit
//! half configured; the price is that nibbles of pins the registry does not
//! own are written to zero, the hardware reset default (the disabled mode),
//! which is the documented behaviour of this layer. This must run before any
//! line-control call touches a port: driving a level into a pin still in its
//! reset mode has no defined electrical effect.

use vstd::prelude::*;

use crate::registers::{Gpio, spec_mode_nibble, spec_dout};
use crate::registry::{PinRole, Port, ElectricalMode, pin_bit, pin_mode, pin_port};

verus! {

/// Hardware encoding of an electrical mode: the four-bit value a mode nibble
/// takes, as the reference manual defines it. Zero, not produced here, is
/// the reset default: a disabled pin.
pub open spec fn spec_mode_bits(m: ElectricalMode) -> u32 {
    match m {
        ElectricalMode::Input => 1,
        ElectricalMode::InputPullUp => 2,
        ElectricalMode::InputPullUpFilter => 3,
        ElectricalMode::PushPull => 4,
        ElectricalMode::WiredAndPullUp => 10,
    }
}

/// Encode an electrical mode as its four-bit register value.
pub fn mode_bits(m: ElectricalMode) -> (b: u32)
    ensures
        b == spec_mode_bits(m),
        b < 16,
{
    match m {
        ElectricalMode::Input => 1,
        ElectricalMode::InputPullUp => 2,
        ElectricalMode::InputPullUpFilter => 3,
        ElectricalMode::PushPull => 4,
        ElectricalMode::WiredAndPullUp => 10,
    }
}

/// One role's mode nibble, shifted to its place within its port's low or
/// high mode word.
pub open spec fn spec_nibble_at(r: PinRole) -> u32 {
    spec_mode_bits(pin_mode(r)) << ((4 * (pin_bit(r) % 8)) as u32)
}

/// The word written to port A's low mode register: SCL, the I2C power
/// enable, SDA and the display reset line.
pub open spec fn porta_model_word() -> u32 {
    spec_nibble_at(PinRole::Scl) | spec_nibble_at(PinRole::I2cEnable) | spec_nibble_at(
        PinRole::Sda,
    ) | spec_nibble_at(PinRole::DisplayReset)
}

/// The word written to port A's high mode register: the NFC field-detect
/// line and the 2.8 V power enable.
pub open spec fn porta_modeh_word() -> u32 {
    spec_nibble_at(PinRole::Nfc) | spec_nibble_at(PinRole::Power)
}

/// The word written to port B's low mode register: the touch interrupt and
/// the SPI busy line.
pub open spec fn portb_model_word() -> u32 {
    spec_nibble_at(PinRole::TouchInterrupt) | spec_nibble_at(PinRole::BusBusy)
}

/// The word written to port C's low mode register: the flash chip select,
/// the epaper bus lines and the PSRAM bus lines.
pub open spec fn portc_model_word() -> u32 {
    spec_nibble_at(PinRole::FlashChipSelect) | spec_nibble_at(PinRole::EpaperMiso)
        | spec_nibble_at(PinRole::EpaperMosi) | spec_nibble_at(PinRole::EpaperSck)
        | spec_nibble_at(PinRole::PsramChipSelect) | spec_nibble_at(PinRole::PsramMiso)
        | spec_nibble_at(PinRole::PsramMosi) | spec_nibble_at(PinRole::PsramSck)
}

/// The word written to port D's low mode register: the display chip select
/// and the display data/command line.
pub open spec fn portd_model_word() -> u32 {
    spec_nibble_at(PinRole::DisplayChipSelect) | spec_nibble_at(PinRole::DisplayDataCommand)
}

/// The bank after mode configuration: every mode word this layer owns takes
/// its registry value, every data-output word keeps its value.
pub open spec fn spec_map_gpio(g: Gpio) -> Gpio {
    Gpio {
        porta_model: porta_model_word(),
        porta_modeh: porta_modeh_word(),
        portb_model: portb_model_word(),
        portc_model: portc_model_word(),
        portd_model: portd_model_word(),
        ..g
    }
}

/// The five mode words as literals.
pub proof fn lemma_mode_words_literal()
    ensures
        porta_model_word() == 0x04A4_A000,
        porta_modeh_word() == 0x43,
        portb_model_word() == 0x0001_0010,
        portc_model_word() == 0x4424_4424,
        portd_model_word() == 0x4200,
{
    assert((10u32 << 12) | (4u32 << 16) | (10u32 << 20) | (4u32 << 24) == 0x04A4_A000u32)
        by (bit_vector);
    assert((3u32 << 0) | (4u32 << 4) == 0x43u32) by (bit_vector);
    assert((1u32 << 4) | (1u32 << 16) == 0x0001_0010u32) by (bit_vector);
    assert((4u32 << 0) | (2u32 << 4) | (4u32 << 8) | (4u32 << 12) | (4u32 << 16) | (2u32 << 20) | (
    4u32 << 24) | (4u32 << 28) == 0x4424_4424u32) by (bit_vector);
    assert((2u32 << 8) | (4u32 << 12) == 0x4200u32) by (bit_vector);
}

/// Every owned nibble of the written words carries its registry mode, and
/// every nibble the registry does not own is zero, the reset default.
pub proof fn lemma_mode_words_nibbles(g: Gpio)
    ensures
        forall|r: PinRole| #[trigger]
            spec_mode_nibble(spec_map_gpio(g), pin_port(r), pin_bit(r)) == spec_mode_bits(
                pin_mode(r),
            ),
        forall|b: u32|
            b < 8 && (b == 0 || b == 1 || b == 2 || b == 7) ==> #[trigger] spec_mode_nibble(
                spec_map_gpio(g),
                Port::A,
                b,
            ) == 0,
        forall|b: u32|
            10 <= b < 16 ==> #[trigger] spec_mode_nibble(spec_map_gpio(g), Port::A, b) == 0,
        forall|b: u32|
            b < 8 && !(b == 1 || b == 4) ==> #[trigger] spec_mode_nibble(
                spec_map_gpio(g),
                Port::B,
                b,
            ) == 0,
        forall|b: u32|
            b < 8 && !(b == 2 || b == 3) ==> #[trigger] spec_mode_nibble(
                spec_map_gpio(g),
                Port::D,
                b,
            ) == 0,
{
    lemma_mode_words_literal();
    assert(forall|b: u32|
        b < 8 ==> #[trigger] ((0x04A4_A000u32 >> ((4 * b) as u32)) & 0xF) == (if b == 3 {
            10u32
        } else if b == 4 {
            4u32
        } else if b == 5 {
            10u32
        } else if b == 6 {
            4u32
        } else {
            0u32
        })) by (bit_vector);
    assert(forall|b: u32|
        b < 8 ==> #[trigger] ((0x43u32 >> ((4 * b) as u32)) & 0xF) == (if b == 0 {
            3u32
        } else if b == 1 {
            4u32
        } else {
            0u32
        })) by (bit_vector);
    assert(forall|b: u32|
        b < 8 ==> #[trigger] ((0x0001_0010u32 >> ((4 * b) as u32)) & 0xF) == (if b == 1 || b == 4 {
            1u32
        } else {
            0u32
        })) by (bit_vector);
    assert(forall|b: u32|
        b < 8 ==> #[trigger] ((0x4424_4424u32 >> ((4 * b) as u32)) & 0xF) == (if b == 1 || b == 5 {
            2u32
        } else {
            4u32
        })) by (bit_vector);
    assert(forall|b: u32|
        b < 8 ==> #[trigger] ((0x4200u32 >> ((4 * b) as u32)) & 0xF) == (if b == 2 {
            2u32
        } else if b == 3 {
            4u32
        } else {
            0u32
        })) by (bit_vector);
}

/// Program every port's mode registers in one bulk write per word. The
/// output words do not move; afterwards each owned pin's nibble reads its
/// registry mode.
pub fn map_gpio(g: &mut Gpio)
    ensures
        *final(g) == spec_map_gpio(*old(g)),
        forall|r: PinRole| #[trigger]
            spec_mode_nibble(*final(g), pin_port(r), pin_bit(r)) == spec_mode_bits(pin_mode(r)),
        forall|p: Port| #[trigger] spec_dout(*final(g), p) == spec_dout(*old(g), p),
{
    let scl = mode_bits(ElectricalMode::WiredAndPullUp);
    let i2c = mode_bits(ElectricalMode::PushPull);
    let sda = mode_bits(ElectricalMode::WiredAndPullUp);
    let res = mode_bits(ElectricalMode::PushPull);
    g.porta_model = (scl << 12) | (i2c << 16) | (sda << 20) | (res << 24);

    let nfc = mode_bits(ElectricalMode::InputPullUpFilter);
    let pow = mode_bits(ElectricalMode::PushPull);
    g.porta_modeh = (nfc << 0) | (pow << 4);

    let touch = mode_bits(ElectricalMode::Input);
    let busy = mode_bits(ElectricalMode::Input);
    g.portb_model = (touch << 4) | (busy << 16);

    let flash_cs = mode_bits(ElectricalMode::PushPull);
    let e_miso = mode_bits(ElectricalMode::InputPullUp);
    let e_mosi = mode_bits(ElectricalMode::PushPull);
    let e_sck = mode_bits(ElectricalMode::PushPull);
    let psram_cs = mode_bits(ElectricalMode::PushPull);
    let psram_miso = mode_bits(ElectricalMode::InputPullUp);
    let psram_mosi = mode_bits(ElectricalMode::PushPull);
    let psram_sck = mode_bits(ElectricalMode::PushPull);
    g.portc_model = (flash_cs << 0) | (e_miso << 4) | (e_mosi << 8) | (e_sck << 12) | (psram_cs
        << 16) | (psram_miso << 20) | (psram_mosi << 24) | (psram_sck << 28);

    let disp_cs = mode_bits(ElectricalMode::InputPullUp);
    let disp_dc = mode_bits(ElectricalMode::PushPull);
    g.portd_model = (disp_cs << 8) | (disp_dc << 12);

    proof {
        lemma_mode_words_nibbles(*old(g));
    }
}

} // verus!
