//! Pin registry: the fixed table binding each symbolic pin role to its
//! physical (port, bit) location and its electrical mode.
//!
//! The table is pure data with process-wide lifetime; nothing here touches a
//! register. Its one invariant — no two roles share a (port, bit) location —
//! is proved in [`lemma_bindings_distinct`].

use vstd::prelude::*;

verus! {

/// Bit position of the flash chip-select line, on port C.
pub const FLASH_CS_PIN: u32 = 0;
/// Bit position of the display chip-select line, on port D.
pub const DISP_CS_PIN: u32 = 2;
/// Bit position of the display data/command line, on port D.
pub const DISP_DC_PIN: u32 = 3;
/// Bit position of the display reset line, on port A.
pub const DISP_RES_PIN: u32 = 6;
/// Bit position of the 2.8 V power-rail enable line, on port A.
pub const POW_PIN: u32 = 9;
/// Bit position of the epaper bus MISO line, on port C.
pub const E_MISO_PIN: u32 = 1;
/// Bit position of the epaper bus MOSI line, on port C.
pub const E_MOSI_PIN: u32 = 2;
/// Bit position of the epaper bus SCK line, on port C.
pub const E_SCK_PIN: u32 = 3;
/// Bit position of the touch-sensor interrupt line, on port B.
pub const TOUCH_INT_PIN: u32 = 1;
/// Bit position of the PSRAM chip-select line, on port C.
pub const PSRAM_CS_PIN: u32 = 4;
/// Bit position of the PSRAM MISO line, on port C.
pub const PSRAM_MISO_PIN: u32 = 5;
/// Bit position of the PSRAM MOSI line, on port C.
pub const PSRAM_MOSI_PIN: u32 = 6;
/// Bit position of the PSRAM SCK line, on port C.
pub const PSRAM_SCK_PIN: u32 = 7;
/// Bit position of the I2C power-enable line, on port A.
pub const I2C_PIN: u32 = 4;
/// Bit position of the SCL line, on port A.
pub const SCL_PIN: u32 = 3;
/// Bit position of the SDA line, on port A.
pub const SDA_PIN: u32 = 5;
/// Bit position of the SPI busy line, on port B.
pub const SPI_BUSY_PIN: u32 = 4;
/// Bit position of the NFC field-detect line, on port A.
pub const NFC_PIN: u32 = 8;

/// Symbolic identifier for every pin this layer owns.
#[derive(Clone, Copy, PartialEq, Eq, Structural, Debug)]
pub enum PinRole {
    FlashChipSelect,
    DisplayChipSelect,
    DisplayDataCommand,
    DisplayReset,
    Power,
    I2cEnable,
    Scl,
    Sda,
    BusBusy,
    EpaperMiso,
    EpaperMosi,
    EpaperSck,
    PsramChipSelect,
    PsramMiso,
    PsramMosi,
    PsramSck,
    Nfc,
    TouchInterrupt,
}

/// Physical GPIO bank. Each port owns one data-output register and one
/// mode-configuration register pair (low and high halves).
#[derive(Clone, Copy, PartialEq, Eq, Structural, Debug)]
pub enum Port {
    A,
    B,
    C,
    D,
}

/// Electrical configuration of a pin, fixed for the module's lifetime.
#[derive(Clone, Copy, PartialEq, Eq, Structural, Debug)]
pub enum ElectricalMode {
    PushPull,
    Input,
    InputPullUp,
    InputPullUpFilter,
    WiredAndPullUp,
}

/// The port a role's pin lives on.
pub open spec fn pin_port(r: PinRole) -> Port {
    match r {
        PinRole::FlashChipSelect => Port::C,
        PinRole::DisplayChipSelect => Port::D,
        PinRole::DisplayDataCommand => Port::D,
        PinRole::DisplayReset => Port::A,
        PinRole::Power => Port::A,
        PinRole::I2cEnable => Port::A,
        PinRole::Scl => Port::A,
        PinRole::Sda => Port::A,
        PinRole::BusBusy => Port::B,
        PinRole::EpaperMiso => Port::C,
        PinRole::EpaperMosi => Port::C,
        PinRole::EpaperSck => Port::C,
        PinRole::PsramChipSelect => Port::C,
        PinRole::PsramMiso => Port::C,
        PinRole::PsramMosi => Port::C,
        PinRole::PsramSck => Port::C,
        PinRole::Nfc => Port::A,
        PinRole::TouchInterrupt => Port::B,
    }
}

/// The bit index of a role's pin within its port's registers.
pub open spec fn pin_bit(r: PinRole) -> u32 {
    match r {
        PinRole::FlashChipSelect => FLASH_CS_PIN,
        PinRole::DisplayChipSelect => DISP_CS_PIN,
        PinRole::DisplayDataCommand => DISP_DC_PIN,
        PinRole::DisplayReset => DISP_RES_PIN,
        PinRole::Power => POW_PIN,
        PinRole::I2cEnable => I2C_PIN,
        PinRole::Scl => SCL_PIN,
        PinRole::Sda => SDA_PIN,
        PinRole::BusBusy => SPI_BUSY_PIN,
        PinRole::EpaperMiso => E_MISO_PIN,
        PinRole::EpaperMosi => E_MOSI_PIN,
        PinRole::EpaperSck => E_SCK_PIN,
        PinRole::PsramChipSelect => PSRAM_CS_PIN,
        PinRole::PsramMiso => PSRAM_MISO_PIN,
        PinRole::PsramMosi => PSRAM_MOSI_PIN,
        PinRole::PsramSck => PSRAM_SCK_PIN,
        PinRole::Nfc => NFC_PIN,
        PinRole::TouchInterrupt => TOUCH_INT_PIN,
    }
}

/// The electrical mode a role's pin is programmed to.
pub open spec fn pin_mode(r: PinRole) -> ElectricalMode {
    match r {
        PinRole::FlashChipSelect => ElectricalMode::PushPull,
        PinRole::DisplayChipSelect => ElectricalMode::InputPullUp,
        PinRole::DisplayDataCommand => ElectricalMode::PushPull,
        PinRole::DisplayReset => ElectricalMode::PushPull,
        PinRole::Power => ElectricalMode::PushPull,
        PinRole::I2cEnable => ElectricalMode::PushPull,
        PinRole::Scl => ElectricalMode::WiredAndPullUp,
        PinRole::Sda => ElectricalMode::WiredAndPullUp,
        PinRole::BusBusy => ElectricalMode::Input,
        PinRole::EpaperMiso => ElectricalMode::InputPullUp,
        PinRole::EpaperMosi => ElectricalMode::PushPull,
        PinRole::EpaperSck => ElectricalMode::PushPull,
        PinRole::PsramChipSelect => ElectricalMode::PushPull,
        PinRole::PsramMiso => ElectricalMode::InputPullUp,
        PinRole::PsramMosi => ElectricalMode::PushPull,
        PinRole::PsramSck => ElectricalMode::PushPull,
        PinRole::Nfc => ElectricalMode::InputPullUpFilter,
        PinRole::TouchInterrupt => ElectricalMode::Input,
    }
}

/// Look the role's port up in the registry.
pub fn port_of(r: PinRole) -> (p: Port)
    ensures
        p == pin_port(r),
{
    match r {
        PinRole::FlashChipSelect => Port::C,
        PinRole::DisplayChipSelect => Port::D,
        PinRole::DisplayDataCommand => Port::D,
        PinRole::DisplayReset => Port::A,
        PinRole::Power => Port::A,
        PinRole::I2cEnable => Port::A,
        PinRole::Scl => Port::A,
        PinRole::Sda => Port::A,
        PinRole::BusBusy => Port::B,
        PinRole::EpaperMiso => Port::C,
        PinRole::EpaperMosi => Port::C,
        PinRole::EpaperSck => Port::C,
        PinRole::PsramChipSelect => Port::C,
        PinRole::PsramMiso => Port::C,
        PinRole::PsramMosi => Port::C,
        PinRole::PsramSck => Port::C,
        PinRole::Nfc => Port::A,
        PinRole::TouchInterrupt => Port::B,
    }
}

/// Look the role's bit index up in the registry. Every owned pin sits in the
/// low half of a 32-bit register, so the index is always below 32.
pub fn bit_of(r: PinRole) -> (b: u32)
    ensures
        b == pin_bit(r),
        b < 32,
{
    match r {
        PinRole::FlashChipSelect => FLASH_CS_PIN,
        PinRole::DisplayChipSelect => DISP_CS_PIN,
        PinRole::DisplayDataCommand => DISP_DC_PIN,
        PinRole::DisplayReset => DISP_RES_PIN,
        PinRole::Power => POW_PIN,
        PinRole::I2cEnable => I2C_PIN,
        PinRole::Scl => SCL_PIN,
        PinRole::Sda => SDA_PIN,
        PinRole::BusBusy => SPI_BUSY_PIN,
        PinRole::EpaperMiso => E_MISO_PIN,
        PinRole::EpaperMosi => E_MOSI_PIN,
        PinRole::EpaperSck => E_SCK_PIN,
        PinRole::PsramChipSelect => PSRAM_CS_PIN,
        PinRole::PsramMiso => PSRAM_MISO_PIN,
        PinRole::PsramMosi => PSRAM_MOSI_PIN,
        PinRole::PsramSck => PSRAM_SCK_PIN,
        PinRole::Nfc => NFC_PIN,
        PinRole::TouchInterrupt => TOUCH_INT_PIN,
    }
}

/// Look the role's electrical mode up in the registry.
pub fn mode_of(r: PinRole) -> (m: ElectricalMode)
    ensures
        m == pin_mode(r),
{
    match r {
        PinRole::FlashChipSelect => ElectricalMode::PushPull,
        PinRole::DisplayChipSelect => ElectricalMode::InputPullUp,
        PinRole::DisplayDataCommand => ElectricalMode::PushPull,
        PinRole::DisplayReset => ElectricalMode::PushPull,
        PinRole::Power => ElectricalMode::PushPull,
        PinRole::I2cEnable => ElectricalMode::PushPull,
        PinRole::Scl => ElectricalMode::WiredAndPullUp,
        PinRole::Sda => ElectricalMode::WiredAndPullUp,
        PinRole::BusBusy => ElectricalMode::Input,
        PinRole::EpaperMiso => ElectricalMode::InputPullUp,
        PinRole::EpaperMosi => ElectricalMode::PushPull,
        PinRole::EpaperSck => ElectricalMode::PushPull,
        PinRole::PsramChipSelect => ElectricalMode::PushPull,
        PinRole::PsramMiso => ElectricalMode::InputPullUp,
        PinRole::PsramMosi => ElectricalMode::PushPull,
        PinRole::PsramSck => ElectricalMode::PushPull,
        PinRole::Nfc => ElectricalMode::InputPullUpFilter,
        PinRole::TouchInterrupt => ElectricalMode::Input,
    }
}

/// The registry's aliasing invariant: two distinct roles never share a
/// (port, bit) location, so driving one line can never disturb another.
pub proof fn lemma_bindings_distinct(a: PinRole, b: PinRole)
    requires
        a != b,
    ensures
        pin_port(a) != pin_port(b) || pin_bit(a) != pin_bit(b),
{
}

} // verus!
