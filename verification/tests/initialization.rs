use gpio_pins::line::{clear_in_word, clear_pin, set_in_word, set_line, set_pin};
use gpio_pins::modes::{map_gpio, mode_bits};
use gpio_pins::registers::{mode_nibble_of, Gpio};
use gpio_pins::registry::{bit_of, mode_of, port_of, ElectricalMode, PinRole, Port};
use gpio_pins::registry::{
    DISP_CS_PIN, DISP_DC_PIN, DISP_RES_PIN, E_MISO_PIN, E_MOSI_PIN, E_SCK_PIN, FLASH_CS_PIN,
    I2C_PIN, NFC_PIN, POW_PIN, PSRAM_CS_PIN, PSRAM_MISO_PIN, PSRAM_MOSI_PIN, PSRAM_SCK_PIN,
    SCL_PIN, SDA_PIN, SPI_BUSY_PIN, TOUCH_INT_PIN,
};
use gpio_pins::sequence::{boot_sequence, init_gpio, run_steps, BootStep};
use gpio_pins::{MIN_SETTLE_MS, SETTLE_MS};

const ALL_ROLES: [PinRole; 18] = [
    PinRole::FlashChipSelect,
    PinRole::DisplayChipSelect,
    PinRole::DisplayDataCommand,
    PinRole::DisplayReset,
    PinRole::Power,
    PinRole::I2cEnable,
    PinRole::Scl,
    PinRole::Sda,
    PinRole::BusBusy,
    PinRole::EpaperMiso,
    PinRole::EpaperMosi,
    PinRole::EpaperSck,
    PinRole::PsramChipSelect,
    PinRole::PsramMiso,
    PinRole::PsramMosi,
    PinRole::PsramSck,
    PinRole::Nfc,
    PinRole::TouchInterrupt,
];

#[test]
fn registry_bindings_are_distinct() {
    for i in 0..ALL_ROLES.len() {
        for j in 0..ALL_ROLES.len() {
            if i != j {
                let a = ALL_ROLES[i];
                let b = ALL_ROLES[j];
                assert!(
                    port_of(a) != port_of(b) || bit_of(a) != bit_of(b),
                    "roles {:?} and {:?} share a (port, bit) location",
                    a,
                    b
                );
            }
        }
    }
}

#[test]
fn registry_matches_pin_constants() {
    assert_eq!(bit_of(PinRole::FlashChipSelect), FLASH_CS_PIN);
    assert_eq!(bit_of(PinRole::DisplayChipSelect), DISP_CS_PIN);
    assert_eq!(bit_of(PinRole::DisplayDataCommand), DISP_DC_PIN);
    assert_eq!(bit_of(PinRole::DisplayReset), DISP_RES_PIN);
    assert_eq!(bit_of(PinRole::Power), POW_PIN);
    assert_eq!(bit_of(PinRole::I2cEnable), I2C_PIN);
    assert_eq!(bit_of(PinRole::Scl), SCL_PIN);
    assert_eq!(bit_of(PinRole::Sda), SDA_PIN);
    assert_eq!(bit_of(PinRole::BusBusy), SPI_BUSY_PIN);
    assert_eq!(bit_of(PinRole::EpaperMiso), E_MISO_PIN);
    assert_eq!(bit_of(PinRole::EpaperMosi), E_MOSI_PIN);
    assert_eq!(bit_of(PinRole::EpaperSck), E_SCK_PIN);
    assert_eq!(bit_of(PinRole::PsramChipSelect), PSRAM_CS_PIN);
    assert_eq!(bit_of(PinRole::PsramMiso), PSRAM_MISO_PIN);
    assert_eq!(bit_of(PinRole::PsramMosi), PSRAM_MOSI_PIN);
    assert_eq!(bit_of(PinRole::PsramSck), PSRAM_SCK_PIN);
    assert_eq!(bit_of(PinRole::Nfc), NFC_PIN);
    assert_eq!(bit_of(PinRole::TouchInterrupt), TOUCH_INT_PIN);
    assert_eq!(port_of(PinRole::Power), Port::A);
    assert_eq!(port_of(PinRole::Nfc), Port::A);
    assert_eq!(port_of(PinRole::TouchInterrupt), Port::B);
    assert_eq!(port_of(PinRole::BusBusy), Port::B);
    assert_eq!(port_of(PinRole::FlashChipSelect), Port::C);
    assert_eq!(port_of(PinRole::PsramSck), Port::C);
    assert_eq!(port_of(PinRole::DisplayChipSelect), Port::D);
    assert_eq!(port_of(PinRole::DisplayDataCommand), Port::D);
}

#[test]
fn registry_modes() {
    assert_eq!(mode_of(PinRole::Scl), ElectricalMode::WiredAndPullUp);
    assert_eq!(mode_of(PinRole::Sda), ElectricalMode::WiredAndPullUp);
    assert_eq!(mode_of(PinRole::Nfc), ElectricalMode::InputPullUpFilter);
    assert_eq!(mode_of(PinRole::Power), ElectricalMode::PushPull);
    assert_eq!(mode_of(PinRole::BusBusy), ElectricalMode::Input);
    assert_eq!(mode_of(PinRole::TouchInterrupt), ElectricalMode::Input);
    assert_eq!(mode_of(PinRole::DisplayChipSelect), ElectricalMode::InputPullUp);
    assert_eq!(mode_of(PinRole::EpaperMiso), ElectricalMode::InputPullUp);
    assert_eq!(mode_of(PinRole::PsramMiso), ElectricalMode::InputPullUp);
    assert_eq!(mode_of(PinRole::FlashChipSelect), ElectricalMode::PushPull);
}

#[test]
fn word_level_set_and_clear() {
    assert_eq!(set_in_word(0, 9), 0x200);
    assert_eq!(set_in_word(0x200, 4), 0x210);
    assert_eq!(set_in_word(0x210, 4), 0x210);
    assert_eq!(clear_in_word(0xFF, 3), 0xF7);
    assert_eq!(clear_in_word(0xF7, 3), 0xF7);
    assert_eq!(clear_in_word(0, 31), 0);
    assert_eq!(set_in_word(0, 31), 0x8000_0000);
}

#[test]
fn clearing_a_line_twice_is_idempotent() {
    let mut g = Gpio::reset();
    // A pattern with the flash chip-select bit high and neighbours high too.
    set_line(&mut g, Port::C, 0);
    set_line(&mut g, Port::C, 1);
    set_line(&mut g, Port::C, 5);
    clear_pin(&mut g, PinRole::FlashChipSelect);
    let after_one = g;
    clear_pin(&mut g, PinRole::FlashChipSelect);
    assert_eq!(g, after_one);
    assert_eq!(g.portc_dout & 1, 0);
    // Clearing a line that was never set also leaves it low and moves nothing.
    let mut h = Gpio::reset();
    clear_pin(&mut h, PinRole::FlashChipSelect);
    assert_eq!(h, Gpio::reset());
}

#[test]
fn set_clear_set_restores_the_set_state() {
    let mut g = Gpio::reset();
    set_line(&mut g, Port::A, 6);
    set_line(&mut g, Port::A, 2);
    set_pin(&mut g, PinRole::Power);
    let after_set = g;
    clear_pin(&mut g, PinRole::Power);
    assert_eq!(g.porta_dout & (1 << 9), 0);
    set_pin(&mut g, PinRole::Power);
    assert_eq!(g, after_set);
    assert_ne!(g.porta_dout & (1 << 9), 0);
    // The unrelated bits of the port survived the round trip.
    assert_ne!(g.porta_dout & (1 << 6), 0);
    assert_ne!(g.porta_dout & (1 << 2), 0);
}

#[test]
fn mode_configuration_writes_the_registry_modes() {
    let mut g = Gpio::reset();
    g.porta_dout = 0x123;
    map_gpio(&mut g);
    assert_eq!(g.porta_model, 0x04A4_A000);
    assert_eq!(g.porta_modeh, 0x43);
    assert_eq!(g.portb_model, 0x0001_0010);
    assert_eq!(g.portc_model, 0x4424_4424);
    assert_eq!(g.portd_model, 0x4200);
    // Data-output words are untouched by mode configuration.
    assert_eq!(g.porta_dout, 0x123);
    assert_eq!(g.portc_dout, 0);
    // Every owned pin's nibble reads exactly its registry mode.
    for role in ALL_ROLES {
        assert_eq!(
            mode_nibble_of(&g, port_of(role), bit_of(role)),
            mode_bits(mode_of(role)),
            "wrong mode nibble for {:?}",
            role
        );
    }
    // Whole-register write semantics: nibbles of pins the registry does not
    // own hold the reset default, zero.
    for bit in [0u32, 1, 2, 7] {
        assert_eq!(mode_nibble_of(&g, Port::A, bit), 0);
    }
    for bit in [10u32, 11, 12, 13, 14, 15] {
        assert_eq!(mode_nibble_of(&g, Port::A, bit), 0);
    }
    for bit in [0u32, 2, 3, 5, 6, 7] {
        assert_eq!(mode_nibble_of(&g, Port::B, bit), 0);
    }
    for bit in [0u32, 1, 4, 5, 6, 7] {
        assert_eq!(mode_nibble_of(&g, Port::D, bit), 0);
    }
}

#[test]
fn boot_sequence_settles_once_after_power() {
    let steps = boot_sequence();
    assert_eq!(steps.len(), 17);
    let mut settle_count = 0;
    let mut settle_index = 0;
    for (i, step) in steps.iter().enumerate() {
        if let BootStep::Settle { ms } = step {
            settle_count += 1;
            settle_index = i;
            assert!(*ms >= MIN_SETTLE_MS);
        }
    }
    assert_eq!(settle_count, 1);
    assert_eq!(settle_index, 2);
    assert_eq!(
        steps[0],
        BootStep::Drive { role: PinRole::Power, high: true }
    );
    assert_eq!(
        steps[1],
        BootStep::Drive { role: PinRole::I2cEnable, high: true }
    );
    assert_eq!(steps[2], BootStep::Settle { ms: SETTLE_MS });
}

#[test]
fn boot_sequence_drives_every_output_once() {
    let steps = boot_sequence();
    // The lines driven to idle levels, in order, after mode configuration.
    let expected = [
        (PinRole::Power, true),
        (PinRole::I2cEnable, true),
        (PinRole::DisplayChipSelect, true),
        (PinRole::DisplayDataCommand, false),
        (PinRole::DisplayReset, false),
        (PinRole::Sda, true),
        (PinRole::Scl, true),
        (PinRole::FlashChipSelect, true),
        (PinRole::EpaperMiso, true),
        (PinRole::EpaperMosi, true),
        (PinRole::EpaperSck, false),
        (PinRole::PsramChipSelect, true),
        (PinRole::PsramMiso, true),
        (PinRole::PsramMosi, false),
        (PinRole::PsramSck, false),
        (PinRole::Nfc, false),
    ];
    let drives: Vec<(PinRole, bool)> = steps
        .iter()
        .filter_map(|s| match s {
            BootStep::Drive { role, high } => Some((*role, *high)),
            BootStep::Settle { .. } => None,
        })
        .collect();
    assert_eq!(drives.as_slice(), expected.as_slice());
}

#[test]
fn initialization_reaches_the_documented_idle_state() {
    let mut g = Gpio::reset();
    init_gpio(&mut g);
    // Port A: power (9), I2C enable (4), SDA (5), SCL (3) high; display
    // reset (6) and NFC (8) low.
    assert_eq!(g.porta_dout, 0x238);
    // Port B carries inputs only: nothing driven.
    assert_eq!(g.portb_dout, 0);
    // Port C: flash chip select (0), epaper MISO (1) and MOSI (2), PSRAM
    // chip select (4) and MISO (5) high; both clocks and PSRAM MOSI low.
    assert_eq!(g.portc_dout, 0x37);
    // Port D: display chip select (2) high, data/command (3) low.
    assert_eq!(g.portd_dout, 0x4);
    // Mode configuration ran as part of initialization.
    assert_eq!(g.porta_model, 0x04A4_A000);
    assert_eq!(g.porta_modeh, 0x43);
    assert_eq!(g.portb_model, 0x0001_0010);
    assert_eq!(g.portc_model, 0x4424_4424);
    assert_eq!(g.portd_model, 0x4200);
}

#[test]
fn running_the_steps_equals_initialization() {
    let mut by_parts = Gpio::reset();
    map_gpio(&mut by_parts);
    let steps = boot_sequence();
    run_steps(&mut by_parts, &steps);
    let mut whole = Gpio::reset();
    init_gpio(&mut whole);
    assert_eq!(by_parts, whole);
}

#[test]
fn initialization_is_insensitive_to_prior_output_state() {
    // Every bit the sequence drives ends at its idle level whatever it held
    // before; bits the sequence does not drive keep their value.
    let mut g = Gpio::reset();
    g.porta_dout = 0xFFFF_FFFF;
    g.portc_dout = 0xFFFF_FFFF;
    g.portd_dout = 0xFFFF_FFFF;
    init_gpio(&mut g);
    let driven_a: u32 = (1 << 9) | (1 << 4) | (1 << 5) | (1 << 3) | (1 << 6) | (1 << 8);
    let driven_c: u32 = 0xFF;
    let driven_d: u32 = (1 << 2) | (1 << 3);
    assert_eq!(g.porta_dout & driven_a, 0x238);
    assert_eq!(g.portc_dout & driven_c, 0x37);
    assert_eq!(g.portd_dout & driven_d, 0x4);
    assert_eq!(g.porta_dout & !driven_a, 0xFFFF_FFFF & !driven_a);
    assert_eq!(g.portc_dout & !driven_c, 0xFFFF_FFFF & !driven_c);
    assert_eq!(g.portd_dout & !driven_d, 0xFFFF_FFFF & !driven_d);
}
