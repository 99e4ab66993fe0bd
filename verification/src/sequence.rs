//! The power-up sequencer: the fixed, ordered procedure that brings every
//! owned line to its documented idle level.
//!
//! The sequence is reified as a list of steps so that its one hard ordering
//! constraint is a proved property of a value, not a convention: the power
//! and I2C-enable lines are asserted first, then comes the single settle
//! step — the blocking delay the display's power rail needs before anything
//! downstream may be driven — and only after it the remaining idle-level
//! drives, in their fixed order. [`run_steps`] interprets the list over the
//! modelled register bank (a settle step moves no register; the real binding
//! blocks for its duration instead), and [`init_gpio`] is the whole
//! initialization: mode configuration first, then the sequence. It is meant
//! to run exactly once, before anything else touches these ports.

use vstd::prelude::*;

use crate::registers::{Gpio, reset_gpio};
use crate::registry::PinRole;
use crate::line::{set_pin, clear_pin, spec_set_pin, spec_clear_pin};
use crate::modes::{map_gpio, spec_map_gpio, lemma_mode_words_literal};
use crate::{SETTLE_MS, MIN_SETTLE_MS};

verus! {

/// One step of the power-up sequence: drive a named line to a level, or
/// block for at least the given number of milliseconds.
#[derive(Clone, Copy, PartialEq, Eq, Structural, Debug)]
pub enum BootStep {
    Drive { role: PinRole, high: bool },
    Settle { ms: u32 },
}

/// The fixed boot sequence: assert power and the I2C enable, let the rail
/// settle, then drive every remaining line to its idle level.
pub open spec fn spec_boot_sequence() -> Seq<BootStep> {
    seq![
        BootStep::Drive { role: PinRole::Power, high: true },
        BootStep::Drive { role: PinRole::I2cEnable, high: true },
        BootStep::Settle { ms: SETTLE_MS },
        BootStep::Drive { role: PinRole::DisplayChipSelect, high: true },
        BootStep::Drive { role: PinRole::DisplayDataCommand, high: false },
        BootStep::Drive { role: PinRole::DisplayReset, high: false },
        BootStep::Drive { role: PinRole::Sda, high: true },
        BootStep::Drive { role: PinRole::Scl, high: true },
        BootStep::Drive { role: PinRole::FlashChipSelect, high: true },
        BootStep::Drive { role: PinRole::EpaperMiso, high: true },
        BootStep::Drive { role: PinRole::EpaperMosi, high: true },
        BootStep::Drive { role: PinRole::EpaperSck, high: false },
        BootStep::Drive { role: PinRole::PsramChipSelect, high: true },
        BootStep::Drive { role: PinRole::PsramMiso, high: true },
        BootStep::Drive { role: PinRole::PsramMosi, high: false },
        BootStep::Drive { role: PinRole::PsramSck, high: false },
        BootStep::Drive { role: PinRole::Nfc, high: false },
    ]
}

/// The effect of one step on the modelled bank. Settling takes time, not
/// state: the model is unchanged by it.
pub open spec fn apply_step(g: Gpio, s: BootStep) -> Gpio {
    match s {
        BootStep::Drive { role, high } => if high {
            spec_set_pin(g, role)
        } else {
            spec_clear_pin(g, role)
        },
        BootStep::Settle { .. } => g,
    }
}

/// The effect of a step list, applied front to back.
pub open spec fn apply_steps(g: Gpio, steps: Seq<BootStep>) -> Gpio
    decreases steps.len(),
{
    if steps.len() == 0 {
        g
    } else {
        apply_steps(apply_step(g, steps[0]), steps.subrange(1, steps.len() as int))
    }
}

/// Applying a non-empty list is applying all but the last step, then the
/// last.
pub proof fn lemma_apply_steps_last(g: Gpio, steps: Seq<BootStep>)
    requires
        steps.len() > 0,
    ensures
        apply_steps(g, steps) == apply_step(apply_steps(g, steps.drop_last()), steps.last()),
    decreases steps.len(),
{
    let tail = steps.subrange(1, steps.len() as int);
    assert(apply_steps(g, steps) == apply_steps(apply_step(g, steps[0]), tail));
    if steps.len() == 1 {
        assert(steps.drop_last() =~= Seq::<BootStep>::empty());
        assert(tail =~= Seq::<BootStep>::empty());
        assert(apply_steps(apply_step(g, steps[0]), tail) == apply_step(g, steps[0]));
        assert(apply_steps(g, steps.drop_last()) == g);
        assert(steps.last() == steps[0]);
    } else {
        let front = steps.drop_last();
        lemma_apply_steps_last(apply_step(g, steps[0]), tail);
        assert(front.subrange(1, front.len() as int) =~= tail.drop_last());
        assert(front[0] == steps[0]);
        assert(tail.last() == steps.last());
        assert(apply_steps(g, front) == apply_steps(
            apply_step(g, front[0]),
            front.subrange(1, front.len() as int),
        ));
    }
}

/// Build the boot sequence.
pub fn boot_sequence() -> (steps: Vec<BootStep>)
    ensures
        steps@ == spec_boot_sequence(),
{
    let mut steps: Vec<BootStep> = Vec::new();
    steps.push(BootStep::Drive { role: PinRole::Power, high: true });
    steps.push(BootStep::Drive { role: PinRole::I2cEnable, high: true });
    steps.push(BootStep::Settle { ms: SETTLE_MS });
    steps.push(BootStep::Drive { role: PinRole::DisplayChipSelect, high: true });
    steps.push(BootStep::Drive { role: PinRole::DisplayDataCommand, high: false });
    steps.push(BootStep::Drive { role: PinRole::DisplayReset, high: false });
    steps.push(BootStep::Drive { role: PinRole::Sda, high: true });
    steps.push(BootStep::Drive { role: PinRole::Scl, high: true });
    steps.push(BootStep::Drive { role: PinRole::FlashChipSelect, high: true });
    steps.push(BootStep::Drive { role: PinRole::EpaperMiso, high: true });
    steps.push(BootStep::Drive { role: PinRole::EpaperMosi, high: true });
    steps.push(BootStep::Drive { role: PinRole::EpaperSck, high: false });
    steps.push(BootStep::Drive { role: PinRole::PsramChipSelect, high: true });
    steps.push(BootStep::Drive { role: PinRole::PsramMiso, high: true });
    steps.push(BootStep::Drive { role: PinRole::PsramMosi, high: false });
    steps.push(BootStep::Drive { role: PinRole::PsramSck, high: false });
    steps.push(BootStep::Drive { role: PinRole::Nfc, high: false });
    proof {
        assert(steps@ =~= spec_boot_sequence());
    }
    steps
}

/// Interpret a step list over the modelled register bank, front to back. A
/// settle step moves no register; the unverified binding blocks for its
/// duration at that point instead.
pub fn run_steps(g: &mut Gpio, steps: &Vec<BootStep>)
    ensures
        *final(g) == apply_steps(*old(g), steps@),
{
    let mut i: usize = 0;
    while i < steps.len()
        invariant
            i <= steps@.len(),
            *g == apply_steps(*old(g), steps@.subrange(0, i as int)),
        decreases steps@.len() - i,
    {
        match steps[i] {
            BootStep::Drive { role, high } => {
                if high {
                    set_pin(g, role);
                } else {
                    clear_pin(g, role);
                }
            },
            BootStep::Settle { .. } => {},
        }
        proof {
            let done = steps@.subrange(0, i as int + 1);
            assert(done.drop_last() =~= steps@.subrange(0, i as int));
            assert(done.last() == steps@[i as int]);
            lemma_apply_steps_last(*old(g), done);
        }
        i = i + 1;
    }
    proof {
        assert(steps@.subrange(0, steps@.len() as int) =~= steps@);
    }
}

/// GPIO initialization: mode configuration for every port, then the power-up
/// sequence, over the modelled register bank. Must come before anything else
/// drives these ports, and is meant to run once.
pub fn init_gpio(g: &mut Gpio)
    ensures
        *final(g) == apply_steps(spec_map_gpio(*old(g)), spec_boot_sequence()),
{
    map_gpio(g);
    let steps = boot_sequence();
    run_steps(g, &steps);
}

/// The sequence settles exactly once: a single settle step sits at index 2,
/// it requests no less than the datasheet minimum, the power and I2C-enable
/// asserts are the only steps before it, and every remaining drive comes
/// after it.
pub proof fn lemma_settle_placement()
    ensures
        spec_boot_sequence().len() == 17,
        spec_boot_sequence()[2] == (BootStep::Settle { ms: SETTLE_MS }),
        SETTLE_MS >= MIN_SETTLE_MS,
        forall|i: int| 0 <= i < 17 && i != 2 ==> spec_boot_sequence()[i] is Drive,
        spec_boot_sequence()[0] == (BootStep::Drive { role: PinRole::Power, high: true }),
        spec_boot_sequence()[1] == (BootStep::Drive { role: PinRole::I2cEnable, high: true }),
{
}

/// From the hardware reset state, initialization leaves each port's output
/// register at the literal idle pattern the sequence implies: on port A the
/// power enable, I2C enable, SDA and SCL bits high; on port C the flash
/// chip select, both MISO lines, the epaper MOSI and the PSRAM chip select
/// high; on port D the display chip select high; every other output low.
pub proof fn lemma_idle_state_from_reset()
    ensures
        ({
            let g = apply_steps(spec_map_gpio(reset_gpio()), spec_boot_sequence());
            &&& g.porta_dout == 0x238u32
            &&& g.portb_dout == 0u32
            &&& g.portc_dout == 0x37u32
            &&& g.portd_dout == 0x4u32
            &&& g.porta_model == 0x04A4_A000u32
            &&& g.porta_modeh == 0x43u32
            &&& g.portb_model == 0x0001_0010u32
            &&& g.portc_model == 0x4424_4424u32
            &&& g.portd_model == 0x4200u32
        }),
{
    lemma_mode_words_literal();
    assert(0u32 | (1u32 << 9) == 0x200u32 && 0x200u32 | (1u32 << 4) == 0x210u32 && 0x210u32 & !(
    1u32 << 6) == 0x210u32 && 0x210u32 | (1u32 << 5) == 0x230u32 && 0x230u32 | (1u32 << 3)
        == 0x238u32 && 0x238u32 & !(1u32 << 8) == 0x238u32) by (bit_vector);
    assert(0u32 | (1u32 << 2) == 0x4u32 && 0x4u32 & !(1u32 << 3) == 0x4u32) by (bit_vector);
    assert(0u32 | (1u32 << 0) == 0x1u32 && 0x1u32 | (1u32 << 1) == 0x3u32 && 0x3u32 | (1u32 << 2)
        == 0x7u32 && 0x7u32 & !(1u32 << 3) == 0x7u32 && 0x7u32 | (1u32 << 4) == 0x17u32 && 0x17u32
        | (1u32 << 5) == 0x37u32 && 0x37u32 & !(1u32 << 6) == 0x37u32 && 0x37u32 & !(1u32 << 7)
        == 0x37u32) by (bit_vector);
    reveal_with_fuel(apply_steps, 18);
}

} // verus!
