//! Line control: set or clear exactly one bit of exactly one port's
//! data-output word, disturbing nothing else.
//!
//! Each operation is a read of the port's output word followed by a write of
//! the updated word, so it assumes the exclusive, single-context access the
//! register model stands for. Clearing masks the bit out with the complement
//! (`v & !(1 << bit)`) rather than toggling it, so that clearing a line that
//! is already low leaves it low: clear is idempotent whatever the prior
//! state, see [`lemma_clear_pin_idempotent`].

use vstd::prelude::*;

use crate::registers::{Gpio, spec_dout, with_dout, read_dout, write_dout};
use crate::registry::{PinRole, Port, pin_bit, pin_port, bit_of, port_of};

verus! {

/// Whether bit `i` of the word is high.
pub open spec fn bit_high(v: u32, i: u32) -> bool {
    v & (1u32 << i) != 0
}

/// The word with bit `i` driven high and every other bit kept.
pub open spec fn set_bit(v: u32, i: u32) -> u32 {
    v | (1u32 << i)
}

/// The word with bit `i` driven low and every other bit kept.
pub open spec fn clear_bit(v: u32, i: u32) -> u32 {
    v & !(1u32 << i)
}

/// Setting a bit raises exactly that bit: it reads high afterwards and every
/// other bit keeps its level.
pub proof fn lemma_set_bit(v: u32, i: u32)
    by (bit_vector)
    requires
        i < 32,
    ensures
        bit_high(set_bit(v, i), i),
        forall|j: u32| j < 32 && j != i ==> bit_high(set_bit(v, i), j) == bit_high(v, j),
{
}

/// Clearing a bit lowers exactly that bit: it reads low afterwards and every
/// other bit keeps its level.
pub proof fn lemma_clear_bit(v: u32, i: u32)
    by (bit_vector)
    requires
        i < 32,
    ensures
        !bit_high(clear_bit(v, i), i),
        forall|j: u32| j < 32 && j != i ==> bit_high(clear_bit(v, i), j) == bit_high(v, j),
{
}

/// One word with one bit driven high.
pub fn set_in_word(v: u32, i: u32) -> (r: u32)
    requires
        i < 32,
    ensures
        r == set_bit(v, i),
{
    v | (1u32 << i)
}

/// One word with one bit driven low.
pub fn clear_in_word(v: u32, i: u32) -> (r: u32)
    requires
        i < 32,
    ensures
        r == clear_bit(v, i),
{
    v & !(1u32 << i)
}

/// Drive one output bit of one port high: read the port's output word, raise
/// the bit, write the word back. Every other bit of that port and every
/// other register keep their value.
pub fn set_line(g: &mut Gpio, p: Port, bit: u32)
    requires
        bit < 32,
    ensures
        *final(g) == with_dout(*old(g), p, set_bit(spec_dout(*old(g), p), bit)),
        bit_high(spec_dout(*final(g), p), bit),
        forall|j: u32|
            j < 32 && j != bit ==> bit_high(spec_dout(*final(g), p), j) == bit_high(
                spec_dout(*old(g), p),
                j,
            ),
{
    let v = read_dout(g, p);
    write_dout(g, p, set_in_word(v, bit));
    proof {
        lemma_set_bit(v, bit);
    }
}

/// Drive one output bit of one port low: read the port's output word, mask
/// the bit out, write the word back. Every other bit of that port and every
/// other register keep their value.
pub fn clear_line(g: &mut Gpio, p: Port, bit: u32)
    requires
        bit < 32,
    ensures
        *final(g) == with_dout(*old(g), p, clear_bit(spec_dout(*old(g), p), bit)),
        !bit_high(spec_dout(*final(g), p), bit),
        forall|j: u32|
            j < 32 && j != bit ==> bit_high(spec_dout(*final(g), p), j) == bit_high(
                spec_dout(*old(g), p),
                j,
            ),
{
    let v = read_dout(g, p);
    write_dout(g, p, clear_in_word(v, bit));
    proof {
        lemma_clear_bit(v, bit);
    }
}

/// The bank after asserting a role's line.
pub open spec fn spec_set_pin(g: Gpio, r: PinRole) -> Gpio {
    with_dout(g, pin_port(r), set_bit(spec_dout(g, pin_port(r)), pin_bit(r)))
}

/// The bank after deasserting a role's line.
pub open spec fn spec_clear_pin(g: Gpio, r: PinRole) -> Gpio {
    with_dout(g, pin_port(r), clear_bit(spec_dout(g, pin_port(r)), pin_bit(r)))
}

/// Assert the named line: its output bit reads high afterwards and nothing
/// else moves.
pub fn set_pin(g: &mut Gpio, r: PinRole)
    ensures
        *final(g) == spec_set_pin(*old(g), r),
        bit_high(spec_dout(*final(g), pin_port(r)), pin_bit(r)),
{
    let p = port_of(r);
    let b = bit_of(r);
    set_line(g, p, b);
}

/// Deassert the named line: its output bit reads low afterwards and nothing
/// else moves.
pub fn clear_pin(g: &mut Gpio, r: PinRole)
    ensures
        *final(g) == spec_clear_pin(*old(g), r),
        !bit_high(spec_dout(*final(g), pin_port(r)), pin_bit(r)),
{
    let p = port_of(r);
    let b = bit_of(r);
    clear_line(g, p, b);
}

/// Deasserting a line twice comes to the same as deasserting it once: clear
/// leaves the bit low whatever it held before, so a second clear changes
/// nothing.
pub proof fn lemma_clear_pin_idempotent(g: Gpio, r: PinRole)
    ensures
        spec_clear_pin(spec_clear_pin(g, r), r) == spec_clear_pin(g, r),
{
    let v = spec_dout(g, pin_port(r));
    let i = pin_bit(r);
    assert(clear_bit(clear_bit(v, i), i) == clear_bit(v, i)) by (bit_vector);
}

/// Assert, deassert, assert on one line restores exactly the state the first
/// assert produced: the bit ends high and every other bit of the port's
/// output word holds the value it had after the first assert.
pub proof fn lemma_set_clear_set_restores(g: Gpio, r: PinRole)
    ensures
        spec_set_pin(spec_clear_pin(spec_set_pin(g, r), r), r) == spec_set_pin(g, r),
{
    let v = spec_dout(g, pin_port(r));
    let i = pin_bit(r);
    assert(set_bit(clear_bit(set_bit(v, i), i), i) == set_bit(v, i)) by (bit_vector);
}

} // verus!
