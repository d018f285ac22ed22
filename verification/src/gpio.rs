//! GPIO block of the BCM2836: function select, set and clear registers.

use vstd::prelude::*;
use crate::command::{Command, store};

verus! {

/// Function select register for pins 0 to 9; one register per ten pins.
pub const GPFSEL0: usize = 0x3F20_0000;
/// Function select register for pins 20 to 29.
pub const GPFSEL2: usize = 0x3F20_0008;
/// Function select register for pins 30 to 39.
pub const GPFSEL3: usize = 0x3F20_000C;
/// Function select register for pins 40 to 49.
pub const GPFSEL4: usize = 0x3F20_0010;
/// Output set register for pins 0 to 31.
pub const GPSET0: usize = 0x3F20_001C;
/// Output set register for pins 32 to 53.
pub const GPSET1: usize = 0x3F20_0020;
/// Output clear register for pins 0 to 31.
pub const GPCLR0: usize = 0x3F20_0028;
/// Output clear register for pins 32 to 53.
pub const GPCLR1: usize = 0x3F20_002C;

/// Bit of pin 20 in GPSET0 / GPCLR0.
pub const GPIO20: u32 = 0x0010_0000;
/// Bit of pin 21 in GPSET0 / GPCLR0.
pub const GPIO21: u32 = 0x0020_0000;
/// Bit of pin 22 in GPSET0 / GPCLR0.
pub const GPIO22: u32 = 0x0040_0000;
/// Bit of pin 35 in GPSET1 / GPCLR1.
pub const GPIO35: u32 = 0x0000_0008;
/// Bit of pin 47 in GPSET1 / GPCLR1.
pub const GPIO47: u32 = 0x0000_8000;

/// Function select code of an output pin.
pub const FUNCTION_OUTPUT: u32 = 1;

/// The three-bit function code held in `slot` (0 to 9) of a function select value.
pub open spec fn slot_function(fsel_val: u32, slot: u32) -> u32 {
    (fsel_val >> ((3 * slot) as u32)) & 7
}

/// The function select register that holds `pin`.
pub open spec fn fsel_register(pin: u32) -> usize {
    (GPFSEL0 + 4 * (pin / 10)) as usize
}

/// The slot of `pin` in its function select register.
pub open spec fn fsel_slot(pin: u32) -> u32 {
    pin % 10
}

/// The set register that drives `pin` high.
pub open spec fn set_register(pin: u32) -> usize {
    (GPSET0 + 4 * (pin / 32)) as usize
}

/// The clear register that drives `pin` low.
pub open spec fn clear_register(pin: u32) -> usize {
    (GPCLR0 + 4 * (pin / 32)) as usize
}

/// The bit of `pin` in its set and clear registers.
pub open spec fn pin_mask(pin: u32) -> u32 {
    1u32 << (pin % 32)
}

/// `fsel_val` with `slot` (0 to 9) set to the output function.
pub open spec fn with_output(fsel_val: u32, slot: u32) -> u32 {
    (fsel_val & !(7u32 << ((3 * slot) as u32))) | (1u32 << ((3 * slot) as u32))
}

/// The register store that a pin command stands for under the BCM2836 GPIO
/// layout: the pin's set or clear register and the pin's bit in it. Other
/// commands are left as they are. This is the intended meaning of a pin
/// command; what the pin driver library that performs it does is not
/// checked here.
pub open spec fn pin_store(c: Command) -> Command {
    match c {
        Command::SetPin { pin } => store(set_register(pin), pin_mask(pin)),
        Command::ClearPin { pin } => store(clear_register(pin), pin_mask(pin)),
        _ => c,
    }
}

/// Sets `slot` (0 to 9) of a function select value to the output function and
/// keeps every other slot.
pub fn select_output(fsel_val: u32, slot: u32) -> (r: u32)
    requires
        slot < 10,
    ensures
        r == with_output(fsel_val, slot),
        slot_function(r, slot) == FUNCTION_OUTPUT,
        forall|other: u32|
            other < 10 && other != slot ==> #[trigger] slot_function(r, other)
                == slot_function(fsel_val, other),
        r >> 30u32 == fsel_val >> 30u32,
{
    let shift: u32 = 3 * slot;
    let r = (fsel_val & !(7u32 << shift)) | (1u32 << shift);
    assert(slot_function(r, slot) == FUNCTION_OUTPUT) by (bit_vector)
        requires
            r == (fsel_val & !(7u32 << shift)) | (1u32 << shift),
            shift == 3 * slot,
            slot < 10,
    ;
    assert forall|other: u32| other < 10 && other != slot implies #[trigger] slot_function(r, other)
        == slot_function(fsel_val, other) by {
        assert(((r >> ((3 * other) as u32)) & 7) == ((fsel_val >> ((3 * other) as u32)) & 7)) by (bit_vector)
            requires
                r == (fsel_val & !(7u32 << shift)) | (1u32 << shift),
                shift == 3 * slot,
                slot < 10,
                other < 10,
                other != slot,
        ;
    }
    assert(r >> 30u32 == fsel_val >> 30u32) by (bit_vector)
        requires
            r == (fsel_val & !(7u32 << shift)) | (1u32 << shift),
            shift == 3 * slot,
            slot < 10,
    ;
    r
}

/// A GPFSEL2 value with pins 20, 21 and 22 made outputs.
pub open spec fn fsel2_outputs_20_to_22(gpfsel2_val: u32) -> u32 {
    (gpfsel2_val & !0x1FFu32) | 0x49u32
}

/// A GPFSEL2 value with pins 20 and 21 made outputs.
pub open spec fn fsel2_outputs_20_21(gpfsel2_val: u32) -> u32 {
    (gpfsel2_val & !0b111111u32) | 0b1001u32
}

/// `after` is the function select value `before` with its first `n` slots set
/// to the output function and every other slot, and the two top bits, kept.
pub open spec fn first_slots_made_outputs(before: u32, after: u32, n: u32) -> bool {
    &&& forall|slot: u32| slot < n ==> #[trigger] slot_function(after, slot) == FUNCTION_OUTPUT
    &&& forall|slot: u32|
        n <= slot < 10 ==> #[trigger] slot_function(after, slot) == slot_function(before, slot)
    &&& after >> 30u32 == before >> 30u32
}

/// Makes pins 20, 21 and 22 outputs in a GPFSEL2 value; the other pins of
/// the register keep their function.
pub fn outputs_20_to_22(gpfsel2_val: u32) -> (r: u32)
    ensures
        r == fsel2_outputs_20_to_22(gpfsel2_val),
        r == with_output(with_output(with_output(gpfsel2_val, 0), 1), 2),
        forall|slot: u32| slot < 3 ==> #[trigger] slot_function(r, slot) == FUNCTION_OUTPUT,
        forall|slot: u32|
            3 <= slot < 10 ==> #[trigger] slot_function(r, slot) == slot_function(gpfsel2_val, slot),
        r >> 30u32 == gpfsel2_val >> 30u32,
{
    proof {
        lemma_outputs_20_to_22(gpfsel2_val);
    }
    (gpfsel2_val & !0x1FFu32) | 0x49u32
}

/// Setting pins 20, 21 and 22 to outputs one after the other in a GPFSEL2
/// value leaves slots 0 to 2 holding the output function and every other
/// slot, and the two top bits, as they were; it is the single mask-and-set
/// of `fsel2_outputs_20_to_22`.
pub proof fn lemma_outputs_20_to_22(gpfsel2_val: u32)
    ensures
        fsel2_outputs_20_to_22(gpfsel2_val) == with_output(with_output(with_output(gpfsel2_val, 0), 1), 2),
        forall|slot: u32| slot < 3 ==> #[trigger] slot_function(with_output(with_output(with_output(gpfsel2_val, 0), 1), 2), slot) == FUNCTION_OUTPUT,
        forall|slot: u32|
            3 <= slot < 10 ==> #[trigger] slot_function(with_output(with_output(with_output(gpfsel2_val, 0), 1), 2), slot) == slot_function(gpfsel2_val, slot),
        with_output(with_output(with_output(gpfsel2_val, 0), 1), 2) >> 30u32 == gpfsel2_val >> 30u32,
{
    let r = (gpfsel2_val & !0x1FFu32) | 0x49u32;
    assert(r == with_output(with_output(with_output(gpfsel2_val, 0), 1), 2)) by (bit_vector)
        requires
            r == (gpfsel2_val & !0x1FFu32) | 0x49u32,
    ;
    assert forall|slot: u32| slot < 3 implies #[trigger] slot_function(r, slot) == FUNCTION_OUTPUT by {
        assert(((r >> ((3 * slot) as u32)) & 7) == 1) by (bit_vector)
            requires
                r == (gpfsel2_val & !0x1FFu32) | 0x49u32,
                slot < 3,
        ;
    }
    assert forall|slot: u32| 3 <= slot < 10 implies #[trigger] slot_function(r, slot)
        == slot_function(gpfsel2_val, slot) by {
        assert(((r >> ((3 * slot) as u32)) & 7) == ((gpfsel2_val >> ((3 * slot) as u32)) & 7))
            by (bit_vector)
            requires
                r == (gpfsel2_val & !0x1FFu32) | 0x49u32,
                3 <= slot < 10,
        ;
    }
    assert(r >> 30u32 == gpfsel2_val >> 30u32) by (bit_vector)
        requires
            r == (gpfsel2_val & !0x1FFu32) | 0x49u32,
    ;
}

/// Makes pins 20 and 21 outputs in a GPFSEL2 value; the other pins of the
/// register keep their function.
pub fn outputs_20_21(gpfsel2_val: u32) -> (r: u32)
    ensures
        r == fsel2_outputs_20_21(gpfsel2_val),
        r == with_output(with_output(gpfsel2_val, 0), 1),
        forall|slot: u32| slot < 2 ==> #[trigger] slot_function(r, slot) == FUNCTION_OUTPUT,
        forall|slot: u32|
            2 <= slot < 10 ==> #[trigger] slot_function(r, slot) == slot_function(gpfsel2_val, slot),
        r >> 30u32 == gpfsel2_val >> 30u32,
{
    proof {
        lemma_outputs_20_21(gpfsel2_val);
    }
    (gpfsel2_val & !0b111111u32) | 0b1001u32
}

/// Setting pins 20 and 21 to outputs one after the other in a GPFSEL2 value
/// leaves slots 0 and 1 holding the output function and every other slot,
/// and the two top bits, as they were; it is the single mask-and-set of
/// `fsel2_outputs_20_21`.
pub proof fn lemma_outputs_20_21(gpfsel2_val: u32)
    ensures
        fsel2_outputs_20_21(gpfsel2_val) == with_output(with_output(gpfsel2_val, 0), 1),
        forall|slot: u32| slot < 2 ==> #[trigger] slot_function(with_output(with_output(gpfsel2_val, 0), 1), slot) == FUNCTION_OUTPUT,
        forall|slot: u32|
            2 <= slot < 10 ==> #[trigger] slot_function(with_output(with_output(gpfsel2_val, 0), 1), slot) == slot_function(gpfsel2_val, slot),
        with_output(with_output(gpfsel2_val, 0), 1) >> 30u32 == gpfsel2_val >> 30u32,
{
    let r = (gpfsel2_val & !0b111111u32) | 0b1001u32;
    assert(r == with_output(with_output(gpfsel2_val, 0), 1)) by (bit_vector)
        requires
            r == (gpfsel2_val & !0b111111u32) | 0b1001u32,
    ;
    assert forall|slot: u32| slot < 2 implies #[trigger] slot_function(r, slot) == FUNCTION_OUTPUT by {
        assert(((r >> ((3 * slot) as u32)) & 7) == 1) by (bit_vector)
            requires
                r == (gpfsel2_val & !0b111111u32) | 0b1001u32,
                slot < 2,
        ;
    }
    assert forall|slot: u32| 2 <= slot < 10 implies #[trigger] slot_function(r, slot)
        == slot_function(gpfsel2_val, slot) by {
        assert(((r >> ((3 * slot) as u32)) & 7) == ((gpfsel2_val >> ((3 * slot) as u32)) & 7))
            by (bit_vector)
            requires
                r == (gpfsel2_val & !0b111111u32) | 0b1001u32,
                2 <= slot < 10,
        ;
    }
    assert(r >> 30u32 == gpfsel2_val >> 30u32) by (bit_vector)
        requires
            r == (gpfsel2_val & !0b111111u32) | 0b1001u32,
    ;
}

/// GPSET0 to drive a low-bank pin high, GPCLR0 to drive it low.
pub open spec fn set_clear_for(set: bool) -> usize {
    if set {
        GPSET0
    } else {
        GPCLR0
    }
}

/// The register that drives a pin of the low bank high (`set`) or low.
pub fn set_clear_register(set: bool) -> (r: usize)
    ensures
        r == set_clear_for(set),
{
    if set {
        GPSET0
    } else {
        GPCLR0
    }
}

/// The pin constants name the set and clear registers and bits that the
/// generic pin layout assigns to pins 20, 21, 22, 35 and 47, and GPFSEL2 to
/// GPFSEL4 hold pins 20 to 49.
pub proof fn lemma_pin_layout()
    ensures
        set_register(20) == GPSET0 && clear_register(20) == GPCLR0 && pin_mask(20) == GPIO20,
        set_register(21) == GPSET0 && clear_register(21) == GPCLR0 && pin_mask(21) == GPIO21,
        set_register(22) == GPSET0 && clear_register(22) == GPCLR0 && pin_mask(22) == GPIO22,
        set_register(35) == GPSET1 && clear_register(35) == GPCLR1 && pin_mask(35) == GPIO35,
        set_register(47) == GPSET1 && clear_register(47) == GPCLR1 && pin_mask(47) == GPIO47,
        fsel_register(20) == GPFSEL2 && fsel_slot(20) == 0,
        fsel_register(21) == GPFSEL2 && fsel_slot(21) == 1,
        fsel_register(22) == GPFSEL2 && fsel_slot(22) == 2,
        fsel_register(35) == GPFSEL3 && fsel_slot(35) == 5,
        fsel_register(47) == GPFSEL4 && fsel_slot(47) == 7,
{
    assert(1u32 << 20u32 == 0x0010_0000u32) by (bit_vector);
    assert(1u32 << 21u32 == 0x0020_0000u32) by (bit_vector);
    assert(1u32 << 22u32 == 0x0040_0000u32) by (bit_vector);
    assert(1u32 << 3u32 == 0x0000_0008u32) by (bit_vector);
    assert(1u32 << 15u32 == 0x0000_8000u32) by (bit_vector);
}

} // verus!
