//! The packed processor-status byte.
//!
//! Bit 0 is carry, bit 1 zero, bit 2 interrupt-disable, bit 3 decimal mode,
//! bit 4 break, bit 5 is unused, bit 6 overflow and bit 7 negative.

use vstd::prelude::*;

verus! {

/// Bit 0: the carry out of the last addition, shift or comparison.
pub const CARRY: u8 = 0b0000_0001;

/// Bit 1: the last result was 0.
pub const ZERO: u8 = 0b0000_0010;

/// Bit 2: interrupts are disabled.
pub const INTERRUPT_DISABLE: u8 = 0b0000_0100;

/// Bit 3: decimal mode is selected.
pub const DECIMAL_MODE: u8 = 0b0000_1000;

/// Bit 4: break; set only in a status byte on the stack.
pub const BREAK: u8 = 0b0001_0000;

/// Bit 5: unused; reads 1 in a status byte that went through the stack.
pub const UNUSED: u8 = 0b0010_0000;

/// Bit 6: the last signed result did not fit a byte.
pub const OVERFLOW: u8 = 0b0100_0000;

/// Bit 7: bit 7 of the last result.
pub const NEGATIVE: u8 = 0b1000_0000;

/// Whether `mask` selects exactly one bit of the status byte.
pub open spec fn is_flag_mask(mask: u8) -> bool {
    mask == 0x01 || mask == 0x02 || mask == 0x04 || mask == 0x08 || mask == 0x10 || mask == 0x20
        || mask == 0x40 || mask == 0x80
}

/// Whether the flag selected by `mask` is set in `status`.
pub open spec fn flag(status: u8, mask: u8) -> bool {
    status & mask != 0
}

/// `status` with the flag selected by `mask` set to `value` and every other
/// bit as it was.
pub open spec fn with_flag(status: u8, mask: u8, value: bool) -> u8 {
    if value {
        status | mask
    } else {
        status & !mask
    }
}

/// The status byte as it is pushed on the stack: break and the unused bit are
/// forced to 1.
pub open spec fn pushed_status(status: u8) -> u8 {
    status | BREAK | UNUSED
}

/// The status byte as it is taken from the stack: break is cleared and the
/// unused bit is forced to 1.
pub open spec fn pulled_status(value: u8) -> u8 {
    (value & !BREAK) | UNUSED
}

/// In the status byte 0, as after power-on and after a reset, no flag is
/// set.
pub proof fn lemma_no_flag_in_zero(mask: u8)
    by (bit_vector)
    ensures
        !flag(0, mask),
{
}

/// Writing a flag makes it read back as written and leaves every other flag
/// as it was.
pub proof fn lemma_flag_after_with_flag(status: u8, mask: u8, value: bool, other: u8)
    by (bit_vector)
    requires
        is_flag_mask(mask),
        is_flag_mask(other),
    ensures
        flag(with_flag(status, mask, value), other) == (if other == mask {
            value
        } else {
            flag(status, other)
        }),
{
}

/// The same of all flags at once.
pub proof fn lemma_flags_after_with_flag(status: u8, mask: u8, value: bool)
    requires
        is_flag_mask(mask),
    ensures
        forall|other: u8|
            is_flag_mask(other) ==> #[trigger] flag(with_flag(status, mask, value), other) == (
            if other == mask {
                value
            } else {
                flag(status, other)
            }),
{
    assert forall|other: u8| is_flag_mask(other) implies #[trigger] flag(
        with_flag(status, mask, value),
        other,
    ) == (if other == mask {
        value
    } else {
        flag(status, other)
    }) by {
        lemma_flag_after_with_flag(status, mask, value, other);
    }
}

/// Writing a flag changes no bit of the status byte but its own, and writing
/// the value it already has changes nothing.
pub proof fn lemma_with_flag_bits(status: u8, mask: u8, value: bool)
    by (bit_vector)
    requires
        is_flag_mask(mask),
    ensures
        with_flag(status, mask, value) & !mask == status & !mask,
        flag(status, mask) == value ==> with_flag(status, mask, value) == status,
{
}

/// Flags at two different positions can be written in either order.
pub proof fn lemma_with_flag_commutes(status: u8, m1: u8, v1: bool, m2: u8, v2: bool)
    by (bit_vector)
    requires
        is_flag_mask(m1),
        is_flag_mask(m2),
        m1 != m2,
    ensures
        with_flag(with_flag(status, m1, v1), m2, v2) == with_flag(
            with_flag(status, m2, v2),
            m1,
            v1,
        ),
{
}

/// Testing a flag by shifting it down to bit 0 agrees with testing it by its
/// mask.
pub proof fn lemma_flag_by_shift(status: u8)
    by (bit_vector)
    ensures
        (status & 1 == 1) == flag(status, CARRY),
        ((status >> 1) & 1 == 1) == flag(status, ZERO),
        ((status >> 2) & 1 == 1) == flag(status, INTERRUPT_DISABLE),
        ((status >> 3) & 1 == 1) == flag(status, DECIMAL_MODE),
        ((status >> 4) & 1 == 1) == flag(status, BREAK),
        ((status >> 5) & 1 == 1) == flag(status, UNUSED),
        ((status >> 6) & 1 == 1) == flag(status, OVERFLOW),
        ((status >> 7) & 1 == 1) == flag(status, NEGATIVE),
{
}

/// What a push followed by a pull does to the status byte: break reads 0, the
/// unused bit reads 1, and the six other flags are as they were.
pub proof fn lemma_pulled_pushed_status(status: u8)
    by (bit_vector)
    ensures
        pulled_status(pushed_status(status)) == pulled_status(status),
        !flag(pulled_status(status), BREAK),
        flag(pulled_status(status), UNUSED),
        flag(pulled_status(status), CARRY) == flag(status, CARRY),
        flag(pulled_status(status), ZERO) == flag(status, ZERO),
        flag(pulled_status(status), INTERRUPT_DISABLE) == flag(status, INTERRUPT_DISABLE),
        flag(pulled_status(status), DECIMAL_MODE) == flag(status, DECIMAL_MODE),
        flag(pulled_status(status), OVERFLOW) == flag(status, OVERFLOW),
        flag(pulled_status(status), NEGATIVE) == flag(status, NEGATIVE),
        flag(pushed_status(status), BREAK),
        flag(pushed_status(status), UNUSED),
{
}

} // verus!
