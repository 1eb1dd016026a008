//! The flags word of the serial structure and its low-latency bit.

use vstd::prelude::*;

verus! {

/// Position of the low-latency bit in the flags word (`ASYNCB_LOW_LATENCY`).
pub const ASYNCB_LOW_LATENCY: u32 = 13;

/// The low-latency bit itself (`ASYNC_LOW_LATENCY`, `1 << 13`).
pub const ASYNC_LOW_LATENCY: i32 = 0x2000;

/// What to do with the low-latency bit.
#[derive(Clone, Copy, Debug, PartialEq, Eq)]
pub enum UpdateAction {
    /// Set the bit.
    Enable,
    /// Clear the bit.
    Disable,
}

/// Bit `index` of a flags word, for `index` below 32.
pub open spec fn flag_bit(flags: i32, index: u32) -> bool {
    (flags >> index) & 1 == 1
}

/// Whether a flags word asks for low latency.
pub open spec fn is_low_latency(flags: i32) -> bool {
    flags & ASYNC_LOW_LATENCY != 0
}

/// The flags word after `action`: the low-latency bit set or cleared.
pub open spec fn updated_flags(flags: i32, action: UpdateAction) -> i32 {
    match action {
        UpdateAction::Enable => flags | ASYNC_LOW_LATENCY,
        UpdateAction::Disable => flags & !ASYNC_LOW_LATENCY,
    }
}

/// Sets or clears the low-latency bit of `flags` and leaves every other bit as
/// it is.
pub fn update_flags(flags: i32, action: UpdateAction) -> (updated: i32)
    ensures
        updated == updated_flags(flags, action),
        is_low_latency(updated) == (action is Enable),
        forall|index: u32|
            index < 32 && index != ASYNCB_LOW_LATENCY ==> #[trigger] flag_bit(updated, index)
                == flag_bit(flags, index),
{
    proof {
        lemma_bit_isolation(flags, action);
    }
    match action {
        UpdateAction::Enable => flags | ASYNC_LOW_LATENCY,
        UpdateAction::Disable => flags & !ASYNC_LOW_LATENCY,
    }
}

/// An update decides the low-latency bit and changes no other bit.
pub proof fn lemma_bit_isolation(flags: i32, action: UpdateAction)
    ensures
        is_low_latency(updated_flags(flags, action)) == (action is Enable),
        flag_bit(updated_flags(flags, action), ASYNCB_LOW_LATENCY) == (action is Enable),
        forall|index: u32|
            index < 32 && index != ASYNCB_LOW_LATENCY ==> #[trigger] flag_bit(
                updated_flags(flags, action),
                index,
            ) == flag_bit(flags, index),
{
    assert((flags | 0x2000i32) & 0x2000i32 != 0) by (bit_vector);
    assert((flags & !0x2000i32) & 0x2000i32 == 0) by (bit_vector);
    assert(((flags | 0x2000i32) >> 13u32) & 1 == 1) by (bit_vector);
    assert(((flags & !0x2000i32) >> 13u32) & 1 == 0) by (bit_vector);
    assert forall|index: u32| index < 32 && index != 13 implies ((flags | 0x2000i32) >> index) & 1
        == (flags >> index) & 1 by {
        assert(index < 32 && index != 13 ==> ((flags | 0x2000i32) >> index) & 1 == (flags >> index)
            & 1) by (bit_vector);
    }
    assert forall|index: u32| index < 32 && index != 13 implies ((flags & !0x2000i32) >> index) & 1
        == (flags >> index) & 1 by {
        assert(index < 32 && index != 13 ==> ((flags & !0x2000i32) >> index) & 1 == (flags
            >> index) & 1) by (bit_vector);
    }
}

/// Doing the same update twice gives the flags word that doing it once gives.
pub proof fn lemma_update_idempotent(flags: i32, action: UpdateAction)
    ensures
        updated_flags(updated_flags(flags, action), action) == updated_flags(flags, action),
{
    assert(((flags | 0x2000i32) | 0x2000i32) == (flags | 0x2000i32)) by (bit_vector);
    assert(((flags & !0x2000i32) & !0x2000i32) == (flags & !0x2000i32)) by (bit_vector);
}

/// An update of a flags word that already has the low-latency bit as the
/// update wants it changes nothing.
pub proof fn lemma_update_unchanged(flags: i32, action: UpdateAction)
    requires
        is_low_latency(flags) == (action is Enable),
    ensures
        updated_flags(flags, action) == flags,
{
    assert(flags & 0x2000i32 != 0 ==> (flags | 0x2000i32) == flags) by (bit_vector);
    assert(flags & 0x2000i32 == 0 ==> (flags & !0x2000i32) == flags) by (bit_vector);
}

/// Of two updates in a row only the second counts. So disabling after
/// enabling gives the flags word with the low-latency bit cleared, and
/// gives back the word itself where the bit was clear to begin with.
pub proof fn lemma_last_update_wins(flags: i32, first: UpdateAction, second: UpdateAction)
    ensures
        updated_flags(updated_flags(flags, first), second) == updated_flags(flags, second),
        !is_low_latency(flags) ==> updated_flags(
            updated_flags(flags, UpdateAction::Enable),
            UpdateAction::Disable,
        ) == flags,
{
    assert(((flags | 0x2000i32) | 0x2000i32) == (flags | 0x2000i32)) by (bit_vector);
    assert(((flags & !0x2000i32) & !0x2000i32) == (flags & !0x2000i32)) by (bit_vector);
    assert(((flags | 0x2000i32) & !0x2000i32) == (flags & !0x2000i32)) by (bit_vector);
    assert(((flags & !0x2000i32) | 0x2000i32) == (flags | 0x2000i32)) by (bit_vector);
    assert(flags & 0x2000i32 == 0 ==> ((flags | 0x2000i32) & !0x2000i32) == flags)
        by (bit_vector);
}

} // verus!
