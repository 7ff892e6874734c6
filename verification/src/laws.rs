//! Laws of the power/USB state machine, proved once over all masks. Each is
//! stated on the pure mask rules that the orchestrator's contracts commit to,
//! so it carries over to every successful call.

use vstd::prelude::*;

use crate::masks::merge_usb_mode;
use crate::masks::next_power_state;
use crate::masks::updated_enabled_mask;

verus! {

/// After a power transition for a non-empty requested mask, live-state bits
/// outside the request keep their previous value, and bits inside the request
/// are powered exactly where the slot is enabled.
///
/// The all-zero request is excluded: it is an explicit full power-off that
/// clears bits outside the (empty) request.
pub proof fn lemma_power_mask_semantics(live: u8, requested: u8, enabled: u8)
    by (bit_vector)
    requires
        requested != 0,
    ensures
        next_power_state(live, requested, enabled) & !requested == live & !requested,
        next_power_state(live, requested, enabled) & requested == requested & enabled,
{
}

/// Requesting the same mask twice changes nothing the second time: the
/// candidate state computed from an already-applied request equals the live
/// state, so the second call takes the no-op path and performs no hardware
/// operation (see the `next == live` case of `power_node_post`).
pub proof fn lemma_power_node_idempotent(live: u8, requested: u8, enabled: u8)
    by (bit_vector)
    ensures
        next_power_state(next_power_state(live, requested, enabled), requested, enabled)
            == next_power_state(live, requested, enabled),
{
}

/// A slot can never be observed powered while disabled: the live-state
/// invariant `live & !enabled == 0` is preserved by every power transition
/// under an unchanged enabled mask.
pub proof fn lemma_power_state_stays_enabled(live: u8, requested: u8, enabled: u8)
    by (bit_vector)
    requires
        live & !enabled == 0,
    ensures
        next_power_state(live, requested, enabled) & !enabled == 0,
{
}

/// Deactivating a slot powers it down in the same call: after the enabled
/// mask drops the slot's bits and the slot's live power is re-synchronized,
/// both the updated enabled mask and the resulting live state have those bits
/// clear, while other slots' live bits are untouched.
pub proof fn lemma_deactivate_slot_powers_down(live: u8, enabled: u8, mask: u8)
    by (bit_vector)
    requires
        mask != 0,
    ensures
        updated_enabled_mask(enabled, mask, false) & mask == 0,
        next_power_state(live, mask, updated_enabled_mask(enabled, mask, false)) & mask == 0,
        next_power_state(live, mask, updated_enabled_mask(enabled, mask, false)) & !mask == live
            & !mask,
{
}

/// Merging one slot's USB mode bit never disturbs another slot's bits: after
/// slot A's bit is merged and then slot B's bit is merged (for disjoint
/// slots), slot A's part of the shared byte is what the first merge made it.
pub proof fn lemma_usb_mode_merge_independent(
    prev: u8,
    mask_a: u8,
    mask_b: u8,
    host_a: bool,
    host_b: bool,
)
    by (bit_vector)
    requires
        mask_a & mask_b == 0,
    ensures
        merge_usb_mode(merge_usb_mode(prev, mask_a, host_a), mask_b, host_b) & mask_a
            == merge_usb_mode(prev, mask_a, host_a) & mask_a,
{
}

} // verus!
