//! Pure bitmask rules of the power/USB state machine: the candidate next
//! power state, the ATX rail transition policy, the enabled-mask update and
//! the per-slot USB mode-bit merge.
//!
//! In every mask, bit *i* stands for slot *i + 1*.

use vstd::prelude::*;

verus! {

/// Candidate live power state after a request `requested` is applied to the
/// live state `live` under the durable enabled mask `enabled`.
///
/// An all-zero request is an explicit full power-off and bypasses the enabled
/// filter; otherwise requested bits are applied only where the slot is
/// enabled and bits outside the request are left untouched.
pub open spec fn next_power_state(live: u8, requested: u8, enabled: u8) -> u8 {
    if requested == 0 {
        0
    } else {
        (live & !requested) | (requested & enabled)
    }
}

/// The ATX rail transition a power-state change requires: the shared rail is
/// toggled only at the all-off/any-on boundary, never per intermediate
/// transition.
pub open spec fn atx_change_needed(current: u8, next: u8) -> Option<bool> {
    if current == 0 && next > 0 {
        Some(true)
    } else if current > 0 && next == 0 {
        Some(false)
    } else {
        None
    }
}

/// Enabled mask after one slot's eligibility bit is cleared and then re-set
/// to the requested on/off value.
pub open spec fn updated_enabled_mask(enabled: u8, mask: u8, on: bool) -> u8 {
    (enabled & !mask) | (if on { mask } else { 0 })
}

/// Shared USB-mode byte after one slot's mode bit is merged in: bit set means
/// host, bit clear means device; other slots' bits are never overwritten.
pub open spec fn merge_usb_mode(prev: u8, mask: u8, host: bool) -> u8 {
    if host {
        prev | mask
    } else {
        prev & !mask
    }
}

} // verus!
