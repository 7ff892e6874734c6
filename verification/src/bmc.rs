//! The power/USB orchestrator: owns the live power-state mask, applies power
//! and USB-mode transitions with the correct ordering and ATX rail policy,
//! and persists the committed configuration.
//!
//! Every contract below pins the outcome for every input: when an operation
//! succeeds, exactly which pin operations were performed and what the live
//! and durable state became; when it fails, which error comes back and what
//! was left untouched.

use vstd::prelude::*;

use crate::masks::atx_change_needed;
use crate::masks::merge_usb_mode;
use crate::masks::next_power_state;
use crate::masks::updated_enabled_mask;
use crate::pins::PinController;
use crate::pins::PinOp;
use crate::store::ConfigStore;
use crate::types::BmcError;
use crate::types::NodeId;
use crate::types::UsbMode;
use crate::types::UsbRoute;

verus! {

/// Default enabled mask on first run: no slot enabled.
pub const DEFAULT_NODE_ENABLED: u8 = 0;

/// Default USB-mode byte: every slot in host mode.
pub const DEFAULT_USB_MODE: u8 = 0x0f;

/// Mask requesting all four slots at once.
pub const ALL_NODES_MASK: u8 = 0x0f;

/// The orchestrator: the pin controller and durable store it drives, and the
/// live power-state mask (which slots are currently powered).
pub struct BmcApplication {
    pub pin_controller: PinController,
    pub app_db: ConfigStore,
    pub power_state: u8,
}

/// The USB node a startup reconciliation selects: the stored one, or slot 1.
pub open spec fn spec_usb_node_or_default(db: ConfigStore) -> NodeId {
    match db.spec_usb_node() {
        Some(n) => n,
        None => NodeId::Node1,
    }
}

/// The USB route a startup reconciliation selects: the stored one, or USB-A.
pub open spec fn spec_usb_route_or_default(db: ConfigStore) -> UsbRoute {
    match db.spec_usb_route() {
        Some(r) => r,
        None => UsbRoute::UsbA,
    }
}

/// The USB-mode byte a mode change starts from: the stored one, or all-host.
pub open spec fn spec_usb_mode_or_default(db: ConfigStore) -> u8 {
    match db.spec_usb_mode() {
        Some(m) => m,
        None => DEFAULT_USB_MODE,
    }
}

/// Pin-operation log after a power transition from `live` to `next`: the ATX
/// rail is toggled first when the all-off/any-on boundary is crossed, then
/// the per-slot power lines transition.
pub open spec fn power_ops_after(ops: Seq<PinOp>, live: u8, next: u8) -> Seq<PinOp> {
    match atx_change_needed(live, next) {
        Some(on) => ops.push(PinOp::SetAtxPower(on)).push(PinOp::SetPowerNode(live, next)),
        None => ops.push(PinOp::SetPowerNode(live, next)),
    }
}

/// Exact behaviour of `power_node`: relates the orchestrator before (`pre`)
/// and after (`post`) a request for mask `requested`, and the result `r`.
///
/// - An unreadable or absent enabled mask fails the call and touches nothing.
/// - When the candidate state equals the live state, the call is a no-op
///   that succeeds without any hardware operation (idempotence).
/// - A pin fault fails the call and leaves the live state unmodified.
/// - Otherwise the ATX rail is toggled if the policy asks for it, the power
///   lines transition, and the new state is committed.
pub open spec fn power_node_post(
    pre: BmcApplication,
    post: BmcApplication,
    requested: u8,
    r: Result<(), BmcError>,
) -> bool {
    match pre.app_db.spec_node_enabled() {
        None => r == Err::<(), BmcError>(BmcError::Persistency) && post == pre,
        Some(enabled) => {
            let live = pre.power_state;
            let next = next_power_state(live, requested, enabled);
            if next == live {
                r.is_ok() && post == pre
            } else if !pre.pin_controller.healthy {
                r == Err::<(), BmcError>(BmcError::PinController) && post == pre
            } else {
                &&& r.is_ok()
                &&& post.app_db == pre.app_db
                &&& post.power_state == next
                &&& post.pin_controller == (PinController {
                    atx_power: match atx_change_needed(live, next) {
                        Some(on) => on,
                        None => pre.pin_controller.atx_power,
                    },
                    power_lines: next,
                    ops: post.pin_controller.ops,
                    ..pre.pin_controller
                })
                &&& post.pin_controller.ops@ == power_ops_after(
                    pre.pin_controller.ops@,
                    live,
                    next,
                )
            }
        },
    }
}

/// Exact behaviour of `activate_slot` for the slot bits `mask`: an empty
/// mask is rejected before anything is read or driven; otherwise the enabled
/// mask is updated and persisted and the slot's live power is re-synchronized
/// through the `power_node` path.
pub open spec fn activate_slot_post(
    pre: BmcApplication,
    post: BmcApplication,
    mask: u8,
    on: bool,
    r: Result<(), BmcError>,
) -> bool {
    if mask == 0 {
        r == Err::<(), BmcError>(BmcError::EmptyNodeMask) && post == pre
    } else {
        match pre.app_db.spec_node_enabled() {
            None => r == Err::<(), BmcError>(BmcError::Persistency) && post == pre,
            Some(enabled) => {
                let updated = updated_enabled_mask(enabled, mask, on);
                let mid = BmcApplication {
                    app_db: ConfigStore { node_enabled: Some(updated), ..pre.app_db },
                    ..pre
                };
                power_node_post(mid, post, mask, r)
            },
        }
    }
}

/// Exact behaviour of the mode-merge step `set_usb_mode`: the previous mode
/// byte is read (defaulting to all-host), the slot's bit is merged and driven,
/// and the merged byte is persisted.
pub open spec fn set_usb_mode_post(
    pre: BmcApplication,
    post: BmcApplication,
    node: NodeId,
    mode: UsbMode,
    r: Result<(), BmcError>,
) -> bool {
    let merged = merge_usb_mode(
        spec_usb_mode_or_default(pre.app_db),
        node.spec_bits(),
        mode == UsbMode::Host,
    );
    if !pre.pin_controller.healthy {
        r == Err::<(), BmcError>(BmcError::PinController) && post == pre
    } else {
        &&& post.power_state == pre.power_state
        &&& post.pin_controller == (PinController {
            usb_mode_bits: merged,
            ops: post.pin_controller.ops,
            ..pre.pin_controller
        })
        &&& post.pin_controller.ops@ == pre.pin_controller.ops@.push(PinOp::SetUsbMode(merged))
        &&& if pre.app_db.healthy {
            r.is_ok() && post.app_db == (ConfigStore { usb_mode: Some(merged), ..pre.app_db })
        } else {
            r == Err::<(), BmcError>(BmcError::Persistency) && post.app_db == pre.app_db
        }
    }
}

/// Exact behaviour of `usb_mode`: select the node and persist it, route to
/// USB-A and persist it, merge and persist the slot's mode bit, then assert
/// the slot's USB-boot straps for device mode or release them for host mode.
/// Each failure aborts the sequence immediately.
pub open spec fn usb_mode_post(
    pre: BmcApplication,
    post: BmcApplication,
    mode: UsbMode,
    node: NodeId,
    r: Result<(), BmcError>,
) -> bool {
    let host = mode == UsbMode::Host;
    let merged = merge_usb_mode(spec_usb_mode_or_default(pre.app_db), node.spec_bits(), host);
    if !pre.pin_controller.healthy {
        r == Err::<(), BmcError>(BmcError::PinController) && post == pre
    } else if !pre.app_db.healthy {
        // the node was selected on the multiplexer, then persisting it failed
        &&& r == Err::<(), BmcError>(BmcError::Persistency)
        &&& post.power_state == pre.power_state
        &&& post.app_db == pre.app_db
        &&& post.pin_controller == (PinController {
            selected_usb: node,
            ops: post.pin_controller.ops,
            ..pre.pin_controller
        })
        &&& post.pin_controller.ops@ == pre.pin_controller.ops@.push(PinOp::SelectUsb(node))
    } else {
        &&& r.is_ok()
        &&& post.power_state == pre.power_state
        &&& post.app_db == (ConfigStore {
            usb_node: Some(node),
            usb_route: Some(UsbRoute::UsbA),
            usb_mode: Some(merged),
            ..pre.app_db
        })
        &&& post.pin_controller == (PinController {
            selected_usb: node,
            usb_route: UsbRoute::UsbA,
            usb_mode_bits: merged,
            usb_boot_bits: if host { 0 } else { node.spec_bits() },
            ops: post.pin_controller.ops,
            ..pre.pin_controller
        })
        &&& post.pin_controller.ops@ == pre.pin_controller.ops@.push(PinOp::SelectUsb(node)).push(
            PinOp::SetUsbRoute(UsbRoute::UsbA),
        ).push(PinOp::SetUsbMode(merged)).push(
            if host {
                PinOp::ClearUsbBoot
            } else {
                PinOp::SetUsbBoot(node)
            },
        )
    }
}

/// Exact behaviour of startup reconciliation (`initialize`): the three USB
/// keys are read (defaulting when absent or unreadable) and applied to the
/// pin controller, all three attempted even if an earlier one fails; then
/// the enabled mask, if present, is applied as the initial power state, and
/// written back as the all-disabled default if absent.
pub open spec fn initialize_post(
    pre: BmcApplication,
    post: BmcApplication,
    r: Result<(), BmcError>,
) -> bool {
    if !pre.pin_controller.healthy {
        r == Err::<(), BmcError>(BmcError::PinController) && post == pre
    } else {
        let mid_ops = pre.pin_controller.ops@.push(
            PinOp::SelectUsb(spec_usb_node_or_default(pre.app_db)),
        ).push(PinOp::SetUsbRoute(spec_usb_route_or_default(pre.app_db))).push(
            PinOp::ApplyRawUsbMode(spec_usb_mode_or_default(pre.app_db)),
        );
        &&& post.pin_controller.healthy
        &&& post.pin_controller.selected_usb == spec_usb_node_or_default(pre.app_db)
        &&& post.pin_controller.usb_route == spec_usb_route_or_default(pre.app_db)
        &&& post.pin_controller.usb_boot_bits == pre.pin_controller.usb_boot_bits
        &&& post.pin_controller.usb_mode_bits == spec_usb_mode_or_default(pre.app_db)
        &&& match pre.app_db.spec_node_enabled() {
            None => {
                &&& post.power_state == pre.power_state
                &&& post.pin_controller.power_lines == pre.pin_controller.power_lines
                &&& post.pin_controller.atx_power == pre.pin_controller.atx_power
                &&& post.pin_controller.ops@ == mid_ops
                &&& if pre.app_db.healthy {
                    r.is_ok() && post.app_db == (ConfigStore {
                        node_enabled: Some(DEFAULT_NODE_ENABLED),
                        ..pre.app_db
                    })
                } else {
                    r == Err::<(), BmcError>(BmcError::Persistency) && post.app_db == pre.app_db
                }
            },
            Some(enabled) => {
                let live = pre.power_state;
                let next = next_power_state(live, enabled, enabled);
                &&& r.is_ok()
                &&& post.app_db == pre.app_db
                &&& post.power_state == next
                &&& if next == live {
                    &&& post.pin_controller.power_lines == pre.pin_controller.power_lines
                    &&& post.pin_controller.atx_power == pre.pin_controller.atx_power
                    &&& post.pin_controller.ops@ == mid_ops
                } else {
                    &&& post.pin_controller.power_lines == next
                    &&& post.pin_controller.atx_power == (match atx_change_needed(live, next) {
                        Some(on) => on,
                        None => pre.pin_controller.atx_power,
                    })
                    &&& post.pin_controller.ops@ == power_ops_after(mid_ops, live, next)
                }
            },
        }
    }
}

impl BmcApplication {
    /// Construct the orchestrator around a pin controller and a durable
    /// store, with all slots assumed powered off, and run startup
    /// reconciliation. Fails if reconciliation fails.
    pub fn new(pin_controller: PinController, app_db: ConfigStore) -> (r: Result<
        BmcApplication,
        BmcError,
    >)
        ensures
            ({
                let pre = BmcApplication { pin_controller, app_db, power_state: 0 };
                &&& !pin_controller.healthy ==> r == Err::<BmcApplication, BmcError>(
                    BmcError::PinController,
                )
                &&& pin_controller.healthy && !app_db.healthy ==> r == Err::<
                    BmcApplication,
                    BmcError,
                >(BmcError::Persistency)
                &&& pin_controller.healthy && app_db.healthy ==> (r matches Ok(bmc)
                    && initialize_post(pre, bmc, Ok::<(), BmcError>(())))
            }),
    {
        let mut instance = BmcApplication { pin_controller, app_db, power_state: 0 };
        match instance.initialize() {
            Ok(()) => Ok(instance),
            Err(e) => Err(e),
        }
    }

    /// Startup reconciliation: apply the durable USB configuration, then the
    /// durable enabled mask (or write its default back).
    pub fn initialize(&mut self) -> (r: Result<(), BmcError>)
        ensures
            initialize_post(*old(self), *final(self), r),
    {
        match self.initialize_usb_mode() {
            Ok(()) => {},
            Err(e) => {
                return Err(e);
            },
        }
        self.initialize_power()
    }

    /// Power-on part of startup reconciliation: power exactly the enabled
    /// slots, or persist the all-disabled default when no mask is stored.
    pub fn initialize_power(&mut self) -> (r: Result<(), BmcError>)
        ensures
            match old(self).app_db.spec_node_enabled() {
                Some(enabled) => power_node_post(*old(self), *final(self), enabled, r),
                None => if old(self).app_db.healthy {
                    r.is_ok() && *final(self) == (BmcApplication {
                        app_db: ConfigStore {
                            node_enabled: Some(DEFAULT_NODE_ENABLED),
                            ..old(self).app_db
                        },
                        ..*old(self)
                    })
                } else {
                    r == Err::<(), BmcError>(BmcError::Persistency) && *final(self) == *old(self)
                },
            },
    {
        match self.app_db.get_node_enabled() {
            Ok(enabled_nodes) => self.power_node(enabled_nodes),
            Err(_) => self.app_db.set_node_enabled(DEFAULT_NODE_ENABLED),
        }
    }

    /// USB part of startup reconciliation: read node, route and mode,
    /// defaulting each, and apply them to the pin controller. All three are
    /// attempted even if an earlier one fails; the first failure is returned.
    pub fn initialize_usb_mode(&mut self) -> (r: Result<(), BmcError>)
        ensures
            !old(self).pin_controller.healthy ==> r == Err::<(), BmcError>(BmcError::PinController)
                && *final(self) == *old(self),
            old(self).pin_controller.healthy ==> ({
                &&& r.is_ok()
                &&& final(self).power_state == old(self).power_state
                &&& final(self).app_db == old(self).app_db
                &&& final(self).pin_controller == (PinController {
                    selected_usb: spec_usb_node_or_default(old(self).app_db),
                    usb_route: spec_usb_route_or_default(old(self).app_db),
                    usb_mode_bits: spec_usb_mode_or_default(old(self).app_db),
                    ops: final(self).pin_controller.ops,
                    ..old(self).pin_controller
                })
                &&& final(self).pin_controller.ops@ == old(self).pin_controller.ops@.push(
                    PinOp::SelectUsb(spec_usb_node_or_default(old(self).app_db)),
                ).push(PinOp::SetUsbRoute(spec_usb_route_or_default(old(self).app_db))).push(
                    PinOp::ApplyRawUsbMode(spec_usb_mode_or_default(old(self).app_db)),
                )
            }),
    {
        let node = match self.app_db.get_usb_node() {
            Ok(n) => n,
            Err(_) => NodeId::Node1,
        };
        let res = self.pin_controller.select_usb(node);

        let route = match self.app_db.get_usb_route() {
            Ok(v) => v,
            Err(_) => UsbRoute::UsbA,
        };
        let res2 = self.pin_controller.set_usb_route(route);

        let mode = match self.app_db.get_usb_mode() {
            Ok(v) => v,
            Err(_) => DEFAULT_USB_MODE,
        };
        let res3 = self.pin_controller.apply_raw_usb_mode(mode);

        match res {
            Ok(()) => {},
            Err(e) => {
                return Err(e);
            },
        }
        match res2 {
            Ok(()) => {},
            Err(e) => {
                return Err(e);
            },
        }
        res3
    }

    /// The ATX rail transition a power-state change requires, if any: the
    /// shared rail turns on only when leaving the all-off state and off only
    /// when entering it.
    pub fn need_atx_change(current_node_state: u8, next_node_state: u8) -> (r: Option<bool>)
        ensures
            r == atx_change_needed(current_node_state, next_node_state),
    {
        if current_node_state == 0 && next_node_state > 0 {
            Some(true)
        } else if current_node_state > 0 && next_node_state == 0 {
            Some(false)
        } else {
            None
        }
    }

    /// Whether a slot is currently powered: a pure read of the live mask.
    pub fn get_node_power(&self, node: NodeId) -> (r: Result<bool, BmcError>)
        ensures
            r == Ok::<bool, BmcError>(self.power_state & node.spec_bits() != 0),
    {
        Ok(self.power_state & node.to_bits() != 0)
    }

    /// The core power transition for a requested slot mask. See
    /// [`power_node_post`] for the exact outcome in every case.
    pub fn power_node(&mut self, requested: u8) -> (r: Result<(), BmcError>)
        ensures
            power_node_post(*old(self), *final(self), requested, r),
    {
        let mask = match self.app_db.get_node_enabled() {
            Ok(v) => v,
            Err(e) => {
                return Err(e);
            },
        };
        let power_state = self.power_state;

        let new_power_state: u8 = if requested == 0 {
            0
        } else {
            (power_state & !requested) | (requested & mask)
        };

        if power_state == new_power_state {
            // the requested state is already active: no hardware call
            return Ok(());
        }
        match Self::need_atx_change(power_state, new_power_state) {
            Some(on) => {
                match self.pin_controller.set_atx_power(on) {
                    Ok(()) => {},
                    Err(e) => {
                        return Err(e);
                    },
                }
            },
            None => {},
        }
        match self.pin_controller.set_power_node(power_state, new_power_state) {
            Ok(()) => {},
            Err(e) => {
                return Err(e);
            },
        }
        self.power_state = new_power_state;
        Ok(())
    }

    /// Enable or disable a slot for power control, by its identity.
    pub fn activate_slot(&mut self, node: NodeId, on: bool) -> (r: Result<(), BmcError>)
        ensures
            activate_slot_post(*old(self), *final(self), node.spec_bits(), on, r),
    {
        self.activate_slot_mask(node.to_bits(), on)
    }

    /// Enable or disable the slots of `mask` for power control: rejects an
    /// empty mask without touching the store or the hardware, persists the
    /// updated enabled mask, then re-synchronizes those slots' live power in
    /// the same call (disabling a powered slot powers it down).
    pub fn activate_slot_mask(&mut self, mask: u8, on: bool) -> (r: Result<(), BmcError>)
        ensures
            activate_slot_post(*old(self), *final(self), mask, on, r),
    {
        if mask == 0 {
            return Err(BmcError::EmptyNodeMask);
        }
        let state = match self.app_db.get_node_enabled() {
            Ok(v) => v,
            Err(e) => {
                return Err(e);
            },
        };
        let new_state = (state & !mask) | (if on {
            mask
        } else {
            0
        });
        match self.app_db.set_node_enabled(new_state) {
            Ok(()) => {},
            Err(e) => {
                return Err(e);
            },
        }
        self.power_node(mask)
    }

    /// Request power-on of all slots; the enabled-mask filter and the rail
    /// policy apply as in every `power_node` call.
    pub fn power_on(&mut self) -> (r: Result<(), BmcError>)
        ensures
            power_node_post(*old(self), *final(self), ALL_NODES_MASK, r),
    {
        self.power_node(ALL_NODES_MASK)
    }

    /// Request explicit full power-off of all slots, bypassing the enabled
    /// filter.
    pub fn power_off(&mut self) -> (r: Result<(), BmcError>)
        ensures
            power_node_post(*old(self), *final(self), 0, r),
    {
        self.power_node(0)
    }

    /// Keypress handler: invert the entire live mask at once and request the
    /// inverted value, flipping the aggregate on/off state of the enabled
    /// slots.
    pub fn toggle_power_states(&mut self) -> (r: Result<(), BmcError>)
        ensures
            ({
                let flipped = !old(self).power_state;
                power_node_post(
                    (BmcApplication { power_state: flipped, ..*old(self) }),
                    *final(self),
                    flipped,
                    r,
                )
            }),
    {
        self.power_state = !self.power_state;
        let flipped = self.power_state;
        self.power_node(flipped)
    }

    /// Switch USB multiplexer ownership to `node` with the given mode. See
    /// [`usb_mode_post`] for the exact sequence and failure behaviour.
    pub fn usb_mode(&mut self, mode: UsbMode, node: NodeId) -> (r: Result<(), BmcError>)
        ensures
            usb_mode_post(*old(self), *final(self), mode, node, r),
    {
        match self.pin_controller.select_usb(node) {
            Ok(()) => {},
            Err(e) => {
                return Err(e);
            },
        }
        match self.app_db.set_usb_node(node) {
            Ok(()) => {},
            Err(e) => {
                return Err(e);
            },
        }
        match self.pin_controller.set_usb_route(UsbRoute::UsbA) {
            Ok(()) => {},
            Err(e) => {
                return Err(e);
            },
        }
        match self.app_db.set_usb_route(UsbRoute::UsbA) {
            Ok(()) => {},
            Err(e) => {
                return Err(e);
            },
        }
        match self.set_usb_mode(node, mode) {
            Ok(()) => {},
            Err(e) => {
                return Err(e);
            },
        }
        // assert the boot straps for device mode so a subsequent device-mode
        // session is immediately flashable; release them for host mode
        match mode {
            UsbMode::Host => match self.pin_controller.clear_usb_boot() {
                Ok(()) => {},
                Err(e) => {
                    return Err(e);
                },
            },
            UsbMode::Device => match self.pin_controller.set_usb_boot(node) {
                Ok(()) => {},
                Err(e) => {
                    return Err(e);
                },
            },
        }
        Ok(())
    }

    /// Merge one slot's host/device bit into the shared mode byte, drive it
    /// and persist the merged byte.
    pub fn set_usb_mode(&mut self, node: NodeId, mode: UsbMode) -> (r: Result<(), BmcError>)
        ensures
            set_usb_mode_post(*old(self), *final(self), node, mode, r),
    {
        let prev_mode = match self.app_db.get_usb_mode() {
            Ok(m) => m,
            Err(_) => DEFAULT_USB_MODE,
        };
        let host = match mode {
            UsbMode::Host => true,
            UsbMode::Device => false,
        };
        let new_mode = match self.pin_controller.set_usb_mode(node, host, prev_mode) {
            Ok(m) => m,
            Err(e) => {
                return Err(e);
            },
        };
        self.app_db.set_usb_mode(new_mode)
    }

    /// Reset the on-board ethernet switch through the pin controller.
    pub fn rtl_reset(&mut self) -> (r: Result<(), BmcError>)
        ensures
            !old(self).pin_controller.healthy ==> r == Err::<(), BmcError>(BmcError::PinController)
                && *final(self) == *old(self),
            old(self).pin_controller.healthy ==> ({
                &&& r.is_ok()
                &&& final(self).app_db == old(self).app_db
                &&& final(self).power_state == old(self).power_state
                &&& final(self).pin_controller == (PinController {
                    ops: final(self).pin_controller.ops,
                    ..old(self).pin_controller
                })
                &&& final(self).pin_controller.ops@ == old(self).pin_controller.ops@.push(
                    PinOp::RtlReset,
                )
            }),
    {
        self.pin_controller.rtl_reset()
    }
}

} // verus!
