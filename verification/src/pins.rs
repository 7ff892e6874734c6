//! Model of the pin controller at its interface boundary: the physical GPIO
//! facade driving the shared ATX rail, per-slot power lines, the USB
//! multiplexer, the USB route, the shared mode byte and the USB-boot straps.
//!
//! Every hardware operation that succeeds is appended to `ops`, so contracts
//! and tests can observe exactly which physical side effects happened and in
//! what order. When the controller is unhealthy every operation fails and
//! changes nothing, which exercises the orchestrator's hardware-error paths.

use vstd::prelude::*;

use crate::masks::merge_usb_mode;
use crate::types::BmcError;
use crate::types::NodeId;
use crate::types::UsbRoute;

verus! {

/// One physical pin operation, as performed.
#[derive(Clone, Copy, Debug, PartialEq, Eq)]
pub enum PinOp {
    /// The USB multiplexer was pointed at a slot.
    SelectUsb(NodeId),
    /// The USB route was switched.
    SetUsbRoute(UsbRoute),
    /// The shared USB-mode byte was driven to a new value (merged).
    SetUsbMode(u8),
    /// The shared USB-mode byte was driven to a raw value (startup, no merge).
    ApplyRawUsbMode(u8),
    /// The shared ATX rail was switched on or off.
    SetAtxPower(bool),
    /// The per-slot power lines transitioned from one mask to another.
    SetPowerNode(u8, u8),
    /// A slot's USB-boot straps were asserted.
    SetUsbBoot(NodeId),
    /// All USB-boot straps were released.
    ClearUsbBoot,
    /// The ethernet switch was reset.
    RtlReset,
}

/// In-memory model of the GPIO pin controller.
pub struct PinController {
    /// Whether pin operations currently succeed.
    pub healthy: bool,
    /// Shared 12V ATX rail state.
    pub atx_power: bool,
    /// Per-slot power line mask currently driven.
    pub power_lines: u8,
    /// Slot the USB multiplexer points at.
    pub selected_usb: NodeId,
    /// Where the multiplexed USB lines terminate.
    pub usb_route: UsbRoute,
    /// Shared byte holding each slot's host/device mode bit.
    pub usb_mode_bits: u8,
    /// Mask of slots whose USB-boot straps are asserted.
    pub usb_boot_bits: u8,
    /// Every hardware operation performed, in order.
    pub ops: Vec<PinOp>,
}

impl PinController {
    /// A healthy controller in its reset state: rail off, no power lines
    /// driven, multiplexer at slot 1 routed to the external port, all mode
    /// bits host, no straps asserted, nothing performed yet.
    pub fn new() -> (r: PinController)
        ensures
            r.healthy,
            !r.atx_power,
            r.power_lines == 0,
            r.selected_usb == NodeId::Node1,
            r.usb_route == UsbRoute::UsbA,
            r.usb_mode_bits == 0x0fu8,
            r.usb_boot_bits == 0,
            r.ops@ == Seq::<PinOp>::empty(),
    {
        PinController {
            healthy: true,
            atx_power: false,
            power_lines: 0,
            selected_usb: NodeId::Node1,
            usb_route: UsbRoute::UsbA,
            usb_mode_bits: 0x0f,
            usb_boot_bits: 0,
            ops: Vec::new(),
        }
    }

    /// Point the USB multiplexer at `node`.
    pub fn select_usb(&mut self, node: NodeId) -> (r: Result<(), BmcError>)
        ensures
            !old(self).healthy ==> r == Err::<(), BmcError>(BmcError::PinController)
                && *final(self) == *old(self),
            old(self).healthy ==> r.is_ok()
                && final(self).selected_usb == node
                && final(self).ops@ == old(self).ops@.push(PinOp::SelectUsb(node))
                && *final(self) == (PinController {
                    selected_usb: node,
                    ops: final(self).ops,
                    ..*old(self)
                }),
    {
        if !self.healthy {
            return Err(BmcError::PinController);
        }
        self.selected_usb = node;
        self.ops.push(PinOp::SelectUsb(node));
        Ok(())
    }

    /// Switch the USB route.
    pub fn set_usb_route(&mut self, route: UsbRoute) -> (r: Result<(), BmcError>)
        ensures
            !old(self).healthy ==> r == Err::<(), BmcError>(BmcError::PinController)
                && *final(self) == *old(self),
            old(self).healthy ==> r.is_ok()
                && final(self).usb_route == route
                && final(self).ops@ == old(self).ops@.push(PinOp::SetUsbRoute(route))
                && *final(self) == (PinController {
                    usb_route: route,
                    ops: final(self).ops,
                    ..*old(self)
                }),
    {
        if !self.healthy {
            return Err(BmcError::PinController);
        }
        self.usb_route = route;
        self.ops.push(PinOp::SetUsbRoute(route));
        Ok(())
    }

    /// Merge one slot's host/device bit into the shared mode byte `prev` and
    /// drive the merged byte; returns the merged byte for persisting.
    pub fn set_usb_mode(&mut self, node: NodeId, host: bool, prev: u8) -> (r: Result<
        u8,
        BmcError,
    >)
        ensures
            !old(self).healthy ==> r == Err::<u8, BmcError>(BmcError::PinController)
                && *final(self) == *old(self),
            old(self).healthy ==> ({
                let merged = merge_usb_mode(prev, node.spec_bits(), host);
                &&& r == Ok::<u8, BmcError>(merged)
                &&& final(self).usb_mode_bits == merged
                &&& final(self).ops@ == old(self).ops@.push(PinOp::SetUsbMode(merged))
                &&& *final(self) == (PinController {
                    usb_mode_bits: merged,
                    ops: final(self).ops,
                    ..*old(self)
                })
            }),
    {
        if !self.healthy {
            return Err(BmcError::PinController);
        }
        let mask = node.to_bits();
        let merged = if host {
            prev | mask
        } else {
            prev & !mask
        };
        self.usb_mode_bits = merged;
        self.ops.push(PinOp::SetUsbMode(merged));
        Ok(merged)
    }

    /// Drive the shared mode byte to a raw value, without merging (startup
    /// reconciliation only).
    pub fn apply_raw_usb_mode(&mut self, bits: u8) -> (r: Result<(), BmcError>)
        ensures
            !old(self).healthy ==> r == Err::<(), BmcError>(BmcError::PinController)
                && *final(self) == *old(self),
            old(self).healthy ==> r.is_ok()
                && final(self).usb_mode_bits == bits
                && final(self).ops@ == old(self).ops@.push(PinOp::ApplyRawUsbMode(bits))
                && *final(self) == (PinController {
                    usb_mode_bits: bits,
                    ops: final(self).ops,
                    ..*old(self)
                }),
    {
        if !self.healthy {
            return Err(BmcError::PinController);
        }
        self.usb_mode_bits = bits;
        self.ops.push(PinOp::ApplyRawUsbMode(bits));
        Ok(())
    }

    /// Switch the shared ATX rail.
    pub fn set_atx_power(&mut self, on: bool) -> (r: Result<(), BmcError>)
        ensures
            !old(self).healthy ==> r == Err::<(), BmcError>(BmcError::PinController)
                && *final(self) == *old(self),
            old(self).healthy ==> r.is_ok()
                && final(self).atx_power == on
                && final(self).ops@ == old(self).ops@.push(PinOp::SetAtxPower(on))
                && *final(self) == (PinController {
                    atx_power: on,
                    ops: final(self).ops,
                    ..*old(self)
                }),
    {
        if !self.healthy {
            return Err(BmcError::PinController);
        }
        self.atx_power = on;
        self.ops.push(PinOp::SetAtxPower(on));
        Ok(())
    }

    /// Transition the per-slot power lines from `current` to `next`.
    pub fn set_power_node(&mut self, current: u8, next: u8) -> (r: Result<(), BmcError>)
        ensures
            !old(self).healthy ==> r == Err::<(), BmcError>(BmcError::PinController)
                && *final(self) == *old(self),
            old(self).healthy ==> r.is_ok()
                && final(self).power_lines == next
                && final(self).ops@ == old(self).ops@.push(PinOp::SetPowerNode(current, next))
                && *final(self) == (PinController {
                    power_lines: next,
                    ops: final(self).ops,
                    ..*old(self)
                }),
    {
        if !self.healthy {
            return Err(BmcError::PinController);
        }
        self.power_lines = next;
        self.ops.push(PinOp::SetPowerNode(current, next));
        Ok(())
    }

    /// Assert one slot's USB-boot straps (releasing any other slot's).
    pub fn set_usb_boot(&mut self, node: NodeId) -> (r: Result<(), BmcError>)
        ensures
            !old(self).healthy ==> r == Err::<(), BmcError>(BmcError::PinController)
                && *final(self) == *old(self),
            old(self).healthy ==> r.is_ok()
                && final(self).usb_boot_bits == node.spec_bits()
                && final(self).ops@ == old(self).ops@.push(PinOp::SetUsbBoot(node))
                && *final(self) == (PinController {
                    usb_boot_bits: node.spec_bits(),
                    ops: final(self).ops,
                    ..*old(self)
                }),
    {
        if !self.healthy {
            return Err(BmcError::PinController);
        }
        self.usb_boot_bits = node.to_bits();
        self.ops.push(PinOp::SetUsbBoot(node));
        Ok(())
    }

    /// Release all USB-boot straps.
    pub fn clear_usb_boot(&mut self) -> (r: Result<(), BmcError>)
        ensures
            !old(self).healthy ==> r == Err::<(), BmcError>(BmcError::PinController)
                && *final(self) == *old(self),
            old(self).healthy ==> r.is_ok()
                && final(self).usb_boot_bits == 0
                && final(self).ops@ == old(self).ops@.push(PinOp::ClearUsbBoot)
                && *final(self) == (PinController {
                    usb_boot_bits: 0,
                    ops: final(self).ops,
                    ..*old(self)
                }),
    {
        if !self.healthy {
            return Err(BmcError::PinController);
        }
        self.usb_boot_bits = 0;
        self.ops.push(PinOp::ClearUsbBoot);
        Ok(())
    }

    /// Reset the on-board ethernet switch.
    pub fn rtl_reset(&mut self) -> (r: Result<(), BmcError>)
        ensures
            !old(self).healthy ==> r == Err::<(), BmcError>(BmcError::PinController)
                && *final(self) == *old(self),
            old(self).healthy ==> r.is_ok()
                && final(self).ops@ == old(self).ops@.push(PinOp::RtlReset)
                && *final(self) == (PinController { ops: final(self).ops, ..*old(self) }),
    {
        if !self.healthy {
            return Err(BmcError::PinController);
        }
        self.ops.push(PinOp::RtlReset);
        Ok(())
    }
}

} // verus!
