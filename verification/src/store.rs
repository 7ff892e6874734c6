//! Model of the persistent configuration store at its interface boundary: a
//! typed key/value store for the durable pieces of state the orchestrator
//! owns (enabled-slot mask, selected USB node, route and mode byte).
//!
//! Each key is a field; an absent key is `None`. A read fails when the store
//! is unhealthy or the key is absent; a write fails when the store is
//! unhealthy and then leaves the store unchanged. The `healthy` flag lets a
//! caller exercise every persistency-error path of the orchestrator.

use vstd::prelude::*;

use crate::types::BmcError;
use crate::types::NodeId;
use crate::types::UsbRoute;

verus! {

/// In-memory model of the durable key/value store.
pub struct ConfigStore {
    /// Whether reads and writes currently succeed.
    pub healthy: bool,
    /// Durable mask of slots eligible for power-on.
    pub node_enabled: Option<u8>,
    /// Durable selection of the slot whose USB lines are active.
    pub usb_node: Option<NodeId>,
    /// Durable USB routing selection.
    pub usb_route: Option<UsbRoute>,
    /// Durable shared byte holding each slot's host/device mode bit.
    pub usb_mode: Option<u8>,
}

impl ConfigStore {
    /// A healthy store with no keys written yet (first run).
    pub fn new() -> (r: ConfigStore)
        ensures
            r.healthy,
            r.node_enabled is None,
            r.usb_node is None,
            r.usb_route is None,
            r.usb_mode is None,
    {
        ConfigStore {
            healthy: true,
            node_enabled: None,
            usb_node: None,
            usb_route: None,
            usb_mode: None,
        }
    }

    /// What a read of the enabled-mask key yields: the stored value, or
    /// nothing when the key is absent or the store cannot be read.
    pub open spec fn spec_node_enabled(self) -> Option<u8> {
        if self.healthy {
            self.node_enabled
        } else {
            None
        }
    }

    /// What a read of the USB-node key yields.
    pub open spec fn spec_usb_node(self) -> Option<NodeId> {
        if self.healthy {
            self.usb_node
        } else {
            None
        }
    }

    /// What a read of the USB-route key yields.
    pub open spec fn spec_usb_route(self) -> Option<UsbRoute> {
        if self.healthy {
            self.usb_route
        } else {
            None
        }
    }

    /// What a read of the USB-mode key yields.
    pub open spec fn spec_usb_mode(self) -> Option<u8> {
        if self.healthy {
            self.usb_mode
        } else {
            None
        }
    }

    /// Read the enabled-slot mask; fails if absent or unreadable.
    pub fn get_node_enabled(&self) -> (r: Result<u8, BmcError>)
        ensures
            r == match self.spec_node_enabled() {
                Some(v) => Ok::<u8, BmcError>(v),
                None => Err::<u8, BmcError>(BmcError::Persistency),
            },
    {
        if !self.healthy {
            return Err(BmcError::Persistency);
        }
        match self.node_enabled {
            Some(v) => Ok(v),
            None => Err(BmcError::Persistency),
        }
    }

    /// Write the enabled-slot mask.
    pub fn set_node_enabled(&mut self, v: u8) -> (r: Result<(), BmcError>)
        ensures
            old(self).healthy ==> r.is_ok() && *final(self) == (ConfigStore {
                node_enabled: Some(v),
                ..*old(self)
            }),
            !old(self).healthy ==> r == Err::<(), BmcError>(BmcError::Persistency)
                && *final(self) == *old(self),
    {
        if !self.healthy {
            return Err(BmcError::Persistency);
        }
        self.node_enabled = Some(v);
        Ok(())
    }

    /// Read the selected USB node; fails if absent or unreadable.
    pub fn get_usb_node(&self) -> (r: Result<NodeId, BmcError>)
        ensures
            r == match self.spec_usb_node() {
                Some(v) => Ok::<NodeId, BmcError>(v),
                None => Err::<NodeId, BmcError>(BmcError::Persistency),
            },
    {
        if !self.healthy {
            return Err(BmcError::Persistency);
        }
        match self.usb_node {
            Some(v) => Ok(v),
            None => Err(BmcError::Persistency),
        }
    }

    /// Write the selected USB node.
    pub fn set_usb_node(&mut self, v: NodeId) -> (r: Result<(), BmcError>)
        ensures
            old(self).healthy ==> r.is_ok() && *final(self) == (ConfigStore {
                usb_node: Some(v),
                ..*old(self)
            }),
            !old(self).healthy ==> r == Err::<(), BmcError>(BmcError::Persistency)
                && *final(self) == *old(self),
    {
        if !self.healthy {
            return Err(BmcError::Persistency);
        }
        self.usb_node = Some(v);
        Ok(())
    }

    /// Read the USB route; fails if absent or unreadable.
    pub fn get_usb_route(&self) -> (r: Result<UsbRoute, BmcError>)
        ensures
            r == match self.spec_usb_route() {
                Some(v) => Ok::<UsbRoute, BmcError>(v),
                None => Err::<UsbRoute, BmcError>(BmcError::Persistency),
            },
    {
        if !self.healthy {
            return Err(BmcError::Persistency);
        }
        match self.usb_route {
            Some(v) => Ok(v),
            None => Err(BmcError::Persistency),
        }
    }

    /// Write the USB route.
    pub fn set_usb_route(&mut self, v: UsbRoute) -> (r: Result<(), BmcError>)
        ensures
            old(self).healthy ==> r.is_ok() && *final(self) == (ConfigStore {
                usb_route: Some(v),
                ..*old(self)
            }),
            !old(self).healthy ==> r == Err::<(), BmcError>(BmcError::Persistency)
                && *final(self) == *old(self),
    {
        if !self.healthy {
            return Err(BmcError::Persistency);
        }
        self.usb_route = Some(v);
        Ok(())
    }

    /// Read the USB-mode byte; fails if absent or unreadable.
    pub fn get_usb_mode(&self) -> (r: Result<u8, BmcError>)
        ensures
            r == match self.spec_usb_mode() {
                Some(v) => Ok::<u8, BmcError>(v),
                None => Err::<u8, BmcError>(BmcError::Persistency),
            },
    {
        if !self.healthy {
            return Err(BmcError::Persistency);
        }
        match self.usb_mode {
            Some(v) => Ok(v),
            None => Err(BmcError::Persistency),
        }
    }

    /// Write the USB-mode byte.
    pub fn set_usb_mode(&mut self, v: u8) -> (r: Result<(), BmcError>)
        ensures
            old(self).healthy ==> r.is_ok() && *final(self) == (ConfigStore {
                usb_mode: Some(v),
                ..*old(self)
            }),
            !old(self).healthy ==> r == Err::<(), BmcError>(BmcError::Persistency)
                && *final(self) == *old(self),
    {
        if !self.healthy {
            return Err(BmcError::Persistency);
        }
        self.usb_mode = Some(v);
        Ok(())
    }
}

} // verus!
