//! Identities, configuration enums, progress values and error kinds used by
//! the orchestrator and the flashing pipeline.

use vstd::prelude::*;

verus! {

/// Identity of one physical compute-module slot on the carrier board.
/// Immutable; each slot maps to a single bit position in the power masks.
#[derive(Clone, Copy, Debug, PartialEq, Eq)]
pub enum NodeId {
    Node1,
    Node2,
    Node3,
    Node4,
}

impl NodeId {
    /// The slot's position as a single-bit mask.
    pub open spec fn spec_bits(self) -> u8 {
        match self {
            NodeId::Node1 => 0x01,
            NodeId::Node2 => 0x02,
            NodeId::Node3 => 0x04,
            NodeId::Node4 => 0x08,
        }
    }

    /// Single-bit mask of this slot; never zero for a valid identity.
    pub fn to_bits(self) -> (r: u8)
        ensures
            r == self.spec_bits(),
            r != 0,
    {
        match self {
            NodeId::Node1 => 0x01,
            NodeId::Node2 => 0x02,
            NodeId::Node3 => 0x04,
            NodeId::Node4 => 0x08,
        }
    }
}

/// Electrical role a slot's USB data lines take.
#[derive(Clone, Copy, Debug, PartialEq, Eq)]
pub enum UsbMode {
    /// The slot drives the bus (normal operation).
    Host,
    /// The slot is exposed as a USB device (flashing sessions).
    Device,
}

/// Where the multiplexed USB lines terminate.
#[derive(Clone, Copy, Debug, PartialEq, Eq)]
pub enum UsbRoute {
    /// The BMC-internal USB controller.
    Bmc,
    /// The external USB-A port.
    UsbA,
}

/// Failures surfaced by the orchestrator's own operations.
#[derive(Clone, Copy, Debug, PartialEq, Eq)]
pub enum BmcError {
    /// A node identity resolved to an empty bit mask.
    EmptyNodeMask,
    /// A GPIO / rail operation of the pin controller failed.
    PinController,
    /// The persistent configuration store was unreadable or unwritable.
    Persistency,
}

/// Failure kinds specific to the flashing pipeline's storage stages.
#[derive(Clone, Copy, Debug, PartialEq, Eq)]
pub enum FlashingError {
    /// No allow-listed USB device was attached at the discovery stage.
    DeviceNotFound,
    /// More than one allow-listed USB device was attached.
    MultipleDevicesFound,
    /// The node did not accept the reboot-to-mass-storage command.
    MsdBootFailure,
    /// No mass-storage device file appeared within the helper's timeout.
    DeviceFileNotFound,
    /// Streaming the image to the device file failed.
    WriteFailure,
    /// The written data read back with a different checksum.
    ChecksumMismatch,
}

/// Terminal failure of one flashing-pipeline invocation.
#[derive(Clone, Copy, Debug, PartialEq, Eq)]
pub enum FlashError {
    /// A storage-specific stage failed.
    Flashing(FlashingError),
    /// A power or USB-mode side effect through the orchestrator failed.
    Bmc(BmcError),
    /// The progress receiver was dropped; the next send failed.
    ChannelClosed,
}

/// Tagged status carried by one progress snapshot of a flash operation.
#[derive(Clone, Copy, Debug, PartialEq, Eq)]
pub enum FlashStatus {
    Idle,
    Progress { read_percent: u64, est_minutes: u64, est_seconds: u64 },
    Error(FlashingError),
    Done,
}

/// One snapshot broadcast over the progress channel during a flash operation.
#[derive(Clone, Debug, PartialEq, Eq)]
pub struct FlashProgress {
    pub status: FlashStatus,
    pub message: String,
}

} // verus!
