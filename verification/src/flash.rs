//! The flashing pipeline: one linear sequence of stages that power-cycles a
//! slot, exposes its storage as a USB mass-storage device, streams an image
//! to it, verifies the written checksum and restores normal operation,
//! emitting a progress snapshot around every stage.
//!
//! The USB-boot helper (device discovery, mass-storage transition, image
//! write, read-back) and the bounded progress channel are modeled at their
//! interface boundary, so the pipeline's stage order, progress protocol and
//! failure propagation are verified for every combination of outcomes.

use vstd::prelude::*;

use crate::bmc::spec_usb_mode_or_default;
use crate::bmc::BmcApplication;
use crate::masks::atx_change_needed;
use crate::masks::merge_usb_mode;
use crate::pins::PinOp;
use crate::types::FlashError;
use crate::types::FlashProgress;
use crate::types::FlashStatus;
use crate::types::FlashingError;
use crate::types::NodeId;
use crate::types::UsbMode;
use crate::types::UsbRoute;

verus! {

/// Sending end of the bounded progress channel, modeled as the sequence of
/// snapshots delivered so far plus how many more sends the receiving end
/// will accept before it is dropped.
pub struct ProgressSink {
    /// Snapshots delivered, in order.
    pub sent: Vec<FlashProgress>,
    /// Number of sends the receiver will still accept; once exhausted, every
    /// send fails as the channel is closed.
    pub credits: u64,
}

impl ProgressSink {
    /// A fresh channel whose receiver accepts `credits` sends.
    pub fn new(credits: u64) -> (r: ProgressSink)
        ensures
            r.sent@ == Seq::<FlashProgress>::empty(),
            r.credits == credits,
    {
        ProgressSink { sent: Vec::new(), credits }
    }

    /// Deliver one snapshot; fails exactly when the receiver is gone, and
    /// then delivers nothing.
    pub fn send(&mut self, p: FlashProgress) -> (r: Result<(), FlashError>)
        ensures
            old(self).credits == 0 ==> r == Err::<(), FlashError>(FlashError::ChannelClosed)
                && *final(self) == *old(self),
            old(self).credits > 0 ==> r.is_ok() && final(self).sent@ == old(self).sent@.push(p)
                && final(self).credits == old(self).credits - 1,
    {
        if self.credits == 0 {
            return Err(FlashError::ChannelClosed);
        }
        self.credits = self.credits - 1;
        self.sent.push(p);
        Ok(())
    }
}

/// Model of the USB-boot helper at its interface boundary: what the physical
/// environment will answer at each storage-specific stage, and the identity
/// (length, checksum) of the image being flashed.
pub struct UsbBoot {
    /// How many attached USB devices match the allow-listed vendor/product
    /// ids at the discovery stage.
    pub matching_devices: u8,
    /// Whether the node accepts the reboot-to-mass-storage command.
    pub msd_ok: bool,
    /// Whether a mass-storage device file appears within the helper's
    /// timeout.
    pub device_file_present: bool,
    /// Whether streaming the image to the device file succeeds.
    pub write_ok: bool,
    /// Whether the written data reads back with the source checksum.
    pub checksum_ok: bool,
    /// Length of the source image.
    pub image_len: u64,
    /// Checksum of the source image.
    pub image_checksum: u64,
}

impl UsbBoot {
    /// An environment in which every stage succeeds, for an image with the
    /// given identity.
    pub fn new(image_len: u64, image_checksum: u64) -> (r: UsbBoot)
        ensures
            r == (UsbBoot {
                matching_devices: 1,
                msd_ok: true,
                device_file_present: true,
                write_ok: true,
                checksum_ok: true,
                image_len,
                image_checksum,
            }),
    {
        UsbBoot {
            matching_devices: 1,
            msd_ok: true,
            device_file_present: true,
            write_ok: true,
            checksum_ok: true,
            image_len,
            image_checksum,
        }
    }

    /// Verify that exactly one allow-listed device is attached: zero or more
    /// than one matching device is a fatal mismatch.
    pub fn check_only_one_device_present(&self) -> (r: Result<(), FlashError>)
        ensures
            self.matching_devices == 1 ==> r.is_ok(),
            self.matching_devices == 0 ==> r == Err::<(), FlashError>(
                FlashError::Flashing(FlashingError::DeviceNotFound),
            ),
            self.matching_devices > 1 ==> r == Err::<(), FlashError>(
                FlashError::Flashing(FlashingError::MultipleDevicesFound),
            ),
    {
        if self.matching_devices == 0 {
            Err(FlashError::Flashing(FlashingError::DeviceNotFound))
        } else if self.matching_devices > 1 {
            Err(FlashError::Flashing(FlashingError::MultipleDevicesFound))
        } else {
            Ok(())
        }
    }

    /// Instruct the node to reboot into mass-storage mode.
    pub fn boot_node_to_msd(&self, _node: NodeId) -> (r: Result<(), FlashError>)
        ensures
            self.msd_ok ==> r.is_ok(),
            !self.msd_ok ==> r == Err::<(), FlashError>(
                FlashError::Flashing(FlashingError::MsdBootFailure),
            ),
    {
        if self.msd_ok {
            Ok(())
        } else {
            Err(FlashError::Flashing(FlashingError::MsdBootFailure))
        }
    }

    /// Locate the mass-storage device file by allow-listed vendor string.
    pub fn get_device_path(&self) -> (r: Result<String, FlashError>)
        ensures
            self.device_file_present ==> (r matches Ok(p) && p@ == "/dev/bmc-msd"@),
            !self.device_file_present ==> r == Err::<String, FlashError>(
                FlashError::Flashing(FlashingError::DeviceFileNotFound),
            ),
    {
        if self.device_file_present {
            Ok("/dev/bmc-msd".to_owned())
        } else {
            Err(FlashError::Flashing(FlashingError::DeviceFileNotFound))
        }
    }

    /// Stream the image to the device file, forwarding one progress snapshot
    /// into the channel; returns the written length and checksum.
    pub fn write_to_device(&self, _device_path: &str, sink: &mut ProgressSink) -> (r: Result<
        (u64, u64),
        FlashError,
    >)
        ensures
            !self.write_ok ==> r == Err::<(u64, u64), FlashError>(
                FlashError::Flashing(FlashingError::WriteFailure),
            ) && *final(sink) == *old(sink),
            self.write_ok && old(sink).credits == 0 ==> r == Err::<(u64, u64), FlashError>(
                FlashError::ChannelClosed,
            ) && *final(sink) == *old(sink),
            self.write_ok && old(sink).credits > 0 ==> ({
                &&& r == Ok::<(u64, u64), FlashError>((self.image_len, self.image_checksum))
                &&& final(sink).credits == old(sink).credits - 1
                &&& final(sink).sent@ == old(sink).sent@.push(final(sink).sent@.last())
                &&& final(sink).sent@.last().status == flash_complete_status()
                &&& final(sink).sent@.last().message@ == "Write complete"@
            }),
    {
        if !self.write_ok {
            return Err(FlashError::Flashing(FlashingError::WriteFailure));
        }
        let p = FlashProgress {
            status: FlashStatus::Progress { read_percent: 100, est_minutes: 0, est_seconds: 0 },
            message: "Write complete".to_owned(),
        };
        match sink.send(p) {
            Ok(()) => {},
            Err(e) => {
                return Err(e);
            },
        }
        Ok((self.image_len, self.image_checksum))
    }

    /// Read the written data back and compare its checksum and length with
    /// the source image's, forwarding one progress snapshot.
    pub fn verify_checksum(&self, checksum: u64, length: u64, sink: &mut ProgressSink) -> (r:
        Result<(), FlashError>)
        ensures
            !(self.checksum_ok && checksum == self.image_checksum && length == self.image_len)
                ==> r == Err::<(), FlashError>(FlashError::Flashing(FlashingError::ChecksumMismatch))
                && *final(sink) == *old(sink),
            self.checksum_ok && checksum == self.image_checksum && length == self.image_len && old(
                sink,
            ).credits == 0 ==> r == Err::<(), FlashError>(FlashError::ChannelClosed) && *final(sink)
                == *old(sink),
            self.checksum_ok && checksum == self.image_checksum && length == self.image_len && old(
                sink,
            ).credits > 0 ==> ({
                &&& r.is_ok()
                &&& final(sink).credits == old(sink).credits - 1
                &&& final(sink).sent@ == old(sink).sent@.push(final(sink).sent@.last())
                &&& final(sink).sent@.last().status == flash_complete_status()
                &&& final(sink).sent@.last().message@ == "Read-back complete"@
            }),
    {
        if !(self.checksum_ok && checksum == self.image_checksum && length == self.image_len) {
            return Err(FlashError::Flashing(FlashingError::ChecksumMismatch));
        }
        let p = FlashProgress {
            status: FlashStatus::Progress { read_percent: 100, est_minutes: 0, est_seconds: 0 },
            message: "Read-back complete".to_owned(),
        };
        match sink.send(p) {
            Ok(()) => {},
            Err(e) => {
                return Err(e);
            },
        }
        Ok(())
    }
}

/// Status of a pipeline that is underway with no byte-copy progress yet.
pub open spec fn flash_running_status() -> FlashStatus {
    FlashStatus::Progress { read_percent: 0, est_minutes: u64::MAX, est_seconds: u64::MAX }
}

/// Status of a finished byte-copy step.
pub open spec fn flash_complete_status() -> FlashStatus {
    FlashStatus::Progress { read_percent: 100, est_minutes: 0, est_seconds: 0 }
}

/// The first announcement's text, naming the slot being powered off.
pub open spec fn msg_powering_off(node: NodeId) -> Seq<char> {
    match node {
        NodeId::Node1 => "Powering off node 1..."@,
        NodeId::Node2 => "Powering off node 2..."@,
        NodeId::Node3 => "Powering off node 3..."@,
        NodeId::Node4 => "Powering off node 4..."@,
    }
}

/// The status and text of every snapshot a successful flash of `node`
/// delivers, in order, ending with the completion announcement.
pub open spec fn flash_success_views(node: NodeId) -> Seq<(FlashStatus, Seq<char>)> {
    seq![
        (flash_running_status(), msg_powering_off(node)),
        (flash_running_status(), "Prerequisite settings toggled, powering on..."@),
        (flash_running_status(), "Checking for presence of a USB device..."@),
        (flash_running_status(), "Rebooting as a USB mass storage device..."@),
        (flash_running_status(), "Checking for presence of a device file..."@),
        (flash_running_status(), "Writing image to device..."@),
        (flash_complete_status(), "Write complete"@),
        (flash_running_status(), "Verifying checksum..."@),
        (flash_complete_status(), "Read-back complete"@),
        (flash_running_status(), "Flashing successful, restarting device..."@),
        (FlashStatus::Done, "Done"@),
    ]
}

/// The observable part of a delivered snapshot sequence: each snapshot's
/// status and message text.
pub open spec fn progress_views(s: Seq<FlashProgress>) -> Seq<(FlashStatus, Seq<char>)> {
    s.map_values(|p: FlashProgress| (p.status, p.message@))
}

/// Number of sends a successful pipeline run performs.
pub const FLASH_SEND_COUNT: u64 = 11;

/// The environment answers under which a flash of a slot succeeds: the
/// orchestrator's collaborators are healthy, an enabled mask is stored, and
/// every storage stage cooperates.
pub open spec fn flash_env_ok(bmc: BmcApplication, usb: UsbBoot) -> bool {
    &&& bmc.pin_controller.healthy
    &&& bmc.app_db.healthy
    &&& bmc.app_db.spec_node_enabled() is Some
    &&& usb.matching_devices == 1
    &&& usb.msd_ok
    &&& usb.device_file_present
    &&& usb.write_ok
    &&& usb.checksum_ok
}

/// Whether a run gets as far as the device-discovery stage: everything the
/// earlier power and USB-mode stages rely on works, and the receiver accepts
/// the first three announcements.
pub open spec fn flash_reaches_discovery(bmc: BmcApplication, credits: u64) -> bool {
    &&& bmc.pin_controller.healthy
    &&& bmc.app_db.healthy
    &&& bmc.app_db.spec_node_enabled() is Some
    &&& credits >= 3
}

/// The pin operations one power transition performs: none when it is a
/// no-op, otherwise the rail toggle the policy asks for followed by the
/// power-line transition.
pub open spec fn power_delta_ops(live: u8, next: u8) -> Seq<PinOp> {
    if next == live {
        Seq::empty()
    } else {
        match atx_change_needed(live, next) {
            Some(on) => seq![PinOp::SetAtxPower(on), PinOp::SetPowerNode(live, next)],
            None => seq![PinOp::SetPowerNode(live, next)],
        }
    }
}

/// Every hardware operation a successful flash of `node` performs, in order:
/// power the slot down, release and re-assert its boot straps around the
/// device-boot configuration, power it up for discovery and writing, power
/// it down again, restore host mode, and power it back up.
pub open spec fn flash_success_ops(pre: BmcApplication, node: NodeId) -> Seq<PinOp> {
    let m = node.spec_bits();
    let live = pre.power_state;
    let down = live & !m;
    let up = down | m;
    let merged_dev = merge_usb_mode(spec_usb_mode_or_default(pre.app_db), m, false);
    let merged_host = merge_usb_mode(merged_dev, m, true);
    power_delta_ops(live, down) + seq![
        PinOp::ClearUsbBoot,
        PinOp::SelectUsb(node),
        PinOp::SetUsbBoot(node),
        PinOp::SetUsbRoute(UsbRoute::Bmc),
        PinOp::SetUsbMode(merged_dev),
    ] + power_delta_ops(down, up) + power_delta_ops(up, down) + seq![
        PinOp::SelectUsb(node),
        PinOp::SetUsbRoute(UsbRoute::UsbA),
        PinOp::SetUsbMode(merged_host),
        PinOp::ClearUsbBoot,
    ] + power_delta_ops(down, up)
}

/// Where a successful flash of `node` leaves the orchestrator: the slot
/// enabled and powered (other slots untouched), the multiplexer on the slot
/// routed to USB-A in host mode, boot straps released, and the durable keys
/// recording exactly that.
pub open spec fn flash_success_state(
    pre: BmcApplication,
    post: BmcApplication,
    node: NodeId,
) -> bool {
    let m = node.spec_bits();
    let enabled = match pre.app_db.spec_node_enabled() {
        Some(e) => e,
        None => 0,
    };
    let mode_byte = spec_usb_mode_or_default(pre.app_db);
    &&& post.power_state == pre.power_state | m
    &&& post.app_db.healthy
    &&& post.app_db.node_enabled == Some((enabled | m) as u8)
    &&& post.app_db.usb_node == Some(node)
    &&& post.app_db.usb_route == Some(UsbRoute::UsbA)
    &&& post.app_db.usb_mode == Some((mode_byte | m) as u8)
    &&& post.pin_controller.healthy
    &&& post.pin_controller.power_lines == pre.power_state | m
    &&& post.pin_controller.atx_power == (if pre.power_state & !m == 0 {
        true
    } else {
        pre.pin_controller.atx_power
    })
    &&& post.pin_controller.selected_usb == node
    &&& post.pin_controller.usb_route == UsbRoute::UsbA
    &&& post.pin_controller.usb_mode_bits == mode_byte | m
    &&& post.pin_controller.usb_boot_bits == 0
}

/// Concatenation of pin-operation segments is associative.
proof fn lemma_ops_assoc(a: Seq<PinOp>, b: Seq<PinOp>, c: Seq<PinOp>)
    ensures
        (a + b) + c == a + (b + c),
{
    assert((a + b) + c =~= a + (b + c));
}

/// Combines the operation-log segments the pipeline's stages record into one
/// flat concatenation.
proof fn lemma_flash_ops_combine(
    ops_final: Seq<PinOp>,
    ops_host: Seq<PinOp>,
    ops_up: Seq<PinOp>,
    ops_down: Seq<PinOp>,
    ops0: Seq<PinOp>,
    d1: Seq<PinOp>,
    cseq: Seq<PinOp>,
    s1: Seq<PinOp>,
    s1f: Seq<PinOp>,
    d2: Seq<PinOp>,
    d3: Seq<PinOp>,
    s2: Seq<PinOp>,
    d4: Seq<PinOp>,
)
    requires
        ops_down == (ops0 + d1) + cseq,
        ops_up == (ops_down + s1) + d2,
        ops_host == (ops_up + d3) + s2,
        ops_final == ops_host + d4,
        cseq + s1 == s1f,
    ensures
        ops_final == ops0 + (((((d1 + s1f) + d2) + d3) + s2) + d4),
{
    lemma_ops_assoc(ops0 + d1, cseq, s1);
    lemma_ops_assoc(ops0, d1, s1f);
    lemma_ops_assoc(ops0, d1 + s1f, d2);
    lemma_ops_assoc(ops0, (d1 + s1f) + d2, d3);
    lemma_ops_assoc(ops0, ((d1 + s1f) + d2) + d3, s2);
    lemma_ops_assoc(ops0, (((d1 + s1f) + d2) + d3) + s2, d4);
}

/// Closed forms for the four power transitions a flash performs on one slot
/// (disable, re-enable, disable, re-enable), and for the two mode-bit merges
/// (to device, back to host).
proof fn lemma_flash_cycle(live: u8, enabled: u8, mode_byte: u8, m: u8)
    by (bit_vector)
    requires
        m != 0,
    ensures
        ({
            let e1 = crate::masks::updated_enabled_mask(enabled, m, false);
            let live1 = crate::masks::next_power_state(live, m, e1);
            let e2 = crate::masks::updated_enabled_mask(e1, m, true);
            let live2 = crate::masks::next_power_state(live1, m, e2);
            let e3 = crate::masks::updated_enabled_mask(e2, m, false);
            let live3 = crate::masks::next_power_state(live2, m, e3);
            let e4 = crate::masks::updated_enabled_mask(e3, m, true);
            let live4 = crate::masks::next_power_state(live3, m, e4);
            &&& live1 == live & !m
            &&& (live1 == live <==> live & m == 0)
            &&& (live1 == 0 <==> live & !m == 0)
            &&& live2 == live | m
            &&& live2 != live1
            &&& live2 != 0
            &&& live3 == live & !m
            &&& live3 != live2
            &&& live4 == live | m
            &&& live4 != live3
            &&& live4 != 0
            &&& e4 == enabled | m
            &&& (live == 0 ==> live1 == 0)
            &&& (live & !m) | m == live | m
            &&& merge_usb_mode(merge_usb_mode(mode_byte, m, false), m, true) == mode_byte | m
        }),
{
}

impl BmcApplication {
    /// Reflash one slot's firmware: power the slot down, strap it for
    /// device boot, route its USB lines to the BMC, power it back up, find
    /// the single allow-listed device, reboot it into mass storage, stream
    /// and verify the image, then restore host mode and power the slot on
    /// again; around every stage one snapshot goes to the progress channel,
    /// ending with the completion announcement.
    ///
    /// Any stage's failure is terminal: the error is returned, nothing more
    /// is sent, and no rollback beyond the stages already run is attempted.
    #[verifier::rlimit(100)]
    pub fn flash_node(&mut self, usb: &UsbBoot, sink: &mut ProgressSink, node: NodeId) -> (r:
        Result<(), FlashError>)
        requires
            old(sink).sent@.len() == 0,
        ensures
            r.is_ok() <==> (flash_env_ok(*old(self), *usb) && old(sink).credits
                >= FLASH_SEND_COUNT),
            r.is_ok() ==> ({
                &&& progress_views(final(sink).sent@) == flash_success_views(node)
                &&& final(sink).credits == old(sink).credits - FLASH_SEND_COUNT
            }),
            r.is_ok() ==> flash_success_state(*old(self), *final(self), node),
            r.is_ok() ==> final(self).pin_controller.ops@ == old(self).pin_controller.ops@
                + flash_success_ops(*old(self), node),
            old(sink).credits == 0 ==> r == Err::<(), FlashError>(FlashError::ChannelClosed)
                && *final(self) == *old(self) && *final(sink) == *old(sink),
            flash_reaches_discovery(*old(self), old(sink).credits) && usb.matching_devices == 0
                ==> r == Err::<(), FlashError>(FlashError::Flashing(FlashingError::DeviceNotFound))
                && progress_views(final(sink).sent@) == flash_success_views(node).take(3),
            flash_reaches_discovery(*old(self), old(sink).credits) && usb.matching_devices > 1
                ==> r == Err::<(), FlashError>(
                FlashError::Flashing(FlashingError::MultipleDevicesFound),
            ) && progress_views(final(sink).sent@) == flash_success_views(node).take(3),
    {
        let ghost m = node.spec_bits();
        let ghost live0 = self.power_state;
        let ghost down = live0 & !m;
        let ghost up = (down | m) as u8;
        let ghost mode0 = spec_usb_mode_or_default(self.app_db);
        let ghost merged_dev = merge_usb_mode(mode0, m, false);
        proof {
            let e0: u8 = match self.app_db.spec_node_enabled() {
                Some(e) => e,
                None => 0,
            };
            lemma_flash_cycle(live0, e0, mode0, m);
        }
        let ghost ops0 = self.pin_controller.ops@;

        let msg0 = match node {
            NodeId::Node1 => "Powering off node 1...",
            NodeId::Node2 => "Powering off node 2...",
            NodeId::Node3 => "Powering off node 3...",
            NodeId::Node4 => "Powering off node 4...",
        };
        let running = FlashStatus::Progress {
            read_percent: 0,
            est_minutes: u64::MAX,
            est_seconds: u64::MAX,
        };
        match sink.send(FlashProgress { status: running, message: msg0.to_owned() }) {
            Ok(()) => {},
            Err(e) => {
                return Err(e);
            },
        }

        // take the slot out of the enabled mask, which powers it down, and
        // release any boot straps left asserted
        match self.activate_slot(node, false) {
            Ok(()) => {},
            Err(e) => {
                return Err(FlashError::Bmc(e));
            },
        }
        match self.pin_controller.clear_usb_boot() {
            Ok(()) => {},
            Err(e) => {
                return Err(FlashError::Bmc(e));
            },
        }
        proof {
            assert(self.pin_controller.ops@ =~= ops0 + power_delta_ops(live0, down) + seq![
                PinOp::ClearUsbBoot,
            ]);
        }
        let ghost ops_down = self.pin_controller.ops@;

        // (settle delay)

        // configure for device boot: multiplexer on the slot, boot straps
        // asserted, lines routed to the BMC, mode bit to device
        match self.pin_controller.select_usb(node) {
            Ok(()) => {},
            Err(e) => {
                return Err(FlashError::Bmc(e));
            },
        }
        match self.pin_controller.set_usb_boot(node) {
            Ok(()) => {},
            Err(e) => {
                return Err(FlashError::Bmc(e));
            },
        }
        match self.pin_controller.set_usb_route(UsbRoute::Bmc) {
            Ok(()) => {},
            Err(e) => {
                return Err(FlashError::Bmc(e));
            },
        }
        match self.set_usb_mode(node, UsbMode::Device) {
            Ok(()) => {},
            Err(e) => {
                return Err(FlashError::Bmc(e));
            },
        }

        match sink.send(
            FlashProgress {
                status: running,
                message: "Prerequisite settings toggled, powering on...".to_owned(),
            },
        ) {
            Ok(()) => {},
            Err(e) => {
                return Err(e);
            },
        }
        match self.activate_slot(node, true) {
            Ok(()) => {},
            Err(e) => {
                return Err(FlashError::Bmc(e));
            },
        }
        proof {
            assert(self.pin_controller.ops@ =~= ops_down + seq![
                PinOp::SelectUsb(node),
                PinOp::SetUsbBoot(node),
                PinOp::SetUsbRoute(UsbRoute::Bmc),
                PinOp::SetUsbMode(merged_dev),
            ] + power_delta_ops(down, up));
        }
        let ghost ops_up = self.pin_controller.ops@;

        // (settle delay, letting the firmware boot to its mass-storage stub)

        match sink.send(
            FlashProgress {
                status: running,
                message: "Checking for presence of a USB device...".to_owned(),
            },
        ) {
            Ok(()) => {},
            Err(e) => {
                return Err(e);
            },
        }
        match usb.check_only_one_device_present() {
            Ok(()) => {},
            Err(e) => {
                proof {
                    assert(progress_views(sink.sent@) =~= flash_success_views(node).take(3));
                }
                return Err(e);
            },
        }

        match sink.send(
            FlashProgress {
                status: running,
                message: "Rebooting as a USB mass storage device...".to_owned(),
            },
        ) {
            Ok(()) => {},
            Err(e) => {
                return Err(e);
            },
        }
        match usb.boot_node_to_msd(node) {
            Ok(()) => {},
            Err(e) => {
                return Err(e);
            },
        }

        // (settle delay, letting the device re-enumerate as mass storage)

        match sink.send(
            FlashProgress {
                status: running,
                message: "Checking for presence of a device file...".to_owned(),
            },
        ) {
            Ok(()) => {},
            Err(e) => {
                return Err(e);
            },
        }
        let device_path = match usb.get_device_path() {
            Ok(p) => p,
            Err(e) => {
                return Err(e);
            },
        };

        match sink.send(
            FlashProgress { status: running, message: "Writing image to device...".to_owned() },
        ) {
            Ok(()) => {},
            Err(e) => {
                return Err(e);
            },
        }
        let (img_len, img_checksum) = match usb.write_to_device(device_path.as_str(), sink) {
            Ok(v) => v,
            Err(e) => {
                return Err(e);
            },
        };

        match sink.send(
            FlashProgress { status: running, message: "Verifying checksum...".to_owned() },
        ) {
            Ok(()) => {},
            Err(e) => {
                return Err(e);
            },
        }
        match usb.verify_checksum(img_checksum, img_len, sink) {
            Ok(()) => {},
            Err(e) => {
                return Err(e);
            },
        }

        match sink.send(
            FlashProgress {
                status: running,
                message: "Flashing successful, restarting device...".to_owned(),
            },
        ) {
            Ok(()) => {},
            Err(e) => {
                return Err(e);
            },
        }

        // restore normal operation: slot disabled, host mode, then enabled
        // and powered again
        match self.activate_slot(node, false) {
            Ok(()) => {},
            Err(e) => {
                return Err(FlashError::Bmc(e));
            },
        }
        match self.usb_mode(UsbMode::Host, node) {
            Ok(()) => {},
            Err(e) => {
                return Err(FlashError::Bmc(e));
            },
        }
        proof {
            assert(self.pin_controller.ops@ =~= ops_up + power_delta_ops(up, down) + seq![
                PinOp::SelectUsb(node),
                PinOp::SetUsbRoute(UsbRoute::UsbA),
                PinOp::SetUsbMode(merge_usb_mode(merged_dev, m, true)),
                PinOp::ClearUsbBoot,
            ]);
        }
        let ghost ops_host = self.pin_controller.ops@;

        // (settle delay)

        match self.activate_slot(node, true) {
            Ok(()) => {},
            Err(e) => {
                return Err(FlashError::Bmc(e));
            },
        }

        match sink.send(FlashProgress { status: FlashStatus::Done, message: "Done".to_owned() }) {
            Ok(()) => {},
            Err(e) => {
                return Err(e);
            },
        }

        proof {
            assert(progress_views(sink.sent@) =~= flash_success_views(node));
            assert(self.pin_controller.ops@ =~= ops_host + power_delta_ops(down, up));

            // reassociate the recorded segments into the shape of
            // `flash_success_ops`
            let d1 = power_delta_ops(live0, down);
            let cseq = seq![PinOp::ClearUsbBoot];
            let s1 = seq![
                PinOp::SelectUsb(node),
                PinOp::SetUsbBoot(node),
                PinOp::SetUsbRoute(UsbRoute::Bmc),
                PinOp::SetUsbMode(merged_dev),
            ];
            let s1f = seq![
                PinOp::ClearUsbBoot,
                PinOp::SelectUsb(node),
                PinOp::SetUsbBoot(node),
                PinOp::SetUsbRoute(UsbRoute::Bmc),
                PinOp::SetUsbMode(merged_dev),
            ];
            let d2 = power_delta_ops(down, up);
            let d3 = power_delta_ops(up, down);
            let s2 = seq![
                PinOp::SelectUsb(node),
                PinOp::SetUsbRoute(UsbRoute::UsbA),
                PinOp::SetUsbMode(merge_usb_mode(merged_dev, m, true)),
                PinOp::ClearUsbBoot,
            ];
            let d4 = power_delta_ops(down, up);

            assert(cseq + s1 =~= s1f);
            lemma_flash_ops_combine(
                self.pin_controller.ops@,
                ops_host,
                ops_up,
                ops_down,
                ops0,
                d1,
                cseq,
                s1,
                s1f,
                d2,
                d3,
                s2,
                d4,
            );
            assert(flash_success_ops(*old(self), node) == (((((d1 + s1f) + d2) + d3) + s2) + d4));
        }
        Ok(())
    }
}

} // verus!
