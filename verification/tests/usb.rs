use bmc_core::bmc::BmcApplication;
use bmc_core::pins::PinController;
use bmc_core::pins::PinOp;
use bmc_core::store::ConfigStore;
use bmc_core::types::BmcError;
use bmc_core::types::NodeId;
use bmc_core::types::UsbMode;
use bmc_core::types::UsbRoute;

fn fresh_bmc() -> BmcApplication {
    BmcApplication {
        pin_controller: PinController::new(),
        app_db: ConfigStore {
            healthy: true,
            node_enabled: Some(0),
            usb_node: None,
            usb_route: None,
            usb_mode: None,
        },
        power_state: 0,
    }
}

#[test]
fn usb_mode_device_selects_routes_merges_and_straps() {
    let mut bmc = fresh_bmc();
    let r = bmc.usb_mode(UsbMode::Device, NodeId::Node1);
    assert!(r.is_ok());
    // absent mode key defaults to all-host 0b1111; device clears slot 1's bit
    assert_eq!(bmc.pin_controller.usb_mode_bits, 0b1110);
    assert_eq!(bmc.app_db.usb_mode, Some(0b1110));
    assert_eq!(bmc.app_db.usb_node, Some(NodeId::Node1));
    assert_eq!(bmc.app_db.usb_route, Some(UsbRoute::UsbA));
    assert_eq!(bmc.pin_controller.selected_usb, NodeId::Node1);
    assert_eq!(bmc.pin_controller.usb_route, UsbRoute::UsbA);
    // device mode asserts the slot's boot straps
    assert_eq!(bmc.pin_controller.usb_boot_bits, 0b0001);
    assert_eq!(
        bmc.pin_controller.ops,
        vec![
            PinOp::SelectUsb(NodeId::Node1),
            PinOp::SetUsbRoute(UsbRoute::UsbA),
            PinOp::SetUsbMode(0b1110),
            PinOp::SetUsbBoot(NodeId::Node1),
        ]
    );
}

#[test]
fn usb_mode_host_releases_straps() {
    let mut bmc = fresh_bmc();
    assert!(bmc.usb_mode(UsbMode::Device, NodeId::Node2).is_ok());
    assert_eq!(bmc.pin_controller.usb_boot_bits, 0b0010);
    assert!(bmc.usb_mode(UsbMode::Host, NodeId::Node2).is_ok());
    assert_eq!(bmc.pin_controller.usb_boot_bits, 0);
    assert_eq!(bmc.app_db.usb_mode, Some(0b1111));
}

#[test]
fn usb_mode_merges_without_disturbing_other_slots() {
    let mut bmc = fresh_bmc();
    // slot 1 to device: its bit clears
    assert!(bmc.usb_mode(UsbMode::Device, NodeId::Node1).is_ok());
    assert_eq!(bmc.app_db.usb_mode, Some(0b1110));
    // slot 2 to device: slot 1's bit stays cleared
    assert!(bmc.usb_mode(UsbMode::Device, NodeId::Node2).is_ok());
    assert_eq!(bmc.app_db.usb_mode, Some(0b1100));
    // slot 2 back to host: slot 1's bit still untouched
    assert!(bmc.usb_mode(UsbMode::Host, NodeId::Node2).is_ok());
    assert_eq!(bmc.app_db.usb_mode, Some(0b1110));
}

#[test]
fn usb_mode_pin_fault_aborts_immediately() {
    let mut bmc = fresh_bmc();
    bmc.pin_controller.healthy = false;
    let r = bmc.usb_mode(UsbMode::Host, NodeId::Node1);
    assert_eq!(r, Err(BmcError::PinController));
    assert!(bmc.pin_controller.ops.is_empty());
    assert_eq!(bmc.app_db.usb_node, None);
}

#[test]
fn usb_mode_store_fault_aborts_after_selection() {
    let mut bmc = fresh_bmc();
    bmc.app_db.healthy = false;
    let r = bmc.usb_mode(UsbMode::Host, NodeId::Node3);
    assert_eq!(r, Err(BmcError::Persistency));
    // the selection had already been driven when persisting it failed
    assert_eq!(bmc.pin_controller.ops, vec![PinOp::SelectUsb(NodeId::Node3)]);
    assert_eq!(bmc.app_db.usb_node, None);
}

#[test]
fn startup_applies_stored_usb_configuration() {
    let pins = PinController::new();
    let db = ConfigStore {
        healthy: true,
        node_enabled: Some(0b0101),
        usb_node: Some(NodeId::Node2),
        usb_route: Some(UsbRoute::Bmc),
        usb_mode: Some(0b1010),
    };
    let bmc = BmcApplication::new(pins, db).expect("startup succeeds");
    assert_eq!(bmc.pin_controller.selected_usb, NodeId::Node2);
    assert_eq!(bmc.pin_controller.usb_route, UsbRoute::Bmc);
    assert_eq!(bmc.pin_controller.usb_mode_bits, 0b1010);
    // the stored enabled mask was applied as the initial power state
    assert_eq!(bmc.power_state, 0b0101);
    assert!(bmc.pin_controller.atx_power);
    assert_eq!(
        bmc.pin_controller.ops,
        vec![
            PinOp::SelectUsb(NodeId::Node2),
            PinOp::SetUsbRoute(UsbRoute::Bmc),
            PinOp::ApplyRawUsbMode(0b1010),
            PinOp::SetAtxPower(true),
            PinOp::SetPowerNode(0, 0b0101),
        ]
    );
}

#[test]
fn startup_defaults_and_writes_back_enabled_mask() {
    let pins = PinController::new();
    let db = ConfigStore {
        healthy: true,
        node_enabled: None,
        usb_node: None,
        usb_route: None,
        usb_mode: None,
    };
    let bmc = BmcApplication::new(pins, db).expect("startup succeeds");
    // defaults: slot 1 selected, routed to USB-A, all slots host
    assert_eq!(bmc.pin_controller.selected_usb, NodeId::Node1);
    assert_eq!(bmc.pin_controller.usb_route, UsbRoute::UsbA);
    assert_eq!(bmc.pin_controller.usb_mode_bits, 0b1111);
    // the all-disabled default was written back, nothing powered
    assert_eq!(bmc.app_db.node_enabled, Some(0));
    assert_eq!(bmc.power_state, 0);
    assert!(!bmc.pin_controller.atx_power);
}

#[test]
fn startup_fails_on_unhealthy_collaborators() {
    let mut pins = PinController::new();
    pins.healthy = false;
    let db = ConfigStore {
        healthy: true,
        node_enabled: None,
        usb_node: None,
        usb_route: None,
        usb_mode: None,
    };
    assert_eq!(BmcApplication::new(pins, db).err(), Some(BmcError::PinController));

    let pins = PinController::new();
    let db = ConfigStore {
        healthy: false,
        node_enabled: None,
        usb_node: None,
        usb_route: None,
        usb_mode: None,
    };
    assert_eq!(BmcApplication::new(pins, db).err(), Some(BmcError::Persistency));
}

#[test]
fn rtl_reset_goes_through_the_pin_controller() {
    let mut bmc = fresh_bmc();
    assert!(bmc.rtl_reset().is_ok());
    assert_eq!(bmc.pin_controller.ops, vec![PinOp::RtlReset]);
    bmc.pin_controller.healthy = false;
    assert_eq!(bmc.rtl_reset(), Err(BmcError::PinController));
}
