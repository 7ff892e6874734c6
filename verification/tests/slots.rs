use bmc_core::bmc::BmcApplication;
use bmc_core::pins::PinController;
use bmc_core::store::ConfigStore;
use bmc_core::types::BmcError;
use bmc_core::types::NodeId;

fn fresh_bmc(enabled: u8, power_state: u8) -> BmcApplication {
    BmcApplication {
        pin_controller: PinController::new(),
        app_db: ConfigStore {
            healthy: true,
            node_enabled: Some(enabled),
            usb_node: None,
            usb_route: None,
            usb_mode: None,
        },
        power_state,
    }
}

#[test]
fn activate_slot_rejects_empty_mask_untouched() {
    let mut bmc = fresh_bmc(0b0011, 0b0011);
    let r = bmc.activate_slot_mask(0, true);
    assert_eq!(r, Err(BmcError::EmptyNodeMask));
    // neither the store nor the hardware was touched
    assert_eq!(bmc.app_db.node_enabled, Some(0b0011));
    assert!(bmc.pin_controller.ops.is_empty());
    assert_eq!(bmc.power_state, 0b0011);
}

#[test]
fn activate_slot_enables_and_powers_up() {
    let mut bmc = fresh_bmc(0, 0);
    let r = bmc.activate_slot(NodeId::Node3, true);
    assert!(r.is_ok());
    assert_eq!(bmc.app_db.node_enabled, Some(0b0100));
    assert_eq!(bmc.power_state, 0b0100);
    assert!(bmc.pin_controller.atx_power);
    assert_eq!(bmc.get_node_power(NodeId::Node3), Ok(true));
}

#[test]
fn deactivating_a_powered_slot_powers_it_down() {
    // slot 1 currently enabled and powered
    let mut bmc = fresh_bmc(0b0011, 0);
    assert!(bmc.power_on().is_ok());
    assert_eq!(bmc.get_node_power(NodeId::Node1), Ok(true));

    let r = bmc.activate_slot(NodeId::Node1, false);
    assert!(r.is_ok());
    // the durable mask dropped the bit and the live state followed
    assert_eq!(bmc.app_db.node_enabled, Some(0b0010));
    assert_eq!(bmc.get_node_power(NodeId::Node1), Ok(false));
    // the other enabled slot is untouched
    assert_eq!(bmc.get_node_power(NodeId::Node2), Ok(true));
}

#[test]
fn activate_slot_fails_when_enabled_mask_absent() {
    let mut bmc = fresh_bmc(0, 0);
    bmc.app_db.node_enabled = None;
    let r = bmc.activate_slot(NodeId::Node1, true);
    assert_eq!(r, Err(BmcError::Persistency));
    assert!(bmc.pin_controller.ops.is_empty());
}

#[test]
fn activate_slot_mask_covers_several_slots_at_once() {
    let mut bmc = fresh_bmc(0b1000, 0);
    let r = bmc.activate_slot_mask(0b0011, true);
    assert!(r.is_ok());
    assert_eq!(bmc.app_db.node_enabled, Some(0b1011));
    // only the requested slots were re-synchronized
    assert_eq!(bmc.power_state, 0b0011);
}
