use bmc_core::bmc::BmcApplication;
use bmc_core::pins::PinController;
use bmc_core::pins::PinOp;
use bmc_core::store::ConfigStore;
use bmc_core::types::BmcError;
use bmc_core::types::NodeId;

fn store_with_enabled(enabled: u8) -> ConfigStore {
    ConfigStore {
        healthy: true,
        node_enabled: Some(enabled),
        usb_node: None,
        usb_route: None,
        usb_mode: None,
    }
}

fn bmc_with(enabled: u8, power_state: u8) -> BmcApplication {
    BmcApplication {
        pin_controller: PinController::new(),
        app_db: store_with_enabled(enabled),
        power_state,
    }
}

#[test]
fn need_atx_change_rail_on_at_boundary() {
    assert_eq!(BmcApplication::need_atx_change(0, 1), Some(true));
    assert_eq!(BmcApplication::need_atx_change(0, 0b1111), Some(true));
}

#[test]
fn need_atx_change_rail_off_at_boundary() {
    assert_eq!(BmcApplication::need_atx_change(1, 0), Some(false));
    assert_eq!(BmcApplication::need_atx_change(0b1111, 0), Some(false));
}

#[test]
fn need_atx_change_none_when_both_zero() {
    assert_eq!(BmcApplication::need_atx_change(0, 0), None);
}

#[test]
fn need_atx_change_none_when_both_nonzero() {
    assert_eq!(BmcApplication::need_atx_change(2, 3), None);
    assert_eq!(BmcApplication::need_atx_change(0b1111, 1), None);
}

#[test]
fn power_node_applies_request_only_where_enabled() {
    // slot 3 already powered outside the request stays; requested slots 1-2
    // power on only where enabled
    let mut bmc = bmc_with(0b0011, 0b0100);
    let r = bmc.power_node(0b0011);
    assert!(r.is_ok());
    assert_eq!(bmc.power_state, 0b0111);
    assert_eq!(bmc.pin_controller.power_lines, 0b0111);
    // the rail was already up for slot 3: no ATX operation
    assert_eq!(bmc.pin_controller.ops, vec![PinOp::SetPowerNode(0b0100, 0b0111)]);
}

#[test]
fn power_node_request_filtered_by_enabled_mask() {
    let mut bmc = bmc_with(0b0001, 0);
    let r = bmc.power_node(0b1111);
    assert!(r.is_ok());
    assert_eq!(bmc.power_state, 0b0001);
    assert_eq!(
        bmc.pin_controller.ops,
        vec![PinOp::SetAtxPower(true), PinOp::SetPowerNode(0, 0b0001)]
    );
    assert!(bmc.pin_controller.atx_power);
}

#[test]
fn power_node_zero_request_is_full_power_off() {
    // explicit zero bypasses the enabled filter and drops the rail
    let mut bmc = bmc_with(0b0011, 0b0011);
    let r = bmc.power_node(0);
    assert!(r.is_ok());
    assert_eq!(bmc.power_state, 0);
    assert_eq!(
        bmc.pin_controller.ops,
        vec![PinOp::SetAtxPower(false), PinOp::SetPowerNode(0b0011, 0)]
    );
    assert!(!bmc.pin_controller.atx_power);
}

#[test]
fn power_node_twice_makes_no_second_hardware_call() {
    let mut bmc = bmc_with(0b0011, 0);
    assert!(bmc.power_node(0b0010).is_ok());
    let calls_after_first = bmc.pin_controller.ops.len();
    assert!(bmc.power_node(0b0010).is_ok());
    assert_eq!(bmc.pin_controller.ops.len(), calls_after_first);
    assert_eq!(bmc.power_state, 0b0010);
}

#[test]
fn power_node_noop_when_nothing_would_change() {
    // requesting a disabled slot while everything else is in place
    let mut bmc = bmc_with(0b0001, 0b0001);
    let r = bmc.power_node(0b0010);
    assert!(r.is_ok());
    assert_eq!(bmc.power_state, 0b0001);
    assert!(bmc.pin_controller.ops.is_empty());
}

#[test]
fn power_node_pin_fault_leaves_live_state_unmodified() {
    let mut bmc = bmc_with(0b0011, 0);
    bmc.pin_controller.healthy = false;
    let r = bmc.power_node(0b0001);
    assert_eq!(r, Err(BmcError::PinController));
    assert_eq!(bmc.power_state, 0);
    assert!(bmc.pin_controller.ops.is_empty());
    assert_eq!(bmc.app_db.node_enabled, Some(0b0011));
}

#[test]
fn power_node_fails_when_store_unreadable() {
    let mut bmc = bmc_with(0b0011, 0);
    bmc.app_db.healthy = false;
    let r = bmc.power_node(0b0001);
    assert_eq!(r, Err(BmcError::Persistency));
    assert_eq!(bmc.power_state, 0);
}

#[test]
fn power_node_fails_when_enabled_mask_absent() {
    let mut bmc = bmc_with(0, 0);
    bmc.app_db.node_enabled = None;
    let r = bmc.power_node(0b0001);
    assert_eq!(r, Err(BmcError::Persistency));
}

#[test]
fn power_on_respects_enabled_mask() {
    let mut bmc = bmc_with(0b0101, 0);
    assert!(bmc.power_on().is_ok());
    assert_eq!(bmc.power_state, 0b0101);
}

#[test]
fn power_off_clears_everything() {
    let mut bmc = bmc_with(0b0101, 0b0101);
    assert!(bmc.power_off().is_ok());
    assert_eq!(bmc.power_state, 0);
    assert!(!bmc.pin_controller.atx_power);
}

#[test]
fn get_node_power_tests_the_slot_bit() {
    let bmc = bmc_with(0b1111, 0b0101);
    assert_eq!(bmc.get_node_power(NodeId::Node1), Ok(true));
    assert_eq!(bmc.get_node_power(NodeId::Node2), Ok(false));
    assert_eq!(bmc.get_node_power(NodeId::Node3), Ok(true));
    assert_eq!(bmc.get_node_power(NodeId::Node4), Ok(false));
}

#[test]
fn toggle_power_states_flips_enabled_slots_on() {
    let mut bmc = bmc_with(0b0101, 0);
    let r = bmc.toggle_power_states();
    assert!(r.is_ok());
    assert_eq!(bmc.power_state, 0b0101);
    // the whole mask is inverted before the transition is computed, so the
    // transition the hardware sees starts from the inverted value
    assert_eq!(bmc.pin_controller.ops, vec![PinOp::SetPowerNode(0xff, 0b0101)]);
}

#[test]
fn toggle_power_states_flips_powered_slots_off() {
    let mut bmc = bmc_with(0b0011, 0);
    assert!(bmc.power_on().is_ok());
    assert_eq!(bmc.power_state, 0b0011);
    let r = bmc.toggle_power_states();
    assert!(r.is_ok());
    // inverted mask 0b11111100 still requests the disabled slots, which the
    // enabled filter drops; slots 1-2 leave the requested set and power off
    assert_eq!(bmc.power_state, 0);
}
