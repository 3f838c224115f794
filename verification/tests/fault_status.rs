//! FaultStatus decoding and helper predicates.

use drv8301_dd::FaultStatus;

#[test]
fn decodes_each_flag_from_its_bit() {
    let s = FaultStatus::from_registers(0x0400, 0x0000);
    assert!(s.fault && !s.gvdd_uv && !s.has_overcurrent());

    let s = FaultStatus::from_registers(0x0200, 0x0000);
    assert!(s.gvdd_uv && s.has_voltage_fault());

    let s = FaultStatus::from_registers(0x0100, 0x0000);
    assert!(s.pvdd_uv && s.has_voltage_fault());

    let s = FaultStatus::from_registers(0x0080, 0x0000);
    assert!(s.otsd && s.has_thermal());

    let s = FaultStatus::from_registers(0x0040, 0x0000);
    assert!(s.otw && s.has_thermal());

    let s = FaultStatus::from_registers(0x0000, 0x0080);
    assert!(s.gvdd_ov && s.has_voltage_fault());
}

#[test]
fn phase_overcurrent_predicates() {
    let s = FaultStatus::from_registers(0x0020, 0x0000);
    assert!(s.fetha_oc && s.phase_a_overcurrent());
    assert!(!s.phase_b_overcurrent() && !s.phase_c_overcurrent());

    let s = FaultStatus::from_registers(0x0010, 0x0000);
    assert!(s.fetla_oc && s.phase_a_overcurrent());

    let s = FaultStatus::from_registers(0x0008, 0x0000);
    assert!(s.fethb_oc && s.phase_b_overcurrent());

    let s = FaultStatus::from_registers(0x0004, 0x0000);
    assert!(s.fetlb_oc && s.phase_b_overcurrent());

    let s = FaultStatus::from_registers(0x0002, 0x0000);
    assert!(s.fethc_oc && s.phase_c_overcurrent());

    let s = FaultStatus::from_registers(0x0001, 0x0000);
    assert!(s.fetlc_oc && s.phase_c_overcurrent());

    let s = FaultStatus::from_registers(0x003F, 0x0000);
    assert!(s.has_overcurrent());
    assert!(s.phase_a_overcurrent() && s.phase_b_overcurrent() && s.phase_c_overcurrent());
}

#[test]
fn is_ok_follows_the_master_fault_flag_only() {
    let s = FaultStatus::from_registers(0x0000, 0x0000);
    assert!(s.is_ok());

    let s = FaultStatus::from_registers(0x0400, 0x0000);
    assert!(!s.is_ok());

    // The wire protocol does not enforce consistency between the master
    // flag and the detailed flags; is_ok goes by the master flag alone.
    let s = FaultStatus::from_registers(0x0001, 0x0000);
    assert!(s.is_ok() && s.has_overcurrent());
}

#[test]
fn device_id_is_the_low_nibble_of_status_2() {
    let s = FaultStatus::from_registers(0x0000, 0x000F);
    assert_eq!(s.device_id, 0xF);

    let s = FaultStatus::from_registers(0x0000, 0x07F5);
    assert_eq!(s.device_id, 0x5);
}

#[test]
fn default_is_all_clear() {
    let s = FaultStatus::default();
    assert!(s.is_ok());
    assert!(!s.has_overcurrent() && !s.has_thermal() && !s.has_voltage_fault());
    assert_eq!(s.device_id, 0);
    assert_eq!(s, FaultStatus::from_registers(0, 0));
}
