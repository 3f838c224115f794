//! Command layer tests: fault queries and the read-modify-write setters,
//! checked frame by frame against the scripted transport.

use drv8301_dd::sim::ScriptedTransport;
use drv8301_dd::{
    Drv8301, DrvError, GateCurrent, OcAdjSet, OcpMode, OctwMode, ShuntAmplifierGain,
};

fn driver_with(replies: Vec<u16>) -> Drv8301<ScriptedTransport> {
    Drv8301::new(ScriptedTransport::new(replies))
}

#[test]
fn has_fault_reads_status_register_1() {
    let mut drv = driver_with(vec![0x0000, 0x0400]);
    assert_eq!(drv.has_fault().unwrap(), true);
    assert_eq!(drv.ll.spi_bus.sent, vec![0x8000, 0x8000]);

    let mut drv = driver_with(vec![0x0000, 0x03FF]);
    assert_eq!(drv.has_fault().unwrap(), false, "bit 10 alone is the master fault");
}

#[test]
fn get_device_id_reads_status_register_2() {
    let mut drv = driver_with(vec![0x0000, 0x000A]);
    assert_eq!(drv.get_device_id().unwrap(), 0xA);
    assert_eq!(drv.ll.spi_bus.sent, vec![0x8800, 0x8800]);

    let mut drv = driver_with(vec![0x0000, 0x07FA]);
    assert_eq!(drv.get_device_id().unwrap(), 0xA, "only bits 3..0 are the identity");
}

#[test]
fn get_fault_status_reads_both_status_registers() {
    let mut drv = driver_with(vec![0xFFFF, 0x07FF, 0xFFFF, 0x008B]);
    let status = drv.get_fault_status().unwrap();
    assert_eq!(drv.ll.spi_bus.sent, vec![0x8000, 0x8000, 0x8800, 0x8800]);
    assert!(status.fault);
    assert!(status.gvdd_uv);
    assert!(status.pvdd_uv);
    assert!(status.otsd);
    assert!(status.otw);
    assert!(status.fetha_oc);
    assert!(status.fetla_oc);
    assert!(status.fethb_oc);
    assert!(status.fetlb_oc);
    assert!(status.fethc_oc);
    assert!(status.fetlc_oc);
    assert!(status.gvdd_ov);
    assert_eq!(status.device_id, 0xB);
}

#[test]
fn get_fault_status_all_clear() {
    let mut drv = driver_with(vec![0x0000, 0x0000, 0x0000, 0x0001]);
    let status = drv.get_fault_status().unwrap();
    assert!(status.is_ok());
    assert!(!status.has_overcurrent());
    assert!(!status.has_thermal());
    assert!(!status.has_voltage_fault());
    assert_eq!(status.device_id, 0x1);
}

#[test]
fn set_oc_threshold_from_zero_sets_only_the_threshold_field() {
    // Control register 1 reads back as all zeroes; selecting the second
    // enumerated threshold level must produce exactly that level's pattern
    // in the threshold sub-field and zero everywhere else.
    let mut drv = driver_with(vec![0x0000, 0x0000, 0x0000]);
    drv.set_oc_threshold(OcAdjSet::Vds68mV).unwrap();
    assert_eq!(drv.ll.spi_bus.sent, vec![0x9000, 0x9000, 0x1040]);
}

#[test]
fn set_oc_threshold_preserves_every_other_field() {
    // Current value has gate current, gate reset, PWM mode and OCP mode all
    // set; only bits 10..6 may change.
    let mut drv = driver_with(vec![0x0000, 0x003F, 0x0000]);
    drv.set_oc_threshold(OcAdjSet::Vds2400mV).unwrap();
    let written = drv.ll.spi_bus.sent[2] & 0x07FF;
    assert_eq!(written, 0x07FF);
    assert_eq!(written & !0x07C0, 0x003F, "fields outside the threshold are unchanged");
    assert_eq!((written >> 6) & 0x1F, 31);
}

#[test]
fn set_ocp_mode_writes_bits_5_4() {
    let mut drv = driver_with(vec![0x0000, 0x07FF, 0x0000]);
    drv.set_ocp_mode(OcpMode::ReportOnly).unwrap();
    assert_eq!(drv.ll.spi_bus.sent, vec![0x9000, 0x9000, 0x17EF]);
}

#[test]
fn set_pwm_mode_writes_bit_3() {
    let mut drv = driver_with(vec![0x0000, 0x0123, 0x0000]);
    drv.set_pwm_mode(true).unwrap();
    assert_eq!(drv.ll.spi_bus.sent, vec![0x9000, 0x9000, 0x112B]);

    let mut drv = driver_with(vec![0x0000, 0x012B, 0x0000]);
    drv.set_pwm_mode(false).unwrap();
    assert_eq!(drv.ll.spi_bus.sent[2], 0x1123);
}

#[test]
fn same_setter_twice_writes_the_same_value() {
    // Idempotence: after the first set, a second identical set reads the
    // just-written value back and writes it unchanged.
    let mut drv = driver_with(vec![0x0000, 0x0123, 0x0000]);
    drv.set_pwm_mode(true).unwrap();
    let first_written = drv.ll.spi_bus.sent[2] & 0x07FF;

    let mut drv = driver_with(vec![0x0000, first_written, 0x0000]);
    drv.set_pwm_mode(true).unwrap();
    let second_written = drv.ll.spi_bus.sent[2] & 0x07FF;
    assert_eq!(second_written, first_written);

    let mut drv = driver_with(vec![0x0000, 0x0155, 0x0000]);
    drv.set_oc_threshold(OcAdjSet::Vds250mV).unwrap();
    let first_written = drv.ll.spi_bus.sent[2] & 0x07FF;

    let mut drv = driver_with(vec![0x0000, first_written, 0x0000]);
    drv.set_oc_threshold(OcAdjSet::Vds250mV).unwrap();
    let second_written = drv.ll.spi_bus.sent[2] & 0x07FF;
    assert_eq!(second_written, first_written);
}

#[test]
fn reset_gate_faults_sets_bit_2() {
    let mut drv = driver_with(vec![0x0000, 0x0000, 0x0000]);
    drv.reset_gate_faults().unwrap();
    assert_eq!(drv.ll.spi_bus.sent, vec![0x9000, 0x9000, 0x1004]);
}

#[test]
fn set_gate_current_writes_bits_1_0() {
    let mut drv = driver_with(vec![0x0000, 0x07FF, 0x0000]);
    drv.set_gate_current(GateCurrent::Peak250mA).unwrap();
    assert_eq!(drv.ll.spi_bus.sent, vec![0x9000, 0x9000, 0x17FE]);
}

#[test]
fn set_shunt_amplifier_gain_writes_bits_3_2() {
    let mut drv = driver_with(vec![0x0000, 0x0000, 0x0000]);
    drv.set_shunt_amplifier_gain(ShuntAmplifierGain::Gain80).unwrap();
    assert_eq!(drv.ll.spi_bus.sent, vec![0x9800, 0x9800, 0x180C]);
}

#[test]
fn set_octw_mode_writes_bits_1_0() {
    let mut drv = driver_with(vec![0x0000, 0x007F, 0x0000]);
    drv.set_octw_mode(OctwMode::OcOnly).unwrap();
    assert_eq!(drv.ll.spi_bus.sent, vec![0x9800, 0x9800, 0x187E]);
}

#[test]
fn set_dc_cal_channels_write_bits_4_and_5() {
    let mut drv = driver_with(vec![0x0000, 0x0000, 0x0000]);
    drv.set_dc_cal_ch1(true).unwrap();
    assert_eq!(drv.ll.spi_bus.sent[2], 0x1810);

    let mut drv = driver_with(vec![0x0000, 0x007F, 0x0000]);
    drv.set_dc_cal_ch1(false).unwrap();
    assert_eq!(drv.ll.spi_bus.sent[2], 0x186F);

    let mut drv = driver_with(vec![0x0000, 0x0000, 0x0000]);
    drv.set_dc_cal_ch2(true).unwrap();
    assert_eq!(drv.ll.spi_bus.sent[2], 0x1820);
}

#[test]
fn set_oc_toff_writes_bit_6() {
    let mut drv = driver_with(vec![0x0000, 0x0000, 0x0000]);
    drv.set_oc_toff(true).unwrap();
    assert_eq!(drv.ll.spi_bus.sent[2], 0x1840);

    let mut drv = driver_with(vec![0x0000, 0x007F, 0x0000]);
    drv.set_oc_toff(false).unwrap();
    assert_eq!(drv.ll.spi_bus.sent[2], 0x183F);
}

#[test]
fn setter_stops_after_frame_error_without_writing() {
    let mut drv = driver_with(vec![0x0000, 0x8000, 0x0000]);
    let r = drv.set_pwm_mode(true);
    assert!(matches!(r, Err(DrvError::FrameError)));
    assert_eq!(drv.ll.spi_bus.sent, vec![0x9000, 0x9000]);
}

#[test]
fn setter_propagates_transport_failure_on_the_write() {
    let mut drv = driver_with(vec![0x0000, 0x0000]);
    let r = drv.set_oc_toff(true);
    assert!(matches!(r, Err(DrvError::Spi(_))));
    assert_eq!(drv.ll.spi_bus.sent, vec![0x9800, 0x9800]);
}

#[test]
fn query_propagates_transport_failure() {
    let mut drv = driver_with(vec![]);
    assert!(matches!(drv.has_fault(), Err(DrvError::Spi(_))));

    let mut drv = driver_with(vec![0x0000, 0x0000]);
    assert!(matches!(drv.get_fault_status(), Err(DrvError::Spi(_))));
    assert_eq!(drv.ll.spi_bus.sent, vec![0x8000, 0x8000]);
}
