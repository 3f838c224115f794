//! Aggregate fault status, decoded fresh from the two status registers on
//! each query.

use vstd::prelude::*;
use crate::fields::{
    status1_fault, status1_fetha_oc, status1_fethb_oc, status1_fethc_oc, status1_fetla_oc,
    status1_fetlb_oc, status1_fetlc_oc, status1_gvdd_uv, status1_otsd, status1_otw,
    status1_pvdd_uv, status2_device_id, status2_gvdd_ov,
};

verus! {

/// Complete fault status of the device, decoded from both status registers.
///
/// The master `fault` flag is reported by the device as the OR of the
/// detailed conditions, but the wire protocol does not enforce that, so the
/// flags are carried independently here.
#[derive(Clone, Copy, Debug, PartialEq, Eq, Structural)]
pub struct FaultStatus {
    /// Master fault indicator (OR of all fault conditions).
    pub fault: bool,
    /// GVDD undervoltage fault.
    pub gvdd_uv: bool,
    /// GVDD overvoltage fault.
    pub gvdd_ov: bool,
    /// PVDD undervoltage fault.
    pub pvdd_uv: bool,
    /// Overtemperature shutdown.
    pub otsd: bool,
    /// Overtemperature warning.
    pub otw: bool,
    /// Phase A high-side FET overcurrent.
    pub fetha_oc: bool,
    /// Phase A low-side FET overcurrent.
    pub fetla_oc: bool,
    /// Phase B high-side FET overcurrent.
    pub fethb_oc: bool,
    /// Phase B low-side FET overcurrent.
    pub fetlb_oc: bool,
    /// Phase C high-side FET overcurrent.
    pub fethc_oc: bool,
    /// Phase C low-side FET overcurrent.
    pub fetlc_oc: bool,
    /// Device identity field.
    pub device_id: u8,
}

/// The fault status decoded from the values of status register 1 (`s1`) and
/// status register 2 (`s2`).
pub open spec fn spec_fault_status(s1: u16, s2: u16) -> FaultStatus {
    FaultStatus {
        fault: status1_fault(s1),
        gvdd_uv: status1_gvdd_uv(s1),
        gvdd_ov: status2_gvdd_ov(s2),
        pvdd_uv: status1_pvdd_uv(s1),
        otsd: status1_otsd(s1),
        otw: status1_otw(s1),
        fetha_oc: status1_fetha_oc(s1),
        fetla_oc: status1_fetla_oc(s1),
        fethb_oc: status1_fethb_oc(s1),
        fetlb_oc: status1_fetlb_oc(s1),
        fethc_oc: status1_fethc_oc(s1),
        fetlc_oc: status1_fetlc_oc(s1),
        device_id: status2_device_id(s2),
    }
}

impl FaultStatus {
    /// Decode the fault status from the two status register values.
    pub fn from_registers(s1: u16, s2: u16) -> (r: FaultStatus)
        ensures
            r == spec_fault_status(s1, s2),
    {
        FaultStatus {
            fault: (s1 & 0x0400) != 0,
            gvdd_uv: (s1 & 0x0200) != 0,
            gvdd_ov: (s2 & 0x0080) != 0,
            pvdd_uv: (s1 & 0x0100) != 0,
            otsd: (s1 & 0x0080) != 0,
            otw: (s1 & 0x0040) != 0,
            fetha_oc: (s1 & 0x0020) != 0,
            fetla_oc: (s1 & 0x0010) != 0,
            fethb_oc: (s1 & 0x0008) != 0,
            fetlb_oc: (s1 & 0x0004) != 0,
            fethc_oc: (s1 & 0x0002) != 0,
            fetlc_oc: (s1 & 0x0001) != 0,
            device_id: (s2 & 0x000F) as u8,
        }
    }

    /// True if any overcurrent fault is active on any phase.
    pub fn has_overcurrent(&self) -> (r: bool)
        ensures
            r == (self.fetha_oc || self.fetla_oc || self.fethb_oc || self.fetlb_oc
                || self.fethc_oc || self.fetlc_oc),
    {
        self.fetha_oc || self.fetla_oc || self.fethb_oc || self.fetlb_oc || self.fethc_oc
            || self.fetlc_oc
    }

    /// True if any thermal condition (warning or shutdown) is active.
    pub fn has_thermal(&self) -> (r: bool)
        ensures
            r == (self.otsd || self.otw),
    {
        self.otsd || self.otw
    }

    /// True if any voltage fault (undervoltage or overvoltage) is active.
    pub fn has_voltage_fault(&self) -> (r: bool)
        ensures
            r == (self.gvdd_uv || self.gvdd_ov || self.pvdd_uv),
    {
        self.gvdd_uv || self.gvdd_ov || self.pvdd_uv
    }

    /// True if no fault is active.
    pub fn is_ok(&self) -> (r: bool)
        ensures
            r == !self.fault,
    {
        !self.fault
    }

    /// True if any phase A FET has an overcurrent fault.
    pub fn phase_a_overcurrent(&self) -> (r: bool)
        ensures
            r == (self.fetha_oc || self.fetla_oc),
    {
        self.fetha_oc || self.fetla_oc
    }

    /// True if any phase B FET has an overcurrent fault.
    pub fn phase_b_overcurrent(&self) -> (r: bool)
        ensures
            r == (self.fethb_oc || self.fetlb_oc),
    {
        self.fethb_oc || self.fetlb_oc
    }

    /// True if any phase C FET has an overcurrent fault.
    pub fn phase_c_overcurrent(&self) -> (r: bool)
        ensures
            r == (self.fethc_oc || self.fetlc_oc),
    {
        self.fethc_oc || self.fetlc_oc
    }
}

impl Default for FaultStatus {
    /// The all-clear status: every flag false and a zero identity.
    fn default() -> (r: Self)
        ensures
            r == (FaultStatus {
                fault: false,
                gvdd_uv: false,
                gvdd_ov: false,
                pvdd_uv: false,
                otsd: false,
                otw: false,
                fetha_oc: false,
                fetla_oc: false,
                fethb_oc: false,
                fetlb_oc: false,
                fethc_oc: false,
                fetlc_oc: false,
                device_id: 0,
            }),
    {
        FaultStatus {
            fault: false,
            gvdd_uv: false,
            gvdd_ov: false,
            pvdd_uv: false,
            otsd: false,
            otw: false,
            fetha_oc: false,
            fetla_oc: false,
            fethb_oc: false,
            fetlb_oc: false,
            fethc_oc: false,
            fetlc_oc: false,
            device_id: 0,
        }
    }
}

} // verus!
