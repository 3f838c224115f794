//! Register map: the catalogue of register addresses and the bit-field
//! schema of each register.
//!
//! The device has two read-only status registers and two control registers,
//! each holding an 11-bit value. Every field below is defined by a mask and a
//! shift inside that value; the `spec_with_*` functions replace exactly the
//! bits of one field and leave every other bit of the register unchanged,
//! which the `lemma_with_*` proofs state field by field.

use vstd::prelude::*;

verus! {

/// Address of status register 1 (fault flags).
pub const STATUS_REGISTER_1: u8 = 0x00;

/// Address of status register 2 (GVDD overvoltage flag and device identity).
pub const STATUS_REGISTER_2: u8 = 0x01;

/// Address of control register 1 (gate current, gate reset, PWM mode,
/// overcurrent protection mode, overcurrent threshold).
pub const CONTROL_REGISTER_1: u8 = 0x02;

/// Address of control register 2 (warning-pin mode, amplifier gain,
/// DC calibration enables, off-time control).
pub const CONTROL_REGISTER_2: u8 = 0x03;

// ---------------------------------------------------------------------------
// Status register 1: eleven single-bit fault flags.
// ---------------------------------------------------------------------------

/// Master fault indicator (bit 10).
pub open spec fn status1_fault(v: u16) -> bool {
    v & 0x0400 != 0
}

/// GVDD undervoltage fault (bit 9).
pub open spec fn status1_gvdd_uv(v: u16) -> bool {
    v & 0x0200 != 0
}

/// PVDD undervoltage fault (bit 8).
pub open spec fn status1_pvdd_uv(v: u16) -> bool {
    v & 0x0100 != 0
}

/// Overtemperature shutdown (bit 7).
pub open spec fn status1_otsd(v: u16) -> bool {
    v & 0x0080 != 0
}

/// Overtemperature warning (bit 6).
pub open spec fn status1_otw(v: u16) -> bool {
    v & 0x0040 != 0
}

/// Phase A high-side FET overcurrent (bit 5).
pub open spec fn status1_fetha_oc(v: u16) -> bool {
    v & 0x0020 != 0
}

/// Phase A low-side FET overcurrent (bit 4).
pub open spec fn status1_fetla_oc(v: u16) -> bool {
    v & 0x0010 != 0
}

/// Phase B high-side FET overcurrent (bit 3).
pub open spec fn status1_fethb_oc(v: u16) -> bool {
    v & 0x0008 != 0
}

/// Phase B low-side FET overcurrent (bit 2).
pub open spec fn status1_fetlb_oc(v: u16) -> bool {
    v & 0x0004 != 0
}

/// Phase C high-side FET overcurrent (bit 1).
pub open spec fn status1_fethc_oc(v: u16) -> bool {
    v & 0x0002 != 0
}

/// Phase C low-side FET overcurrent (bit 0).
pub open spec fn status1_fetlc_oc(v: u16) -> bool {
    v & 0x0001 != 0
}

// ---------------------------------------------------------------------------
// Status register 2: GVDD overvoltage flag and the device identity field.
// ---------------------------------------------------------------------------

/// GVDD overvoltage fault (bit 7).
pub open spec fn status2_gvdd_ov(v: u16) -> bool {
    v & 0x0080 != 0
}

/// Device identity (bits 3..0).
pub open spec fn status2_device_id(v: u16) -> u8 {
    (v & 0x000F) as u8
}

// ---------------------------------------------------------------------------
// Enumerated field values.
// ---------------------------------------------------------------------------

/// Overcurrent (VDS) threshold selector: the 32 comparator levels of the
/// 5-bit `OC_ADJ_SET` field, named by their nominal VDS trip voltage.
#[derive(Clone, Copy, Debug, PartialEq, Eq, Structural)]
pub enum OcAdjSet {
    Vds60mV,
    Vds68mV,
    Vds76mV,
    Vds86mV,
    Vds97mV,
    Vds109mV,
    Vds123mV,
    Vds138mV,
    Vds155mV,
    Vds175mV,
    Vds197mV,
    Vds222mV,
    Vds250mV,
    Vds282mV,
    Vds317mV,
    Vds358mV,
    Vds403mV,
    Vds454mV,
    Vds511mV,
    Vds576mV,
    Vds648mV,
    Vds730mV,
    Vds822mV,
    Vds926mV,
    Vds1043mV,
    Vds1175mV,
    Vds1324mV,
    Vds1491mV,
    Vds1679mV,
    Vds1892mV,
    Vds2131mV,
    Vds2400mV,
}

impl OcAdjSet {
    /// The field value of this threshold level.
    pub open spec fn spec_bits(self) -> u16 {
        match self {
            OcAdjSet::Vds60mV => 0,
            OcAdjSet::Vds68mV => 1,
            OcAdjSet::Vds76mV => 2,
            OcAdjSet::Vds86mV => 3,
            OcAdjSet::Vds97mV => 4,
            OcAdjSet::Vds109mV => 5,
            OcAdjSet::Vds123mV => 6,
            OcAdjSet::Vds138mV => 7,
            OcAdjSet::Vds155mV => 8,
            OcAdjSet::Vds175mV => 9,
            OcAdjSet::Vds197mV => 10,
            OcAdjSet::Vds222mV => 11,
            OcAdjSet::Vds250mV => 12,
            OcAdjSet::Vds282mV => 13,
            OcAdjSet::Vds317mV => 14,
            OcAdjSet::Vds358mV => 15,
            OcAdjSet::Vds403mV => 16,
            OcAdjSet::Vds454mV => 17,
            OcAdjSet::Vds511mV => 18,
            OcAdjSet::Vds576mV => 19,
            OcAdjSet::Vds648mV => 20,
            OcAdjSet::Vds730mV => 21,
            OcAdjSet::Vds822mV => 22,
            OcAdjSet::Vds926mV => 23,
            OcAdjSet::Vds1043mV => 24,
            OcAdjSet::Vds1175mV => 25,
            OcAdjSet::Vds1324mV => 26,
            OcAdjSet::Vds1491mV => 27,
            OcAdjSet::Vds1679mV => 28,
            OcAdjSet::Vds1892mV => 29,
            OcAdjSet::Vds2131mV => 30,
            OcAdjSet::Vds2400mV => 31,
        }
    }

    /// The field value of this threshold level.
    #[verifier::when_used_as_spec(spec_bits)]
    pub fn bits(self) -> (r: u16)
        ensures
            r == self.spec_bits(),
            r < 32,
    {
        match self {
            OcAdjSet::Vds60mV => 0,
            OcAdjSet::Vds68mV => 1,
            OcAdjSet::Vds76mV => 2,
            OcAdjSet::Vds86mV => 3,
            OcAdjSet::Vds97mV => 4,
            OcAdjSet::Vds109mV => 5,
            OcAdjSet::Vds123mV => 6,
            OcAdjSet::Vds138mV => 7,
            OcAdjSet::Vds155mV => 8,
            OcAdjSet::Vds175mV => 9,
            OcAdjSet::Vds197mV => 10,
            OcAdjSet::Vds222mV => 11,
            OcAdjSet::Vds250mV => 12,
            OcAdjSet::Vds282mV => 13,
            OcAdjSet::Vds317mV => 14,
            OcAdjSet::Vds358mV => 15,
            OcAdjSet::Vds403mV => 16,
            OcAdjSet::Vds454mV => 17,
            OcAdjSet::Vds511mV => 18,
            OcAdjSet::Vds576mV => 19,
            OcAdjSet::Vds648mV => 20,
            OcAdjSet::Vds730mV => 21,
            OcAdjSet::Vds822mV => 22,
            OcAdjSet::Vds926mV => 23,
            OcAdjSet::Vds1043mV => 24,
            OcAdjSet::Vds1175mV => 25,
            OcAdjSet::Vds1324mV => 26,
            OcAdjSet::Vds1491mV => 27,
            OcAdjSet::Vds1679mV => 28,
            OcAdjSet::Vds1892mV => 29,
            OcAdjSet::Vds2131mV => 30,
            OcAdjSet::Vds2400mV => 31,
        }
    }
}

/// Overcurrent protection mode of the power stage.
#[derive(Clone, Copy, Debug, PartialEq, Eq, Structural)]
pub enum OcpMode {
    /// Limit the current cycle by cycle.
    CurrentLimit,
    /// Latch the affected outputs off on overcurrent.
    OcLatchShutdown,
    /// Report the overcurrent but take no action.
    ReportOnly,
    /// Disable overcurrent protection.
    OcDisabled,
}

impl OcpMode {
    /// The field value of this protection mode.
    pub open spec fn spec_bits(self) -> u16 {
        match self {
            OcpMode::CurrentLimit => 0,
            OcpMode::OcLatchShutdown => 1,
            OcpMode::ReportOnly => 2,
            OcpMode::OcDisabled => 3,
        }
    }

    /// The field value of this protection mode.
    #[verifier::when_used_as_spec(spec_bits)]
    pub fn bits(self) -> (r: u16)
        ensures
            r == self.spec_bits(),
            r < 4,
    {
        match self {
            OcpMode::CurrentLimit => 0,
            OcpMode::OcLatchShutdown => 1,
            OcpMode::ReportOnly => 2,
            OcpMode::OcDisabled => 3,
        }
    }
}

/// Peak gate drive current.
#[derive(Clone, Copy, Debug, PartialEq, Eq, Structural)]
pub enum GateCurrent {
    /// 1.7 A peak gate current.
    Peak1700mA,
    /// 0.7 A peak gate current.
    Peak700mA,
    /// 0.25 A peak gate current.
    Peak250mA,
}

impl GateCurrent {
    /// The field value of this gate-current setting.
    pub open spec fn spec_bits(self) -> u16 {
        match self {
            GateCurrent::Peak1700mA => 0,
            GateCurrent::Peak700mA => 1,
            GateCurrent::Peak250mA => 2,
        }
    }

    /// The field value of this gate-current setting.
    #[verifier::when_used_as_spec(spec_bits)]
    pub fn bits(self) -> (r: u16)
        ensures
            r == self.spec_bits(),
            r < 3,
    {
        match self {
            GateCurrent::Peak1700mA => 0,
            GateCurrent::Peak700mA => 1,
            GateCurrent::Peak250mA => 2,
        }
    }
}

/// Current shunt amplifier gain, in volts per volt.
#[derive(Clone, Copy, Debug, PartialEq, Eq, Structural)]
pub enum ShuntAmplifierGain {
    Gain10,
    Gain20,
    Gain40,
    Gain80,
}

impl ShuntAmplifierGain {
    /// The field value of this gain setting.
    pub open spec fn spec_bits(self) -> u16 {
        match self {
            ShuntAmplifierGain::Gain10 => 0,
            ShuntAmplifierGain::Gain20 => 1,
            ShuntAmplifierGain::Gain40 => 2,
            ShuntAmplifierGain::Gain80 => 3,
        }
    }

    /// The field value of this gain setting.
    #[verifier::when_used_as_spec(spec_bits)]
    pub fn bits(self) -> (r: u16)
        ensures
            r == self.spec_bits(),
            r < 4,
    {
        match self {
            ShuntAmplifierGain::Gain10 => 0,
            ShuntAmplifierGain::Gain20 => 1,
            ShuntAmplifierGain::Gain40 => 2,
            ShuntAmplifierGain::Gain80 => 3,
        }
    }
}

/// What the overcurrent/overtemperature warning pin reports.
#[derive(Clone, Copy, Debug, PartialEq, Eq, Structural)]
pub enum OctwMode {
    /// Report both overtemperature and overcurrent.
    OtAndOc,
    /// Report overtemperature only.
    OtOnly,
    /// Report overcurrent only.
    OcOnly,
}

impl OctwMode {
    /// The field value of this reporting mode.
    pub open spec fn spec_bits(self) -> u16 {
        match self {
            OctwMode::OtAndOc => 0,
            OctwMode::OtOnly => 1,
            OctwMode::OcOnly => 2,
        }
    }

    /// The field value of this reporting mode.
    #[verifier::when_used_as_spec(spec_bits)]
    pub fn bits(self) -> (r: u16)
        ensures
            r == self.spec_bits(),
            r < 3,
    {
        match self {
            OctwMode::OtAndOc => 0,
            OctwMode::OtOnly => 1,
            OctwMode::OcOnly => 2,
        }
    }
}

// ---------------------------------------------------------------------------
// Control register 1: GATE_CURRENT bits 1..0, GATE_RESET bit 2, PWM_MODE
// bit 3, OCP_MODE bits 5..4, OC_ADJ_SET bits 10..6.
// ---------------------------------------------------------------------------

/// Peak drive-current field of control register 1 (bits 1..0).
pub open spec fn gate_current_field(v: u16) -> u16 {
    v & 0x0003
}

/// The fault-reset flag of control register 1 (bit 2).
pub open spec fn gate_reset_field(v: u16) -> bool {
    v & 0x0004 != 0
}

/// The PWM-mode flag of control register 1 (bit 3); set selects 3-PWM.
pub open spec fn pwm_mode_field(v: u16) -> bool {
    v & 0x0008 != 0
}

/// The overcurrent-protection-mode field of control register 1 (bits 5..4).
pub open spec fn ocp_mode_field(v: u16) -> u16 {
    (v >> 4) & 0x0003
}

/// The overcurrent-threshold field of control register 1 (bits 10..6).
pub open spec fn oc_adj_set_field(v: u16) -> u16 {
    (v >> 6) & 0x001F
}

/// Register value `v` with its gate-drive current field replaced by `f`.
pub open spec fn spec_with_gate_current(v: u16, f: u16) -> u16 {
    (v & !0x0003u16) | (f & 0x0003)
}

/// Register value `v` with its fault-reset flag replaced by `f`.
pub open spec fn spec_with_gate_reset(v: u16, f: bool) -> u16 {
    if f {
        v | 0x0004
    } else {
        v & !0x0004u16
    }
}

/// Register value `v` with the PWM-mode flag replaced by `f`.
pub open spec fn spec_with_pwm_mode(v: u16, f: bool) -> u16 {
    if f {
        v | 0x0008
    } else {
        v & !0x0008u16
    }
}

/// Register value `v` with the overcurrent-protection-mode field replaced by
/// `f`.
pub open spec fn spec_with_ocp_mode(v: u16, f: u16) -> u16 {
    (v & !0x0030u16) | ((f & 0x0003) << 4)
}

/// Register value `v` with the overcurrent-threshold field replaced by `f`.
pub open spec fn spec_with_oc_adj_set(v: u16, f: u16) -> u16 {
    (v & !0x07C0u16) | ((f & 0x001F) << 6)
}

#[verifier::when_used_as_spec(spec_with_gate_current)]
pub fn with_gate_current(v: u16, f: u16) -> (r: u16)
    ensures
        r == spec_with_gate_current(v, f),
        v < 0x800 ==> r < 0x800,
{
    proof {
        assert(v < 0x800 ==> ((v & !0x0003u16) | (f & 0x0003)) < 0x800) by (bit_vector);
    }
    (v & !0x0003u16) | (f & 0x0003)
}

#[verifier::when_used_as_spec(spec_with_gate_reset)]
pub fn with_gate_reset(v: u16, f: bool) -> (r: u16)
    ensures
        r == spec_with_gate_reset(v, f),
        v < 0x800 ==> r < 0x800,
{
    proof {
        assert(v < 0x800 ==> (v | 0x0004) < 0x800 && (v & !0x0004u16) < 0x800) by (bit_vector);
    }
    if f {
        v | 0x0004
    } else {
        v & !0x0004u16
    }
}

#[verifier::when_used_as_spec(spec_with_pwm_mode)]
pub fn with_pwm_mode(v: u16, f: bool) -> (r: u16)
    ensures
        r == spec_with_pwm_mode(v, f),
        v < 0x800 ==> r < 0x800,
{
    proof {
        assert(v < 0x800 ==> (v | 0x0008) < 0x800 && (v & !0x0008u16) < 0x800) by (bit_vector);
    }
    if f {
        v | 0x0008
    } else {
        v & !0x0008u16
    }
}

#[verifier::when_used_as_spec(spec_with_ocp_mode)]
pub fn with_ocp_mode(v: u16, f: u16) -> (r: u16)
    ensures
        r == spec_with_ocp_mode(v, f),
        v < 0x800 ==> r < 0x800,
{
    proof {
        assert(v < 0x800 ==> ((v & !0x0030u16) | ((f & 0x0003) << 4)) < 0x800) by (bit_vector);
    }
    (v & !0x0030u16) | ((f & 0x0003) << 4)
}

#[verifier::when_used_as_spec(spec_with_oc_adj_set)]
pub fn with_oc_adj_set(v: u16, f: u16) -> (r: u16)
    ensures
        r == spec_with_oc_adj_set(v, f),
        v < 0x800 ==> r < 0x800,
{
    proof {
        assert(v < 0x800 ==> ((v & !0x07C0u16) | ((f & 0x001F) << 6)) < 0x800) by (bit_vector);
    }
    (v & !0x07C0u16) | ((f & 0x001F) << 6)
}

// ---------------------------------------------------------------------------
// Control register 2: OCTW_MODE bits 1..0, GAIN bits 3..2, DC_CAL_CH1 bit 4,
// DC_CAL_CH2 bit 5, OC_TOFF bit 6.
// ---------------------------------------------------------------------------

/// The warning-pin-mode field of control register 2 (bits 1..0).
pub open spec fn octw_mode_field(v: u16) -> u16 {
    v & 0x0003
}

/// The amplifier-gain field of control register 2 (bits 3..2).
pub open spec fn gain_field(v: u16) -> u16 {
    (v >> 2) & 0x0003
}

/// The channel-1 DC-calibration flag of control register 2 (bit 4).
pub open spec fn dc_cal_ch1_field(v: u16) -> bool {
    v & 0x0010 != 0
}

/// The channel-2 DC-calibration flag of control register 2 (bit 5).
pub open spec fn dc_cal_ch2_field(v: u16) -> bool {
    v & 0x0020 != 0
}

/// The off-time-control flag of control register 2 (bit 6).
pub open spec fn oc_toff_field(v: u16) -> bool {
    v & 0x0040 != 0
}

/// Register value `v` with the warning-pin-mode field replaced by `f`.
pub open spec fn spec_with_octw_mode(v: u16, f: u16) -> u16 {
    (v & !0x0003u16) | (f & 0x0003)
}

/// Register value `v` with the amplifier-gain field replaced by `f`.
pub open spec fn spec_with_gain(v: u16, f: u16) -> u16 {
    (v & !0x000Cu16) | ((f & 0x0003) << 2)
}

/// Register value `v` with the channel-1 DC-calibration flag replaced by `f`.
pub open spec fn spec_with_dc_cal_ch1(v: u16, f: bool) -> u16 {
    if f {
        v | 0x0010
    } else {
        v & !0x0010u16
    }
}

/// Register value `v` with the channel-2 DC-calibration flag replaced by `f`.
pub open spec fn spec_with_dc_cal_ch2(v: u16, f: bool) -> u16 {
    if f {
        v | 0x0020
    } else {
        v & !0x0020u16
    }
}

/// Register value `v` with the off-time-control flag replaced by `f`.
pub open spec fn spec_with_oc_toff(v: u16, f: bool) -> u16 {
    if f {
        v | 0x0040
    } else {
        v & !0x0040u16
    }
}

#[verifier::when_used_as_spec(spec_with_octw_mode)]
pub fn with_octw_mode(v: u16, f: u16) -> (r: u16)
    ensures
        r == spec_with_octw_mode(v, f),
        v < 0x800 ==> r < 0x800,
{
    proof {
        assert(v < 0x800 ==> ((v & !0x0003u16) | (f & 0x0003)) < 0x800) by (bit_vector);
    }
    (v & !0x0003u16) | (f & 0x0003)
}

#[verifier::when_used_as_spec(spec_with_gain)]
pub fn with_gain(v: u16, f: u16) -> (r: u16)
    ensures
        r == spec_with_gain(v, f),
        v < 0x800 ==> r < 0x800,
{
    proof {
        assert(v < 0x800 ==> ((v & !0x000Cu16) | ((f & 0x0003) << 2)) < 0x800) by (bit_vector);
    }
    (v & !0x000Cu16) | ((f & 0x0003) << 2)
}

#[verifier::when_used_as_spec(spec_with_dc_cal_ch1)]
pub fn with_dc_cal_ch1(v: u16, f: bool) -> (r: u16)
    ensures
        r == spec_with_dc_cal_ch1(v, f),
        v < 0x800 ==> r < 0x800,
{
    proof {
        assert(v < 0x800 ==> (v | 0x0010) < 0x800 && (v & !0x0010u16) < 0x800) by (bit_vector);
    }
    if f {
        v | 0x0010
    } else {
        v & !0x0010u16
    }
}

#[verifier::when_used_as_spec(spec_with_dc_cal_ch2)]
pub fn with_dc_cal_ch2(v: u16, f: bool) -> (r: u16)
    ensures
        r == spec_with_dc_cal_ch2(v, f),
        v < 0x800 ==> r < 0x800,
{
    proof {
        assert(v < 0x800 ==> (v | 0x0020) < 0x800 && (v & !0x0020u16) < 0x800) by (bit_vector);
    }
    if f {
        v | 0x0020
    } else {
        v & !0x0020u16
    }
}

#[verifier::when_used_as_spec(spec_with_oc_toff)]
pub fn with_oc_toff(v: u16, f: bool) -> (r: u16)
    ensures
        r == spec_with_oc_toff(v, f),
        v < 0x800 ==> r < 0x800,
{
    proof {
        assert(v < 0x800 ==> (v | 0x0040) < 0x800 && (v & !0x0040u16) < 0x800) by (bit_vector);
    }
    if f {
        v | 0x0040
    } else {
        v & !0x0040u16
    }
}

// ---------------------------------------------------------------------------
// Field-update laws. For each field of a control register: the update stores
// exactly the requested value, leaves every bit outside its own mask (and so
// every other field) unchanged, and is idempotent.
// ---------------------------------------------------------------------------

/// Updating its gate-drive current field stores the value, leaves every other
/// field of control register 1 unchanged, and is idempotent.
pub proof fn lemma_with_gate_current(v: u16, f: u16)
    by (bit_vector)
    ensures
        gate_current_field(spec_with_gate_current(v, f)) == f & 0x0003,
        spec_with_gate_current(v, f) & !0x0003u16 == v & !0x0003u16,
        gate_reset_field(spec_with_gate_current(v, f)) == gate_reset_field(v),
        pwm_mode_field(spec_with_gate_current(v, f)) == pwm_mode_field(v),
        ocp_mode_field(spec_with_gate_current(v, f)) == ocp_mode_field(v),
        oc_adj_set_field(spec_with_gate_current(v, f)) == oc_adj_set_field(v),
        spec_with_gate_current(spec_with_gate_current(v, f), f) == spec_with_gate_current(v, f),
{
}

/// Updating its fault-reset flag stores the value, leaves every other field
/// of control register 1 unchanged, and is idempotent.
pub proof fn lemma_with_gate_reset(v: u16, f: bool)
    by (bit_vector)
    ensures
        gate_reset_field(spec_with_gate_reset(v, f)) == f,
        spec_with_gate_reset(v, f) & !0x0004u16 == v & !0x0004u16,
        gate_current_field(spec_with_gate_reset(v, f)) == gate_current_field(v),
        pwm_mode_field(spec_with_gate_reset(v, f)) == pwm_mode_field(v),
        ocp_mode_field(spec_with_gate_reset(v, f)) == ocp_mode_field(v),
        oc_adj_set_field(spec_with_gate_reset(v, f)) == oc_adj_set_field(v),
        spec_with_gate_reset(spec_with_gate_reset(v, f), f) == spec_with_gate_reset(v, f),
{
}

/// Updating the PWM-mode flag stores the value, leaves every other field of
/// control register 1 unchanged, and is idempotent.
pub proof fn lemma_with_pwm_mode(v: u16, f: bool)
    by (bit_vector)
    ensures
        pwm_mode_field(spec_with_pwm_mode(v, f)) == f,
        spec_with_pwm_mode(v, f) & !0x0008u16 == v & !0x0008u16,
        gate_current_field(spec_with_pwm_mode(v, f)) == gate_current_field(v),
        gate_reset_field(spec_with_pwm_mode(v, f)) == gate_reset_field(v),
        ocp_mode_field(spec_with_pwm_mode(v, f)) == ocp_mode_field(v),
        oc_adj_set_field(spec_with_pwm_mode(v, f)) == oc_adj_set_field(v),
        spec_with_pwm_mode(spec_with_pwm_mode(v, f), f) == spec_with_pwm_mode(v, f),
{
}

/// Updating the overcurrent-protection-mode field stores the value, leaves
/// every other field of control register 1 unchanged, and is idempotent.
pub proof fn lemma_with_ocp_mode(v: u16, f: u16)
    by (bit_vector)
    ensures
        ocp_mode_field(spec_with_ocp_mode(v, f)) == f & 0x0003,
        spec_with_ocp_mode(v, f) & !0x0030u16 == v & !0x0030u16,
        gate_current_field(spec_with_ocp_mode(v, f)) == gate_current_field(v),
        gate_reset_field(spec_with_ocp_mode(v, f)) == gate_reset_field(v),
        pwm_mode_field(spec_with_ocp_mode(v, f)) == pwm_mode_field(v),
        oc_adj_set_field(spec_with_ocp_mode(v, f)) == oc_adj_set_field(v),
        spec_with_ocp_mode(spec_with_ocp_mode(v, f), f) == spec_with_ocp_mode(v, f),
{
}

/// Updating the overcurrent-threshold field stores the value, leaves every
/// other field of control register 1 unchanged, and is idempotent.
pub proof fn lemma_with_oc_adj_set(v: u16, f: u16)
    by (bit_vector)
    ensures
        oc_adj_set_field(spec_with_oc_adj_set(v, f)) == f & 0x001F,
        spec_with_oc_adj_set(v, f) & !0x07C0u16 == v & !0x07C0u16,
        gate_current_field(spec_with_oc_adj_set(v, f)) == gate_current_field(v),
        gate_reset_field(spec_with_oc_adj_set(v, f)) == gate_reset_field(v),
        pwm_mode_field(spec_with_oc_adj_set(v, f)) == pwm_mode_field(v),
        ocp_mode_field(spec_with_oc_adj_set(v, f)) == ocp_mode_field(v),
        spec_with_oc_adj_set(spec_with_oc_adj_set(v, f), f) == spec_with_oc_adj_set(v, f),
{
}

/// Updating the warning-pin-mode field stores the value, leaves every other
/// field of control register 2 unchanged, and is idempotent.
pub proof fn lemma_with_octw_mode(v: u16, f: u16)
    by (bit_vector)
    ensures
        octw_mode_field(spec_with_octw_mode(v, f)) == f & 0x0003,
        spec_with_octw_mode(v, f) & !0x0003u16 == v & !0x0003u16,
        gain_field(spec_with_octw_mode(v, f)) == gain_field(v),
        dc_cal_ch1_field(spec_with_octw_mode(v, f)) == dc_cal_ch1_field(v),
        dc_cal_ch2_field(spec_with_octw_mode(v, f)) == dc_cal_ch2_field(v),
        oc_toff_field(spec_with_octw_mode(v, f)) == oc_toff_field(v),
        spec_with_octw_mode(spec_with_octw_mode(v, f), f) == spec_with_octw_mode(v, f),
{
}

/// Updating the amplifier-gain field stores the value, leaves every other
/// field of control register 2 unchanged, and is idempotent.
pub proof fn lemma_with_gain(v: u16, f: u16)
    by (bit_vector)
    ensures
        gain_field(spec_with_gain(v, f)) == f & 0x0003,
        spec_with_gain(v, f) & !0x000Cu16 == v & !0x000Cu16,
        octw_mode_field(spec_with_gain(v, f)) == octw_mode_field(v),
        dc_cal_ch1_field(spec_with_gain(v, f)) == dc_cal_ch1_field(v),
        dc_cal_ch2_field(spec_with_gain(v, f)) == dc_cal_ch2_field(v),
        oc_toff_field(spec_with_gain(v, f)) == oc_toff_field(v),
        spec_with_gain(spec_with_gain(v, f), f) == spec_with_gain(v, f),
{
}

/// Updating the channel-1 DC-calibration flag stores the value, leaves every
/// other field of control register 2 unchanged, and is idempotent.
pub proof fn lemma_with_dc_cal_ch1(v: u16, f: bool)
    by (bit_vector)
    ensures
        dc_cal_ch1_field(spec_with_dc_cal_ch1(v, f)) == f,
        spec_with_dc_cal_ch1(v, f) & !0x0010u16 == v & !0x0010u16,
        octw_mode_field(spec_with_dc_cal_ch1(v, f)) == octw_mode_field(v),
        gain_field(spec_with_dc_cal_ch1(v, f)) == gain_field(v),
        dc_cal_ch2_field(spec_with_dc_cal_ch1(v, f)) == dc_cal_ch2_field(v),
        oc_toff_field(spec_with_dc_cal_ch1(v, f)) == oc_toff_field(v),
        spec_with_dc_cal_ch1(spec_with_dc_cal_ch1(v, f), f) == spec_with_dc_cal_ch1(v, f),
{
}

/// Updating the channel-2 DC-calibration flag stores the value, leaves every
/// other field of control register 2 unchanged, and is idempotent.
pub proof fn lemma_with_dc_cal_ch2(v: u16, f: bool)
    by (bit_vector)
    ensures
        dc_cal_ch2_field(spec_with_dc_cal_ch2(v, f)) == f,
        spec_with_dc_cal_ch2(v, f) & !0x0020u16 == v & !0x0020u16,
        octw_mode_field(spec_with_dc_cal_ch2(v, f)) == octw_mode_field(v),
        gain_field(spec_with_dc_cal_ch2(v, f)) == gain_field(v),
        dc_cal_ch1_field(spec_with_dc_cal_ch2(v, f)) == dc_cal_ch1_field(v),
        oc_toff_field(spec_with_dc_cal_ch2(v, f)) == oc_toff_field(v),
        spec_with_dc_cal_ch2(spec_with_dc_cal_ch2(v, f), f) == spec_with_dc_cal_ch2(v, f),
{
}

/// Updating the off-time-control flag stores the value, leaves every other
/// field of control register 2 unchanged, and is idempotent.
pub proof fn lemma_with_oc_toff(v: u16, f: bool)
    by (bit_vector)
    ensures
        oc_toff_field(spec_with_oc_toff(v, f)) == f,
        spec_with_oc_toff(v, f) & !0x0040u16 == v & !0x0040u16,
        octw_mode_field(spec_with_oc_toff(v, f)) == octw_mode_field(v),
        gain_field(spec_with_oc_toff(v, f)) == gain_field(v),
        dc_cal_ch1_field(spec_with_oc_toff(v, f)) == dc_cal_ch1_field(v),
        dc_cal_ch2_field(spec_with_oc_toff(v, f)) == dc_cal_ch2_field(v),
        spec_with_oc_toff(spec_with_oc_toff(v, f), f) == spec_with_oc_toff(v, f),
{
}

} // verus!
