//! Command layer: the named device operations, each a single register read
//! or a read-modify-write sequence executed through the register access
//! engine.
//!
//! Every contract is stated over the transport's exchange log: which frames
//! a successful call appends, and what the returned value is as a function
//! of the replies in that log. Errors pass through unchanged; nothing is
//! retried or substituted.

use vstd::prelude::*;
use vstd::seq_lib::*;
use crate::engine::{DrvError, DrvInterface, Transport};
use crate::fields::{
    status1_fault, status2_device_id, spec_with_dc_cal_ch1, spec_with_dc_cal_ch2, spec_with_gain,
    spec_with_gate_current, spec_with_gate_reset, spec_with_oc_adj_set, spec_with_oc_toff,
    spec_with_ocp_mode, spec_with_octw_mode, spec_with_pwm_mode, with_dc_cal_ch1, with_dc_cal_ch2,
    with_gain, with_gate_current, with_gate_reset, with_oc_adj_set, with_oc_toff, with_ocp_mode,
    with_octw_mode, with_pwm_mode, GateCurrent, OcAdjSet, OcpMode, OctwMode, ShuntAmplifierGain,
    CONTROL_REGISTER_1, CONTROL_REGISTER_2, STATUS_REGISTER_1, STATUS_REGISTER_2,
};
use crate::frame::{spec_frame_data, spec_frame_error, spec_read_frame, spec_write_frame};
use crate::status::{spec_fault_status, FaultStatus};

verus! {

/// A transport whose bus error is the one this driver's operations report:
/// the interface the driver currently requires from its register engine.
pub trait CurrentDrvDriverInterface: Transport {

}

impl<T: Transport> CurrentDrvDriverInterface for T {

}

/// The log grew by exactly the two exchanges of one logical read of
/// `address`: both sent frames are the read command for `address`.
pub open spec fn spec_read_exchanges(
    log0: Seq<(u16, u16)>,
    log1: Seq<(u16, u16)>,
    address: u8,
) -> bool {
    &&& log1.len() == log0.len() + 2
    &&& log0.is_prefix_of(log1)
    &&& log1[log0.len() as int].0 == spec_read_frame(address)
    &&& log1[log0.len() as int + 1].0 == spec_read_frame(address)
}

/// One logical read of `address` completed and its second reply carried no
/// frame error.
pub open spec fn spec_good_read(
    log0: Seq<(u16, u16)>,
    log1: Seq<(u16, u16)>,
    address: u8,
) -> bool {
    &&& spec_read_exchanges(log0, log1, address)
    &&& !spec_frame_error(log1.last().1)
}

/// One logical read of `address` completed but the device flagged a frame
/// error in the second reply, so its data was discarded.
pub open spec fn spec_failed_read(
    log0: Seq<(u16, u16)>,
    log1: Seq<(u16, u16)>,
    address: u8,
) -> bool {
    &&& spec_read_exchanges(log0, log1, address)
    &&& spec_frame_error(log1.last().1)
}

/// A logical read of `address` stopped at a transport failure: at most one
/// exchange went through, and whatever was sent was the read command.
pub open spec fn spec_aborted_read(
    log0: Seq<(u16, u16)>,
    log1: Seq<(u16, u16)>,
    address: u8,
) -> bool {
    &&& log0.is_prefix_of(log1)
    &&& log1.len() <= log0.len() + 1
    &&& forall|i: int|
        log0.len() <= i < log1.len() ==> (#[trigger] log1[i]).0 == spec_read_frame(address)
}

/// The register value a completed read returned: the 11 data bits of the
/// last reply in the log.
pub open spec fn spec_read_value(log1: Seq<(u16, u16)>) -> u16 {
    spec_frame_data(log1.last().1)
}

/// One read-modify-write of `address` completed: a good read followed by
/// one write exchange whose frame stores `update` applied to the value
/// just read.
pub open spec fn spec_rmw(
    log0: Seq<(u16, u16)>,
    log1: Seq<(u16, u16)>,
    address: u8,
    update: spec_fn(u16) -> u16,
) -> bool {
    &&& log1.len() == log0.len() + 3
    &&& log0.is_prefix_of(log1)
    &&& spec_good_read(log0, log1.subrange(0, log0.len() as int + 2), address)
    &&& log1.last().0 == spec_write_frame(
        address,
        update(spec_read_value(log1.subrange(0, log0.len() as int + 2))),
    )
}

/// A read-modify-write of `address` stopped at a transport failure: either
/// during the read, or after a good read when the write exchange failed and
/// appended nothing.
pub open spec fn spec_rmw_aborted(
    log0: Seq<(u16, u16)>,
    log1: Seq<(u16, u16)>,
    address: u8,
) -> bool {
    ||| spec_aborted_read(log0, log1, address)
    ||| spec_good_read(log0, log1, address)
}

/// Prefixes compose: a prefix of a prefix is a prefix.
proof fn lemma_prefix_trans(a: Seq<(u16, u16)>, b: Seq<(u16, u16)>, c: Seq<(u16, u16)>)
    requires
        a.is_prefix_of(b),
        b.is_prefix_of(c),
    ensures
        a.is_prefix_of(c),
{
    assert(a =~= c.subrange(0, a.len() as int));
}

/// A good read followed by one write exchange of the updated value is one
/// read-modify-write.
proof fn lemma_rmw_compose(
    log0: Seq<(u16, u16)>,
    mid: Seq<(u16, u16)>,
    log1: Seq<(u16, u16)>,
    address: u8,
    update: spec_fn(u16) -> u16,
)
    requires
        spec_good_read(log0, mid, address),
        log1.len() == mid.len() + 1,
        mid.is_prefix_of(log1),
        log1.last().0 == spec_write_frame(address, update(spec_read_value(mid))),
    ensures
        spec_rmw(log0, log1, address, update),
{
    assert(mid =~= log1.subrange(0, log0.len() as int + 2));
    lemma_prefix_trans(log0, mid, log1);
}

/// The device driver: the command layer over an exclusively owned register
/// access engine.
pub struct Drv8301<SpiImpl: Transport> {
    /// The low-level register access engine.
    pub ll: DrvInterface<SpiImpl>,
}

impl<SpiImpl: Transport> Drv8301<SpiImpl> {
    /// Build a driver that owns the given bus transport exclusively.
    pub fn new(spi: SpiImpl) -> (r: Self)
        ensures
            r.ll.spi_bus == spi,
    {
        Drv8301 { ll: DrvInterface::new(spi) }
    }

    /// Whether any fault condition is active: reads status register 1 and
    /// returns its master fault flag.
    pub fn has_fault(&mut self) -> (r: Result<bool, DrvError<SpiImpl::BusError>>)
        ensures
            old(self).ll.exchange_log().is_prefix_of(final(self).ll.exchange_log()),
            old(self).ll.spi_bus.scripted_replies().len() >= 2 ==> final(self).ll.exchange_log().len()
                == old(self).ll.exchange_log().len() + 2,
            match r {
                Ok(b) => {
                    &&& spec_good_read(
                        old(self).ll.exchange_log(),
                        final(self).ll.exchange_log(),
                        STATUS_REGISTER_1,
                    )
                    &&& b == status1_fault(spec_read_value(final(self).ll.exchange_log()))
                },
                Err(DrvError::FrameError) => spec_failed_read(
                    old(self).ll.exchange_log(),
                    final(self).ll.exchange_log(),
                    STATUS_REGISTER_1,
                ),
                Err(DrvError::Spi(_)) => spec_aborted_read(
                    old(self).ll.exchange_log(),
                    final(self).ll.exchange_log(),
                    STATUS_REGISTER_1,
                ),
                Err(DrvError::NotSupported(_)) => false,
            },
    {
        let v: u16 = match self.ll.read_register(STATUS_REGISTER_1) {
            Ok(v) => v,
            Err(e) => {
                return Err(e);
            },
        };
        Ok((v & 0x0400) != 0)
    }

    /// The device identity field from status register 2.
    pub fn get_device_id(&mut self) -> (r: Result<u8, DrvError<SpiImpl::BusError>>)
        ensures
            old(self).ll.exchange_log().is_prefix_of(final(self).ll.exchange_log()),
            old(self).ll.spi_bus.scripted_replies().len() >= 2 ==> final(self).ll.exchange_log().len()
                == old(self).ll.exchange_log().len() + 2,
            match r {
                Ok(id) => {
                    &&& spec_good_read(
                        old(self).ll.exchange_log(),
                        final(self).ll.exchange_log(),
                        STATUS_REGISTER_2,
                    )
                    &&& id == status2_device_id(spec_read_value(final(self).ll.exchange_log()))
                },
                Err(DrvError::FrameError) => spec_failed_read(
                    old(self).ll.exchange_log(),
                    final(self).ll.exchange_log(),
                    STATUS_REGISTER_2,
                ),
                Err(DrvError::Spi(_)) => spec_aborted_read(
                    old(self).ll.exchange_log(),
                    final(self).ll.exchange_log(),
                    STATUS_REGISTER_2,
                ),
                Err(DrvError::NotSupported(_)) => false,
            },
    {
        let v: u16 = match self.ll.read_register(STATUS_REGISTER_2) {
            Ok(v) => v,
            Err(e) => {
                return Err(e);
            },
        };
        proof {
            assert(v & 0x000F < 256) by (bit_vector);
        }
        Ok((v & 0x000F) as u8)
    }

    /// The complete fault status: reads status register 1 and then status
    /// register 2, and decodes both into a fresh [`FaultStatus`]. Nothing
    /// is cached; the physical fault state may change between polls.
    pub fn get_fault_status(&mut self) -> (r: Result<FaultStatus, DrvError<SpiImpl::BusError>>)
        ensures
            old(self).ll.exchange_log().is_prefix_of(final(self).ll.exchange_log()),
            old(self).ll.spi_bus.scripted_replies().len() >= 4 ==> match r {
                Err(DrvError::Spi(_)) => false,
                _ => true,
            },
            ({
                let log0 = old(self).ll.exchange_log();
                let log1 = final(self).ll.exchange_log();
                match r {
                    Ok(fs) => {
                        &&& log1.len() == log0.len() + 4
                        &&& spec_good_read(
                            log0,
                            log1.subrange(0, log0.len() as int + 2),
                            STATUS_REGISTER_1,
                        )
                        &&& spec_good_read(
                            log1.subrange(0, log0.len() as int + 2),
                            log1,
                            STATUS_REGISTER_2,
                        )
                        &&& fs == spec_fault_status(
                            spec_read_value(log1.subrange(0, log0.len() as int + 2)),
                            spec_read_value(log1),
                        )
                    },
                    Err(DrvError::FrameError) => {
                        ||| spec_failed_read(log0, log1, STATUS_REGISTER_1)
                        ||| (log1.len() == log0.len() + 4 && spec_good_read(
                            log0,
                            log1.subrange(0, log0.len() as int + 2),
                            STATUS_REGISTER_1,
                        ) && spec_failed_read(
                            log1.subrange(0, log0.len() as int + 2),
                            log1,
                            STATUS_REGISTER_2,
                        ))
                    },
                    Err(DrvError::Spi(_)) => {
                        ||| spec_aborted_read(log0, log1, STATUS_REGISTER_1)
                        ||| (log1.len() >= log0.len() + 2 && spec_good_read(
                            log0,
                            log1.subrange(0, log0.len() as int + 2),
                            STATUS_REGISTER_1,
                        ) && spec_aborted_read(
                            log1.subrange(0, log0.len() as int + 2),
                            log1,
                            STATUS_REGISTER_2,
                        ))
                    },
                    Err(DrvError::NotSupported(_)) => false,
                }
            }),
    {
        let ghost log0 = self.ll.exchange_log();
        let s1: u16 = match self.ll.read_register(STATUS_REGISTER_1) {
            Ok(v) => v,
            Err(e) => {
                return Err(e);
            },
        };
        let ghost mid = self.ll.exchange_log();
        let s2: u16 = match self.ll.read_register(STATUS_REGISTER_2) {
            Ok(v) => v,
            Err(e) => {
                proof {
                    assert(mid =~= self.ll.exchange_log().subrange(0, log0.len() as int + 2));
                    lemma_prefix_trans(log0, mid, self.ll.exchange_log());
                }
                return Err(e);
            },
        };
        proof {
            assert(mid =~= self.ll.exchange_log().subrange(0, log0.len() as int + 2));
            lemma_prefix_trans(log0, mid, self.ll.exchange_log());
        }
        Ok(FaultStatus::from_registers(s1, s2))
    }

    /// Set the overcurrent (VDS) threshold field of control register 1 by
    /// read-modify-write, leaving every other field unchanged.
    pub fn set_oc_threshold(&mut self, threshold: OcAdjSet) -> (r: Result<
        (),
        DrvError<SpiImpl::BusError>,
    >)
        ensures
            old(self).ll.exchange_log().is_prefix_of(final(self).ll.exchange_log()),
            old(self).ll.spi_bus.scripted_replies().len() >= 3 ==> match r {
                Err(DrvError::Spi(_)) => false,
                _ => true,
            },
            match r {
                Ok(_) => spec_rmw(
                    old(self).ll.exchange_log(),
                    final(self).ll.exchange_log(),
                    CONTROL_REGISTER_1,
                    (|v: u16| spec_with_oc_adj_set(v, threshold.spec_bits())),
                ),
                Err(DrvError::FrameError) => spec_failed_read(
                    old(self).ll.exchange_log(),
                    final(self).ll.exchange_log(),
                    CONTROL_REGISTER_1,
                ),
                Err(DrvError::Spi(_)) => spec_rmw_aborted(
                    old(self).ll.exchange_log(),
                    final(self).ll.exchange_log(),
                    CONTROL_REGISTER_1,
                ),
                Err(DrvError::NotSupported(_)) => false,
            },
    {
        let ghost log0 = self.ll.exchange_log();
        let current: u16 = match self.ll.read_register(CONTROL_REGISTER_1) {
            Ok(v) => v,
            Err(e) => {
                return Err(e);
            },
        };
        let ghost mid = self.ll.exchange_log();
        let next: u16 = with_oc_adj_set(current, threshold.bits());
        let r = self.ll.write_register(CONTROL_REGISTER_1, next);
        proof {
            if r is Ok {
                lemma_rmw_compose(
                    log0,
                    mid,
                    self.ll.exchange_log(),
                    CONTROL_REGISTER_1,
                    (|v: u16| spec_with_oc_adj_set(v, threshold.spec_bits())),
                );
            }
        }
        r
    }

    /// Set the overcurrent protection mode field of control register 1 by
    /// read-modify-write, leaving every other field unchanged.
    pub fn set_ocp_mode(&mut self, mode: OcpMode) -> (r: Result<(), DrvError<SpiImpl::BusError>>)
        ensures
            old(self).ll.exchange_log().is_prefix_of(final(self).ll.exchange_log()),
            old(self).ll.spi_bus.scripted_replies().len() >= 3 ==> match r {
                Err(DrvError::Spi(_)) => false,
                _ => true,
            },
            match r {
                Ok(_) => spec_rmw(
                    old(self).ll.exchange_log(),
                    final(self).ll.exchange_log(),
                    CONTROL_REGISTER_1,
                    (|v: u16| spec_with_ocp_mode(v, mode.spec_bits())),
                ),
                Err(DrvError::FrameError) => spec_failed_read(
                    old(self).ll.exchange_log(),
                    final(self).ll.exchange_log(),
                    CONTROL_REGISTER_1,
                ),
                Err(DrvError::Spi(_)) => spec_rmw_aborted(
                    old(self).ll.exchange_log(),
                    final(self).ll.exchange_log(),
                    CONTROL_REGISTER_1,
                ),
                Err(DrvError::NotSupported(_)) => false,
            },
    {
        let ghost log0 = self.ll.exchange_log();
        let current: u16 = match self.ll.read_register(CONTROL_REGISTER_1) {
            Ok(v) => v,
            Err(e) => {
                return Err(e);
            },
        };
        let ghost mid = self.ll.exchange_log();
        let next: u16 = with_ocp_mode(current, mode.bits());
        let r = self.ll.write_register(CONTROL_REGISTER_1, next);
        proof {
            if r is Ok {
                lemma_rmw_compose(
                    log0,
                    mid,
                    self.ll.exchange_log(),
                    CONTROL_REGISTER_1,
                    (|v: u16| spec_with_ocp_mode(v, mode.spec_bits())),
                );
            }
        }
        r
    }

    /// Select 3-PWM (`true`) or 6-PWM (`false`) input mode in control
    /// register 1 by read-modify-write, leaving every other field unchanged.
    pub fn set_pwm_mode(&mut self, three_pwm: bool) -> (r: Result<
        (),
        DrvError<SpiImpl::BusError>,
    >)
        ensures
            old(self).ll.exchange_log().is_prefix_of(final(self).ll.exchange_log()),
            old(self).ll.spi_bus.scripted_replies().len() >= 3 ==> match r {
                Err(DrvError::Spi(_)) => false,
                _ => true,
            },
            match r {
                Ok(_) => spec_rmw(
                    old(self).ll.exchange_log(),
                    final(self).ll.exchange_log(),
                    CONTROL_REGISTER_1,
                    (|v: u16| spec_with_pwm_mode(v, three_pwm)),
                ),
                Err(DrvError::FrameError) => spec_failed_read(
                    old(self).ll.exchange_log(),
                    final(self).ll.exchange_log(),
                    CONTROL_REGISTER_1,
                ),
                Err(DrvError::Spi(_)) => spec_rmw_aborted(
                    old(self).ll.exchange_log(),
                    final(self).ll.exchange_log(),
                    CONTROL_REGISTER_1,
                ),
                Err(DrvError::NotSupported(_)) => false,
            },
    {
        let ghost log0 = self.ll.exchange_log();
        let current: u16 = match self.ll.read_register(CONTROL_REGISTER_1) {
            Ok(v) => v,
            Err(e) => {
                return Err(e);
            },
        };
        let ghost mid = self.ll.exchange_log();
        let next: u16 = with_pwm_mode(current, three_pwm);
        let r = self.ll.write_register(CONTROL_REGISTER_1, next);
        proof {
            if r is Ok {
                lemma_rmw_compose(
                    log0,
                    mid,
                    self.ll.exchange_log(),
                    CONTROL_REGISTER_1,
                    (|v: u16| spec_with_pwm_mode(v, three_pwm)),
                );
            }
        }
        r
    }

    /// Pulse its fault-reset flag of control register 1 by read-modify-write,
    /// leaving every other field unchanged.
    pub fn reset_gate_faults(&mut self) -> (r: Result<(), DrvError<SpiImpl::BusError>>)
        ensures
            old(self).ll.exchange_log().is_prefix_of(final(self).ll.exchange_log()),
            old(self).ll.spi_bus.scripted_replies().len() >= 3 ==> match r {
                Err(DrvError::Spi(_)) => false,
                _ => true,
            },
            match r {
                Ok(_) => spec_rmw(
                    old(self).ll.exchange_log(),
                    final(self).ll.exchange_log(),
                    CONTROL_REGISTER_1,
                    (|v: u16| spec_with_gate_reset(v, true)),
                ),
                Err(DrvError::FrameError) => spec_failed_read(
                    old(self).ll.exchange_log(),
                    final(self).ll.exchange_log(),
                    CONTROL_REGISTER_1,
                ),
                Err(DrvError::Spi(_)) => spec_rmw_aborted(
                    old(self).ll.exchange_log(),
                    final(self).ll.exchange_log(),
                    CONTROL_REGISTER_1,
                ),
                Err(DrvError::NotSupported(_)) => false,
            },
    {
        let ghost log0 = self.ll.exchange_log();
        let current: u16 = match self.ll.read_register(CONTROL_REGISTER_1) {
            Ok(v) => v,
            Err(e) => {
                return Err(e);
            },
        };
        let ghost mid = self.ll.exchange_log();
        let next: u16 = with_gate_reset(current, true);
        let r = self.ll.write_register(CONTROL_REGISTER_1, next);
        proof {
            if r is Ok {
                lemma_rmw_compose(
                    log0,
                    mid,
                    self.ll.exchange_log(),
                    CONTROL_REGISTER_1,
                    (|v: u16| spec_with_gate_reset(v, true)),
                );
            }
        }
        r
    }

    /// Set the peak gate drive current field of control register 1 by
    /// read-modify-write, leaving every other field unchanged.
    pub fn set_gate_current(&mut self, current: GateCurrent) -> (r: Result<
        (),
        DrvError<SpiImpl::BusError>,
    >)
        ensures
            old(self).ll.exchange_log().is_prefix_of(final(self).ll.exchange_log()),
            old(self).ll.spi_bus.scripted_replies().len() >= 3 ==> match r {
                Err(DrvError::Spi(_)) => false,
                _ => true,
            },
            match r {
                Ok(_) => spec_rmw(
                    old(self).ll.exchange_log(),
                    final(self).ll.exchange_log(),
                    CONTROL_REGISTER_1,
                    (|v: u16| spec_with_gate_current(v, current.spec_bits())),
                ),
                Err(DrvError::FrameError) => spec_failed_read(
                    old(self).ll.exchange_log(),
                    final(self).ll.exchange_log(),
                    CONTROL_REGISTER_1,
                ),
                Err(DrvError::Spi(_)) => spec_rmw_aborted(
                    old(self).ll.exchange_log(),
                    final(self).ll.exchange_log(),
                    CONTROL_REGISTER_1,
                ),
                Err(DrvError::NotSupported(_)) => false,
            },
    {
        let ghost log0 = self.ll.exchange_log();
        let reg: u16 = match self.ll.read_register(CONTROL_REGISTER_1) {
            Ok(v) => v,
            Err(e) => {
                return Err(e);
            },
        };
        let ghost mid = self.ll.exchange_log();
        let next: u16 = with_gate_current(reg, current.bits());
        let r = self.ll.write_register(CONTROL_REGISTER_1, next);
        proof {
            if r is Ok {
                lemma_rmw_compose(
                    log0,
                    mid,
                    self.ll.exchange_log(),
                    CONTROL_REGISTER_1,
                    (|v: u16| spec_with_gate_current(v, current.spec_bits())),
                );
            }
        }
        r
    }

    /// Set the current shunt amplifier gain field of control register 2 by
    /// read-modify-write, leaving every other field unchanged.
    pub fn set_shunt_amplifier_gain(&mut self, gain: ShuntAmplifierGain) -> (r: Result<
        (),
        DrvError<SpiImpl::BusError>,
    >)
        ensures
            old(self).ll.exchange_log().is_prefix_of(final(self).ll.exchange_log()),
            old(self).ll.spi_bus.scripted_replies().len() >= 3 ==> match r {
                Err(DrvError::Spi(_)) => false,
                _ => true,
            },
            match r {
                Ok(_) => spec_rmw(
                    old(self).ll.exchange_log(),
                    final(self).ll.exchange_log(),
                    CONTROL_REGISTER_2,
                    (|v: u16| spec_with_gain(v, gain.spec_bits())),
                ),
                Err(DrvError::FrameError) => spec_failed_read(
                    old(self).ll.exchange_log(),
                    final(self).ll.exchange_log(),
                    CONTROL_REGISTER_2,
                ),
                Err(DrvError::Spi(_)) => spec_rmw_aborted(
                    old(self).ll.exchange_log(),
                    final(self).ll.exchange_log(),
                    CONTROL_REGISTER_2,
                ),
                Err(DrvError::NotSupported(_)) => false,
            },
    {
        let ghost log0 = self.ll.exchange_log();
        let current: u16 = match self.ll.read_register(CONTROL_REGISTER_2) {
            Ok(v) => v,
            Err(e) => {
                return Err(e);
            },
        };
        let ghost mid = self.ll.exchange_log();
        let next: u16 = with_gain(current, gain.bits());
        let r = self.ll.write_register(CONTROL_REGISTER_2, next);
        proof {
            if r is Ok {
                lemma_rmw_compose(
                    log0,
                    mid,
                    self.ll.exchange_log(),
                    CONTROL_REGISTER_2,
                    (|v: u16| spec_with_gain(v, gain.spec_bits())),
                );
            }
        }
        r
    }

    /// Set the warning-pin reporting mode field of control register 2 by
    /// read-modify-write, leaving every other field unchanged.
    pub fn set_octw_mode(&mut self, mode: OctwMode) -> (r: Result<(), DrvError<SpiImpl::BusError>>)
        ensures
            old(self).ll.exchange_log().is_prefix_of(final(self).ll.exchange_log()),
            old(self).ll.spi_bus.scripted_replies().len() >= 3 ==> match r {
                Err(DrvError::Spi(_)) => false,
                _ => true,
            },
            match r {
                Ok(_) => spec_rmw(
                    old(self).ll.exchange_log(),
                    final(self).ll.exchange_log(),
                    CONTROL_REGISTER_2,
                    (|v: u16| spec_with_octw_mode(v, mode.spec_bits())),
                ),
                Err(DrvError::FrameError) => spec_failed_read(
                    old(self).ll.exchange_log(),
                    final(self).ll.exchange_log(),
                    CONTROL_REGISTER_2,
                ),
                Err(DrvError::Spi(_)) => spec_rmw_aborted(
                    old(self).ll.exchange_log(),
                    final(self).ll.exchange_log(),
                    CONTROL_REGISTER_2,
                ),
                Err(DrvError::NotSupported(_)) => false,
            },
    {
        let ghost log0 = self.ll.exchange_log();
        let current: u16 = match self.ll.read_register(CONTROL_REGISTER_2) {
            Ok(v) => v,
            Err(e) => {
                return Err(e);
            },
        };
        let ghost mid = self.ll.exchange_log();
        let next: u16 = with_octw_mode(current, mode.bits());
        let r = self.ll.write_register(CONTROL_REGISTER_2, next);
        proof {
            if r is Ok {
                lemma_rmw_compose(
                    log0,
                    mid,
                    self.ll.exchange_log(),
                    CONTROL_REGISTER_2,
                    (|v: u16| spec_with_octw_mode(v, mode.spec_bits())),
                );
            }
        }
        r
    }

    /// Enable or disable DC calibration for shunt amplifier channel 1 in
    /// control register 2 by read-modify-write, leaving every other field
    /// unchanged.
    pub fn set_dc_cal_ch1(&mut self, enable: bool) -> (r: Result<(), DrvError<SpiImpl::BusError>>)
        ensures
            old(self).ll.exchange_log().is_prefix_of(final(self).ll.exchange_log()),
            old(self).ll.spi_bus.scripted_replies().len() >= 3 ==> match r {
                Err(DrvError::Spi(_)) => false,
                _ => true,
            },
            match r {
                Ok(_) => spec_rmw(
                    old(self).ll.exchange_log(),
                    final(self).ll.exchange_log(),
                    CONTROL_REGISTER_2,
                    (|v: u16| spec_with_dc_cal_ch1(v, enable)),
                ),
                Err(DrvError::FrameError) => spec_failed_read(
                    old(self).ll.exchange_log(),
                    final(self).ll.exchange_log(),
                    CONTROL_REGISTER_2,
                ),
                Err(DrvError::Spi(_)) => spec_rmw_aborted(
                    old(self).ll.exchange_log(),
                    final(self).ll.exchange_log(),
                    CONTROL_REGISTER_2,
                ),
                Err(DrvError::NotSupported(_)) => false,
            },
    {
        let ghost log0 = self.ll.exchange_log();
        let current: u16 = match self.ll.read_register(CONTROL_REGISTER_2) {
            Ok(v) => v,
            Err(e) => {
                return Err(e);
            },
        };
        let ghost mid = self.ll.exchange_log();
        let next: u16 = with_dc_cal_ch1(current, enable);
        let r = self.ll.write_register(CONTROL_REGISTER_2, next);
        proof {
            if r is Ok {
                lemma_rmw_compose(
                    log0,
                    mid,
                    self.ll.exchange_log(),
                    CONTROL_REGISTER_2,
                    (|v: u16| spec_with_dc_cal_ch1(v, enable)),
                );
            }
        }
        r
    }

    /// Enable or disable DC calibration for shunt amplifier channel 2 in
    /// control register 2 by read-modify-write, leaving every other field
    /// unchanged.
    pub fn set_dc_cal_ch2(&mut self, enable: bool) -> (r: Result<(), DrvError<SpiImpl::BusError>>)
        ensures
            old(self).ll.exchange_log().is_prefix_of(final(self).ll.exchange_log()),
            old(self).ll.spi_bus.scripted_replies().len() >= 3 ==> match r {
                Err(DrvError::Spi(_)) => false,
                _ => true,
            },
            match r {
                Ok(_) => spec_rmw(
                    old(self).ll.exchange_log(),
                    final(self).ll.exchange_log(),
                    CONTROL_REGISTER_2,
                    (|v: u16| spec_with_dc_cal_ch2(v, enable)),
                ),
                Err(DrvError::FrameError) => spec_failed_read(
                    old(self).ll.exchange_log(),
                    final(self).ll.exchange_log(),
                    CONTROL_REGISTER_2,
                ),
                Err(DrvError::Spi(_)) => spec_rmw_aborted(
                    old(self).ll.exchange_log(),
                    final(self).ll.exchange_log(),
                    CONTROL_REGISTER_2,
                ),
                Err(DrvError::NotSupported(_)) => false,
            },
    {
        let ghost log0 = self.ll.exchange_log();
        let current: u16 = match self.ll.read_register(CONTROL_REGISTER_2) {
            Ok(v) => v,
            Err(e) => {
                return Err(e);
            },
        };
        let ghost mid = self.ll.exchange_log();
        let next: u16 = with_dc_cal_ch2(current, enable);
        let r = self.ll.write_register(CONTROL_REGISTER_2, next);
        proof {
            if r is Ok {
                lemma_rmw_compose(
                    log0,
                    mid,
                    self.ll.exchange_log(),
                    CONTROL_REGISTER_2,
                    (|v: u16| spec_with_dc_cal_ch2(v, enable)),
                );
            }
        }
        r
    }

    /// Set the overcurrent off-time control flag of control register 2 by
    /// read-modify-write, leaving every other field unchanged.
    pub fn set_oc_toff(&mut self, off_time_control: bool) -> (r: Result<
        (),
        DrvError<SpiImpl::BusError>,
    >)
        ensures
            old(self).ll.exchange_log().is_prefix_of(final(self).ll.exchange_log()),
            old(self).ll.spi_bus.scripted_replies().len() >= 3 ==> match r {
                Err(DrvError::Spi(_)) => false,
                _ => true,
            },
            match r {
                Ok(_) => spec_rmw(
                    old(self).ll.exchange_log(),
                    final(self).ll.exchange_log(),
                    CONTROL_REGISTER_2,
                    (|v: u16| spec_with_oc_toff(v, off_time_control)),
                ),
                Err(DrvError::FrameError) => spec_failed_read(
                    old(self).ll.exchange_log(),
                    final(self).ll.exchange_log(),
                    CONTROL_REGISTER_2,
                ),
                Err(DrvError::Spi(_)) => spec_rmw_aborted(
                    old(self).ll.exchange_log(),
                    final(self).ll.exchange_log(),
                    CONTROL_REGISTER_2,
                ),
                Err(DrvError::NotSupported(_)) => false,
            },
    {
        let ghost log0 = self.ll.exchange_log();
        let current: u16 = match self.ll.read_register(CONTROL_REGISTER_2) {
            Ok(v) => v,
            Err(e) => {
                return Err(e);
            },
        };
        let ghost mid = self.ll.exchange_log();
        let next: u16 = with_oc_toff(current, off_time_control);
        let r = self.ll.write_register(CONTROL_REGISTER_2, next);
        proof {
            if r is Ok {
                lemma_rmw_compose(
                    log0,
                    mid,
                    self.ll.exchange_log(),
                    CONTROL_REGISTER_2,
                    (|v: u16| spec_with_oc_toff(v, off_time_control)),
                );
            }
        }
        r
    }
}

} // verus!
