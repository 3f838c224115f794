//! Register access engine: the wire protocol over an abstract transport.
//!
//! A logical write is one full-duplex exchange whose reply is discarded (it
//! reflects the previous access and carries nothing the caller needs). A
//! logical read is two consecutive exchanges of the identical read command:
//! the device latches the address on the first exchange and returns the data
//! only on the second. Only the second reply is inspected; if its
//! frame-error bit is set the data is discarded and the read fails.
//!
//! The transport is modeled by its exchange log, the sequence of
//! `(sent frame, received frame)` pairs so far; every contract of the engine
//! says how a call extends that log and how the result is computed from it.

use vstd::prelude::*;
use vstd::seq_lib::*;
use crate::frame::{
    decode_response, encode_read, encode_write, spec_frame_data, spec_frame_error,
    spec_read_frame, spec_write_frame,
};

verus! {

/// Error of one logical register operation.
#[derive(Debug)]
pub enum DrvError<SpiErr> {
    /// The underlying exchange failed; carries the transport's own error.
    Spi(SpiErr),
    /// The device flagged the frame it received as malformed; the data of
    /// the reply was discarded.
    FrameError,
    /// The requested feature or mode is not implemented for this device.
    NotSupported(&'static str),
}

/// The capability the engine requires from the physical bus: exchange one
/// 16-bit frame full-duplex, or fail with a transport error.
///
/// A transport is modeled by its exchange log. A successful exchange
/// appends exactly the pair of the sent and the received frame; a failed
/// one leaves the log unchanged. Nothing further is assumed: the received
/// frame is arbitrary, as the physical device supplies it.
pub trait Transport: Sized {
    /// The transport's own error type.
    type BusError;

    /// The exchanges performed so far: `(sent, received)` frame pairs in
    /// order.
    spec fn exchange_log(&self) -> Seq<(u16, u16)>;

    /// The replies that are certain to come next, in order. A physical bus
    /// promises nothing and keeps this empty; a bench transport that
    /// replays a script knows exactly what it will answer.
    spec fn scripted_replies(&self) -> Seq<u16>;

    /// Send `tx` while receiving one frame, full-duplex. Success appends
    /// exactly the exchanged pair to the log, and hands out the first
    /// scripted reply where one is promised; failure leaves the log
    /// unchanged and happens only when no reply was promised.
    fn exchange(&mut self, tx: u16) -> (r: Result<u16, Self::BusError>)
        ensures
            match r {
                Ok(rx) => {
                    &&& final(self).exchange_log() == old(self).exchange_log().push((tx, rx))
                    &&& old(self).scripted_replies().len() > 0 ==> rx == old(
                        self,
                    ).scripted_replies()[0] && final(self).scripted_replies() == old(
                        self,
                    ).scripted_replies().skip(1)
                },
                Err(_) => {
                    &&& final(self).exchange_log() == old(self).exchange_log()
                    &&& old(self).scripted_replies().len() == 0
                },
            },
    ;
}

/// The outcome a read computes from the reply of its second exchange: the
/// 11 data bits, unless the frame-error bit is set, in which case the data
/// is discarded.
pub open spec fn spec_read_outcome<E>(reply: u16) -> Result<u16, DrvError<E>> {
    if spec_frame_error(reply) {
        Err(DrvError::FrameError)
    } else {
        Ok(spec_frame_data(reply))
    }
}

/// The register access engine: owns its transport exclusively and performs
/// one logical operation at a time, so the two exchanges of a read are never
/// interleaved with other frames.
pub struct DrvInterface<SpiBus: Transport> {
    /// The exclusively owned bus transport.
    pub spi_bus: SpiBus,
}

impl<SpiBus: Transport> DrvInterface<SpiBus> {
    /// Take exclusive ownership of the transport.
    pub fn new(spi_bus: SpiBus) -> (r: Self)
        ensures
            r.spi_bus == spi_bus,
    {
        DrvInterface { spi_bus }
    }

    /// The exchange log of the owned transport.
    pub open spec fn exchange_log(&self) -> Seq<(u16, u16)> {
        self.spi_bus.exchange_log()
    }

    /// Perform one logical register read: send the read command, discard
    /// the first reply, send the identical command again, and decode the
    /// second reply. The result is computed from the second reply alone;
    /// if its frame-error bit is set the data is discarded and the read
    /// fails with `FrameError`.
    pub fn read_register(&mut self, address: u8) -> (r: Result<u16, DrvError<SpiBus::BusError>>)
        requires
            address < 16,
        ensures
            old(self).exchange_log().is_prefix_of(final(self).exchange_log()),
            final(self).exchange_log().len() <= old(self).exchange_log().len() + 2,
            old(self).spi_bus.scripted_replies().len() >= 2 ==> {
                &&& final(self).exchange_log().len() == old(self).exchange_log().len() + 2
                &&& final(self).exchange_log()[old(self).exchange_log().len() as int].1 == old(
                    self,
                ).spi_bus.scripted_replies()[0]
                &&& final(self).exchange_log().last().1 == old(self).spi_bus.scripted_replies()[1]
                &&& final(self).spi_bus.scripted_replies() == old(
                    self,
                ).spi_bus.scripted_replies().skip(2)
            },
            forall|i: int|
                old(self).exchange_log().len() <= i < final(self).exchange_log().len()
                    ==> (#[trigger] final(self).exchange_log()[i]).0 == spec_read_frame(address),
            final(self).exchange_log().len() == old(self).exchange_log().len() + 2
                ==> r == spec_read_outcome::<SpiBus::BusError>(final(self).exchange_log().last().1),
            match r {
                Ok(data) => {
                    &&& final(self).exchange_log().len() == old(self).exchange_log().len() + 2
                    &&& !spec_frame_error(final(self).exchange_log().last().1)
                    &&& data == spec_frame_data(final(self).exchange_log().last().1)
                    &&& data < 0x800
                },
                Err(DrvError::FrameError) => {
                    &&& final(self).exchange_log().len() == old(self).exchange_log().len() + 2
                    &&& spec_frame_error(final(self).exchange_log().last().1)
                },
                Err(DrvError::Spi(_)) => final(self).exchange_log().len() <= old(
                    self,
                ).exchange_log().len() + 1,
                Err(DrvError::NotSupported(_)) => false,
            },
    {
        let cmd: u16 = encode_read(address);

        // First exchange: the device latches the address; the reply still
        // belongs to the previous access and is discarded.
        match self.spi_bus.exchange(cmd) {
            Ok(_) => (),
            Err(e) => {
                return Err(DrvError::Spi(e));
            },
        }

        // Second exchange of the identical command: this reply carries the
        // addressed register's data.
        let reply: u16 = match self.spi_bus.exchange(cmd) {
            Ok(rx) => rx,
            Err(e) => {
                return Err(DrvError::Spi(e));
            },
        };

        proof {
            assert(old(self).exchange_log().is_prefix_of(self.exchange_log()));
            if old(self).spi_bus.scripted_replies().len() >= 2 {
                assert(self.spi_bus.scripted_replies() =~= old(
                    self,
                ).spi_bus.scripted_replies().skip(2));
            }
        }

        let (frame_err, data) = decode_response(reply);
        if frame_err {
            Err(DrvError::FrameError)
        } else {
            Ok(data)
        }
    }

    /// Perform one logical register write: one exchange of the write
    /// command. The immediate reply reflects the previous access and is
    /// discarded.
    pub fn write_register(&mut self, address: u8, value: u16) -> (r: Result<
        (),
        DrvError<SpiBus::BusError>,
    >)
        requires
            address < 16,
            value < 0x800,
        ensures
            old(self).exchange_log().is_prefix_of(final(self).exchange_log()),
            old(self).spi_bus.scripted_replies().len() >= 1 ==> {
                &&& final(self).exchange_log().len() == old(self).exchange_log().len() + 1
                &&& final(self).spi_bus.scripted_replies() == old(
                    self,
                ).spi_bus.scripted_replies().skip(1)
            },
            match r {
                Ok(_) => {
                    &&& final(self).exchange_log().len() == old(self).exchange_log().len() + 1
                    &&& final(self).exchange_log().last().0 == spec_write_frame(address, value)
                },
                Err(DrvError::Spi(_)) => final(self).exchange_log() == old(self).exchange_log(),
                Err(_) => false,
            },
    {
        let cmd: u16 = encode_write(address, value);
        match self.spi_bus.exchange(cmd) {
            Ok(_) => {
                proof {
                    assert(old(self).exchange_log().is_prefix_of(self.exchange_log()));
                }
                Ok(())
            },
            Err(e) => Err(DrvError::Spi(e)),
        }
    }
}

} // verus!
