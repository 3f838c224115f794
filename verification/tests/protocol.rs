//! Wire protocol tests: the two-exchange read with its one-frame pipeline
//! delay, frame-error handling, the single-exchange write, and transport
//! error propagation, all against the scripted bench transport.

use drv8301_dd::engine::DrvInterface;
use drv8301_dd::sim::ScriptedTransport;
use drv8301_dd::DrvError;

#[test]
fn read_sends_identical_command_twice_and_uses_second_reply() {
    // First reply is garbage: it belongs to the previous access and must be
    // ignored. Second reply carries the data.
    let transport = ScriptedTransport::new(vec![0xFFFF, 0x0401]);
    let mut iface = DrvInterface::new(transport);
    let r = iface.read_register(0x00);
    assert_eq!(r.unwrap(), 0x0401 & 0x07FF);
    assert_eq!(iface.spi_bus.sent, vec![0x8000, 0x8000]);
}

#[test]
fn read_ignores_first_reply_even_when_flagged() {
    // A frame-error flag in the first reply belongs to the previous access;
    // only the second reply decides.
    let transport = ScriptedTransport::new(vec![0x8FFF, 0x0123]);
    let mut iface = DrvInterface::new(transport);
    let r = iface.read_register(0x05);
    assert_eq!(r.unwrap(), 0x0123);
    assert_eq!(iface.spi_bus.sent, vec![0xA800, 0xA800]);
}

#[test]
fn read_fails_on_frame_error_in_second_reply() {
    // 0x8003 has the frame-error bit set: the data 0x003 must never leak
    // through.
    let transport = ScriptedTransport::new(vec![0x0000, 0x8003]);
    let mut iface = DrvInterface::new(transport);
    let r = iface.read_register(0x00);
    assert!(matches!(r, Err(DrvError::FrameError)));
}

#[test]
fn read_propagates_transport_failure_on_first_exchange() {
    let transport = ScriptedTransport::new(vec![]);
    let mut iface = DrvInterface::new(transport);
    let r = iface.read_register(0x01);
    assert!(matches!(r, Err(DrvError::Spi(_))));
    assert_eq!(iface.spi_bus.sent.len(), 0);
}

#[test]
fn read_propagates_transport_failure_on_second_exchange() {
    let transport = ScriptedTransport::new(vec![0x0000]);
    let mut iface = DrvInterface::new(transport);
    let r = iface.read_register(0x01);
    assert!(matches!(r, Err(DrvError::Spi(_))));
    assert_eq!(iface.spi_bus.sent, vec![0x8800]);
}

#[test]
fn write_performs_exactly_one_exchange_and_discards_the_reply() {
    // The immediate reply of a write reflects the previous access; even a
    // flagged one does not fail the write.
    let transport = ScriptedTransport::new(vec![0xFFFF]);
    let mut iface = DrvInterface::new(transport);
    let r = iface.write_register(0x02, 0x155);
    assert!(r.is_ok());
    assert_eq!(iface.spi_bus.sent, vec![0x1155]);
}

#[test]
fn write_propagates_transport_failure() {
    let transport = ScriptedTransport::new(vec![]);
    let mut iface = DrvInterface::new(transport);
    let r = iface.write_register(0x02, 0x155);
    assert!(matches!(r, Err(DrvError::Spi(_))));
    assert_eq!(iface.spi_bus.sent.len(), 0);
}

#[test]
fn scripted_transport_counts_exchanges() {
    let transport = ScriptedTransport::new(vec![0x0000, 0x0000, 0x0000]);
    let mut iface = DrvInterface::new(transport);
    assert_eq!(iface.spi_bus.exchange_count(), 0);
    iface.read_register(0x00).unwrap();
    assert_eq!(iface.spi_bus.exchange_count(), 2);
    iface.write_register(0x02, 0).unwrap();
    assert_eq!(iface.spi_bus.exchange_count(), 3);
}
