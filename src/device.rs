//! The serial-port primitives this library builds on, from the `serialport`
//! crate and from `std::io`. Each function here makes one outside call; its
//! contract states only what that call's documentation promises.
use serialport::SerialPort;
use std::io::Read;
use std::io::Write;
use vstd::prelude::*;

verus! {

#[verifier::external_type_specification]
#[verifier::external_body]
pub struct ExTTYPort(serialport::TTYPort);

#[verifier::external_type_specification]
#[verifier::external_body]
pub struct ExSerialError(serialport::Error);

#[verifier::external_type_specification]
#[verifier::external_body]
pub struct ExIoError(std::io::Error);

/// Why the operating system refused or failed a port operation.
#[derive(Clone, Copy, Debug, PartialEq, Eq, Structural)]
pub enum DeviceFailure {
    /// The device is absent, busy, or was disconnected.
    NoDevice,
    /// A parameter was rejected (a baud rate, a path).
    InvalidInput,
    /// The port's own timeout ran out.
    TimedOut,
    /// Any other I/O error.
    Io,
    /// An error the platform did not classify.
    Unknown,
}

/// Which buffered data `clear` discards.
#[derive(Clone, Copy, Debug, PartialEq, Eq, Structural)]
pub enum ClearTarget {
    /// Data received but not yet read.
    Input,
    /// Data written but not yet transmitted.
    Output,
    /// Both.
    All,
}

/// Relies on serialport::Error::kind: tells its kinds apart.
#[verifier::external_body]
pub(crate) fn serial_failure(e: serialport::Error) -> DeviceFailure {
    match e.kind() {
        serialport::ErrorKind::NoDevice => DeviceFailure::NoDevice,
        serialport::ErrorKind::InvalidInput => DeviceFailure::InvalidInput,
        serialport::ErrorKind::Io(std::io::ErrorKind::TimedOut) => DeviceFailure::TimedOut,
        serialport::ErrorKind::Io(_) => DeviceFailure::Io,
        serialport::ErrorKind::Unknown => DeviceFailure::Unknown,
    }
}

/// Relies on std::io::Error::kind: tells a timeout from other I/O errors.
#[verifier::external_body]
pub(crate) fn io_failure(e: std::io::Error) -> DeviceFailure {
    match e.kind() {
        std::io::ErrorKind::TimedOut => DeviceFailure::TimedOut,
        _ => DeviceFailure::Io,
    }
}

/// Relies on serialport::new and SerialPortBuilder::open_native: opens the
/// device at `path` at `baud_rate`, with the builder's other defaults.
#[verifier::external_body]
pub(crate) fn open_port(
    path: &str,
    baud_rate: u32,
) -> Result<serialport::TTYPort, serialport::Error> {
    serialport::new(path, baud_rate).open_native()
}

/// Relies on SerialPort::set_baud_rate of TTYPort.
#[verifier::external_body]
pub(crate) fn set_port_baud_rate(
    port: &mut serialport::TTYPort,
    baud_rate: u32,
) -> Result<(), serialport::Error> {
    port.set_baud_rate(baud_rate)
}

/// Relies on SerialPort::set_break of TTYPort.
#[verifier::external_body]
pub(crate) fn set_port_break(port: &serialport::TTYPort) -> Result<(), serialport::Error> {
    port.set_break()
}

/// Relies on SerialPort::clear_break of TTYPort.
#[verifier::external_body]
pub(crate) fn clear_port_break(port: &serialport::TTYPort) -> Result<(), serialport::Error> {
    port.clear_break()
}

/// Relies on SerialPort::write_request_to_send of TTYPort.
#[verifier::external_body]
pub(crate) fn write_port_request_to_send(
    port: &mut serialport::TTYPort,
    level: bool,
) -> Result<(), serialport::Error> {
    port.write_request_to_send(level)
}

/// Relies on SerialPort::write_data_terminal_ready of TTYPort.
#[verifier::external_body]
pub(crate) fn write_port_data_terminal_ready(
    port: &mut serialport::TTYPort,
    level: bool,
) -> Result<(), serialport::Error> {
    port.write_data_terminal_ready(level)
}

/// Relies on SerialPort::read_clear_to_send of TTYPort.
#[verifier::external_body]
pub(crate) fn read_port_clear_to_send(
    port: &mut serialport::TTYPort,
) -> Result<bool, serialport::Error> {
    port.read_clear_to_send()
}

/// Relies on SerialPort::read_data_set_ready of TTYPort.
#[verifier::external_body]
pub(crate) fn read_port_data_set_ready(
    port: &mut serialport::TTYPort,
) -> Result<bool, serialport::Error> {
    port.read_data_set_ready()
}

/// Relies on SerialPort::read_ring_indicator of TTYPort.
#[verifier::external_body]
pub(crate) fn read_port_ring_indicator(
    port: &mut serialport::TTYPort,
) -> Result<bool, serialport::Error> {
    port.read_ring_indicator()
}

/// Relies on SerialPort::read_carrier_detect of TTYPort.
#[verifier::external_body]
pub(crate) fn read_port_carrier_detect(
    port: &mut serialport::TTYPort,
) -> Result<bool, serialport::Error> {
    port.read_carrier_detect()
}

/// Relies on SerialPort::bytes_to_read of TTYPort.
#[verifier::external_body]
pub(crate) fn port_bytes_to_read(port: &serialport::TTYPort) -> Result<u32, serialport::Error> {
    port.bytes_to_read()
}

/// Relies on SerialPort::bytes_to_write of TTYPort.
#[verifier::external_body]
pub(crate) fn port_bytes_to_write(port: &serialport::TTYPort) -> Result<u32, serialport::Error> {
    port.bytes_to_write()
}

/// Relies on SerialPort::clear of TTYPort, with the matching ClearBuffer.
#[verifier::external_body]
pub(crate) fn clear_port(
    port: &serialport::TTYPort,
    target: ClearTarget,
) -> Result<(), serialport::Error> {
    port.clear(match target {
        ClearTarget::Input => serialport::ClearBuffer::Input,
        ClearTarget::Output => serialport::ClearBuffer::Output,
        ClearTarget::All => serialport::ClearBuffer::All,
    })
}

/// Relies on std::io::Read::read of TTYPort: fills a prefix of `buf` and
/// returns its length, which never exceeds the buffer's.
#[verifier::external_body]
pub(crate) fn read_port(
    port: &mut serialport::TTYPort,
    buf: &mut Vec<u8>,
) -> (r: Result<usize, std::io::Error>)
    ensures
        final(buf)@.len() == old(buf)@.len(),
        r matches Ok(n) ==> n <= old(buf)@.len(),
{
    port.read(buf.as_mut_slice())
}

/// Relies on std::io::Read::read_to_end of TTYPort: the bytes up to end of
/// stream.
#[verifier::external_body]
pub(crate) fn read_port_to_end(port: &mut serialport::TTYPort) -> Result<Vec<u8>, std::io::Error> {
    let mut data = Vec::new();
    port.read_to_end(&mut data).map(|_| data)
}

/// Relies on std::io::Write::write of TTYPort: writes a prefix of `data` and
/// returns its length, which never exceeds the data's.
#[verifier::external_body]
pub(crate) fn write_port(
    port: &mut serialport::TTYPort,
    data: &[u8],
) -> (r: Result<usize, std::io::Error>)
    ensures
        r matches Ok(n) ==> n <= data@.len(),
{
    port.write(data)
}

/// Relies on std::io::Write::write_all of TTYPort: writes the whole of `data`
/// or fails.
#[verifier::external_body]
pub(crate) fn write_port_all(
    port: &mut serialport::TTYPort,
    data: &[u8],
) -> Result<(), std::io::Error> {
    port.write_all(data)
}

} // verus!
