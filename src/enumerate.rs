//! The serial devices the system lists, as plain records. The listing
//! itself is read by the caller, which hands its outcome to `listing`.
use crate::device::serial_failure;
use crate::device::DeviceFailure;
use vstd::prelude::*;

verus! {

#[verifier::external_type_specification]
#[verifier::external_body]
pub struct ExSerialPortInfo(serialport::SerialPortInfo);

/// What a USB-attached device tells about itself.
#[derive(Clone, Debug, PartialEq, Eq)]
pub struct UsbInfo {
    pub vid: u16,
    pub pid: u16,
    pub serial_number: Option<String>,
    pub manufacturer: Option<String>,
    pub product: Option<String>,
}

/// How a device is attached; only a USB device carries further details.
#[derive(Clone, Debug, PartialEq, Eq)]
pub enum PortKind {
    Pci,
    Usb(UsbInfo),
    Bluetooth,
    Unknown,
}

/// One serial device as the system lists it.
#[derive(Clone, Debug, PartialEq, Eq)]
pub struct PortDescriptor {
    pub name: String,
    pub kind: PortKind,
}

/// The integer code of a kind in the listing that hosts receive.
pub open spec fn spec_kind_code(kind: PortKind) -> i32 {
    match kind {
        PortKind::Pci => 1,
        PortKind::Usb(_) => 2,
        PortKind::Bluetooth => 3,
        PortKind::Unknown => 4,
    }
}

/// The integer code of `kind`: 1 for PCI, 2 for USB, 3 for Bluetooth, 4 for
/// an unknown attachment.
pub fn kind_code(kind: &PortKind) -> (r: i32)
    ensures
        r == spec_kind_code(*kind),
{
    match kind {
        PortKind::Pci => 1,
        PortKind::Usb(_) => 2,
        PortKind::Bluetooth => 3,
        PortKind::Unknown => 4,
    }
}

/// Relies on the public fields of serialport::SerialPortInfo and
/// UsbPortInfo: moves them into the library's record.
#[verifier::external_body]
fn describe_port(info: serialport::SerialPortInfo) -> PortDescriptor {
    let kind = match info.port_type {
        serialport::SerialPortType::PciPort => PortKind::Pci,
        serialport::SerialPortType::UsbPort(u) => PortKind::Usb(UsbInfo {
            vid: u.vid,
            pid: u.pid,
            serial_number: u.serial_number,
            manufacturer: u.manufacturer,
            product: u.product,
        }),
        serialport::SerialPortType::BluetoothPort => PortKind::Bluetooth,
        serialport::SerialPortType::Unknown => PortKind::Unknown,
    };
    PortDescriptor { name: info.port_name, kind }
}

/// One record for each listed device; no devices give an empty list.
pub fn describe_ports(infos: Vec<serialport::SerialPortInfo>) -> (r: Vec<PortDescriptor>)
    ensures
        r@.len() == infos@.len(),
{
    let mut out: Vec<PortDescriptor> = Vec::new();
    let mut rest = infos;
    while rest.len() > 0
        invariant
            out@.len() + rest@.len() == infos@.len(),
        decreases rest@.len(),
    {
        let info = rest.remove(0);
        out.push(describe_port(info));
    }
    out
}

/// The outcome of the system's device listing in the library's terms: an
/// error only where the listing itself failed, and otherwise one record for
/// each listed device, so that no devices give an empty list.
pub fn listing(r: Result<Vec<serialport::SerialPortInfo>, serialport::Error>) -> (o: Result<
    Vec<PortDescriptor>,
    DeviceFailure,
>)
    ensures
        r is Ok <==> o is Ok,
        r matches Ok(v) ==> (o matches Ok(w) && w@.len() == v@.len()),
{
    match r {
        Ok(infos) => Ok(describe_ports(infos)),
        Err(e) => Err(serial_failure(e)),
    }
}

} // verus!
