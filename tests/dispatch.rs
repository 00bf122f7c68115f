use serial_plugin::device::ClearTarget;
use serial_plugin::device::DeviceFailure;
use serial_plugin::dispatch::ack_reply;
use serial_plugin::dispatch::clear_target_of;
use serial_plugin::dispatch::count_reply;
use serial_plugin::dispatch::data_reply;
use serial_plugin::dispatch::decode_u32;
use serial_plugin::dispatch::level_reply;
use serial_plugin::dispatch::line_reply;
use serial_plugin::dispatch::op_close_serial;
use serial_plugin::dispatch::op_new_serial;
use serial_plugin::dispatch::op_serial_bytes_to_read;
use serial_plugin::dispatch::op_serial_bytes_to_write;
use serial_plugin::dispatch::op_serial_clear;
use serial_plugin::dispatch::op_serial_clear_break;
use serial_plugin::dispatch::op_serial_read;
use serial_plugin::dispatch::op_serial_read_all;
use serial_plugin::dispatch::op_serial_read_carrier_detect;
use serial_plugin::dispatch::op_serial_read_clear_to_send;
use serial_plugin::dispatch::op_serial_read_data_set_ready;
use serial_plugin::dispatch::op_serial_read_ring_indicator;
use serial_plugin::dispatch::op_serial_set_baud_rate;
use serial_plugin::dispatch::op_serial_set_break;
use serial_plugin::dispatch::op_serial_write;
use serial_plugin::dispatch::op_serial_write_all;
use serial_plugin::dispatch::op_serial_write_data_terminal_ready;
use serial_plugin::dispatch::op_serial_write_request_to_send;
use serial_plugin::dispatch::OpError;
use serial_plugin::enumerate::describe_ports;
use serial_plugin::enumerate::kind_code;
use serial_plugin::enumerate::listing;
use serial_plugin::enumerate::PortKind;
use serial_plugin::enumerate::UsbInfo;
use serial_plugin::registry::absorb;
use serial_plugin::registry::from_serial;
use serial_plugin::registry::line_result;
use serial_plugin::registry::LineState;
use serial_plugin::registry::PortRegistry;
use serial_plugin::registry::SerialError;

fn args(parts: &[&[u8]]) -> Vec<Vec<u8>> {
    parts.iter().map(|p| p.to_vec()).collect()
}

#[test]
fn unknown_handle_replies() {
    let mut reg = PortRegistry::new();
    let h = args(&[b"3"]);
    assert_eq!(op_close_serial(&mut reg, &h), Ok(b"1".to_vec()));
    assert_eq!(op_serial_set_break(&reg, &h), Ok(b"1".to_vec()));
    assert_eq!(op_serial_clear_break(&reg, &h), Ok(b"1".to_vec()));
    assert_eq!(op_serial_bytes_to_read(&reg, &h), Ok(b"n".to_vec()));
    assert_eq!(op_serial_bytes_to_write(&reg, &h), Ok(b"n".to_vec()));
    assert_eq!(op_serial_read_all(&mut reg, &h), Err(OpError::Failed(SerialError::UnknownHandle)));
    assert_eq!(op_serial_read_clear_to_send(&mut reg, &h), Ok(b"n".to_vec()));
    assert_eq!(op_serial_read_data_set_ready(&mut reg, &h), Ok(b"n".to_vec()));
    assert_eq!(op_serial_read_ring_indicator(&mut reg, &h), Ok(b"n".to_vec()));
    assert_eq!(op_serial_read_carrier_detect(&mut reg, &h), Ok(b"n".to_vec()));
    let h2 = args(&[b"3", b"1"]);
    assert_eq!(op_serial_set_baud_rate(&mut reg, &args(&[b"3", b"9600"])), Ok(b"1".to_vec()));
    assert_eq!(op_serial_write_request_to_send(&mut reg, &h2), Ok(b"0".to_vec()));
    assert_eq!(op_serial_write_data_terminal_ready(&mut reg, &h2), Ok(b"0".to_vec()));
    assert_eq!(op_serial_clear(&mut reg, &h2), Ok(b"0".to_vec()));
    assert_eq!(
        op_serial_read(&mut reg, &args(&[b"3", b"10"])),
        Err(OpError::Failed(SerialError::UnknownHandle))
    );
    assert_eq!(op_serial_write(&mut reg, &args(&[b"3", b"abc"])), Ok(b"0".to_vec()));
    assert_eq!(op_serial_write_all(&mut reg, &args(&[b"3", b"abc"])), Ok(b"0".to_vec()));
    assert_eq!(reg.len(), 0);
}

#[test]
fn missing_arguments_fail_the_call() {
    let mut reg = PortRegistry::new();
    assert_eq!(op_close_serial(&mut reg, &args(&[])), Err(OpError::MissingArgument));
    assert_eq!(op_serial_set_baud_rate(&mut reg, &args(&[b"0"])), Err(OpError::MissingArgument));
    assert_eq!(op_serial_write(&mut reg, &args(&[b"0"])), Err(OpError::MissingArgument));
    assert_eq!(op_serial_read(&mut reg, &args(&[b"0"])), Err(OpError::MissingArgument));
    assert_eq!(op_new_serial(&mut reg, &args(&[b"/dev/null"])), Err(OpError::MissingArgument));
}

#[test]
fn malformed_arguments_fail_the_call() {
    let mut reg = PortRegistry::new();
    assert_eq!(op_close_serial(&mut reg, &args(&[b"x"])), Err(OpError::MalformedArgument));
    assert_eq!(
        op_serial_set_baud_rate(&mut reg, &args(&[b"0", b"fast"])),
        Err(OpError::MalformedArgument)
    );
    assert_eq!(
        op_new_serial(&mut reg, &args(&[b"/dev/ttyS0", b"-9600"])),
        Err(OpError::MalformedArgument)
    );
    assert_eq!(
        op_new_serial(&mut reg, &args(&[&[0xff, 0xfe], b"9600"])),
        Err(OpError::MalformedArgument)
    );
}

#[test]
fn open_invalid_path_allocates_nothing() {
    let mut reg = PortRegistry::new();
    let r = op_new_serial(&mut reg, &args(&[b"/nonexistent/serial-device", b"9600"]));
    assert!(matches!(r, Err(OpError::Failed(SerialError::Device(_)))));
    assert_eq!(reg.len(), 0);
    assert!(!reg.has_id(0));
    assert!(reg.open("/nonexistent/serial-device", 9600).is_err());
    assert_eq!(reg.len(), 0);
}

#[test]
fn decode_arguments() {
    let a = args(&[b"12", b"+5", b"no"]);
    assert_eq!(decode_u32(&a, 0), Ok(12));
    assert_eq!(decode_u32(&a, 1), Ok(5));
    assert_eq!(decode_u32(&a, 2), Err(OpError::MalformedArgument));
    assert_eq!(decode_u32(&a, 3), Err(OpError::MissingArgument));
}

#[test]
fn clear_selector() {
    assert_eq!(clear_target_of(0), ClearTarget::Input);
    assert_eq!(clear_target_of(1), ClearTarget::Output);
    assert_eq!(clear_target_of(2), ClearTarget::All);
    assert_eq!(clear_target_of(77), ClearTarget::All);
}

#[test]
fn reply_encodings() {
    assert_eq!(ack_reply(Ok(()), b'0', b'1'), Ok(b"0".to_vec()));
    assert_eq!(ack_reply(Err(SerialError::UnknownHandle), b'0', b'1'), Ok(b"1".to_vec()));
    let dev = SerialError::Device(DeviceFailure::Io);
    assert_eq!(ack_reply(Err(dev), b'0', b'1'), Err(OpError::Failed(dev)));
    assert_eq!(level_reply(Ok(())), b"1".to_vec());
    assert_eq!(level_reply(Err(dev)), b"0".to_vec());
    assert_eq!(level_reply(Err(SerialError::UnknownHandle)), b"0".to_vec());
    assert_eq!(count_reply(Ok(0)), b"0".to_vec());
    assert_eq!(count_reply(Ok(4096)), b"4096".to_vec());
    assert_eq!(count_reply(Err(dev)), b"n".to_vec());
    assert_eq!(line_reply(Ok(LineState::Asserted)), Ok(b"0".to_vec()));
    assert_eq!(line_reply(Ok(LineState::NotAsserted)), Ok(b"1".to_vec()));
    assert_eq!(line_reply(Err(SerialError::UnknownHandle)), Ok(b"n".to_vec()));
    assert_eq!(line_reply(Err(dev)), Err(OpError::Failed(dev)));
    assert_eq!(data_reply(Ok(vec![1, 2, 3])), Ok(vec![1, 2, 3]));
    assert_eq!(
        data_reply(Err(SerialError::UnknownHandle)),
        Err(OpError::Failed(SerialError::UnknownHandle))
    );
    assert_eq!(
        data_reply(Err(SerialError::EndOfStream)),
        Err(OpError::Failed(SerialError::EndOfStream))
    );
}

#[test]
fn kind_codes() {
    assert_eq!(kind_code(&PortKind::Pci), 1);
    let usb = UsbInfo { vid: 0x2341, pid: 0x0043, serial_number: None, manufacturer: None, product: None };
    assert_eq!(kind_code(&PortKind::Usb(usb)), 2);
    assert_eq!(kind_code(&PortKind::Bluetooth), 3);
    assert_eq!(kind_code(&PortKind::Unknown), 4);
}

#[test]
fn no_devices_list_empty() {
    assert!(describe_ports(Vec::new()).is_empty());
}

#[test]
fn devices_keep_their_order() {
    let infos = vec![
        serialport::SerialPortInfo { port_name: "/dev/ttyS0".to_string(), port_type: serialport::SerialPortType::PciPort },
        serialport::SerialPortInfo { port_name: "/dev/rfcomm0".to_string(), port_type: serialport::SerialPortType::BluetoothPort },
    ];
    let out = describe_ports(infos);
    assert_eq!(out.len(), 2);
    assert_eq!(out[0].name, "/dev/ttyS0");
    assert_eq!(out[0].kind, PortKind::Pci);
    assert_eq!(out[1].name, "/dev/rfcomm0");
    assert_eq!(out[1].kind, PortKind::Bluetooth);
}

#[test]
fn listing_of_no_devices_is_empty() {
    assert_eq!(listing(Ok(Vec::new())), Ok(Vec::new()));
}

#[test]
fn failed_listing_is_an_error() {
    let e = serialport::Error::new(serialport::ErrorKind::Unknown, "listing failed");
    assert_eq!(listing(Err(e)), Err(DeviceFailure::Unknown));
    let e = serialport::Error::new(serialport::ErrorKind::NoDevice, "gone");
    assert_eq!(listing(Err(e)), Err(DeviceFailure::NoDevice));
}

#[test]
fn listing_keeps_every_device() {
    let infos = vec![serialport::SerialPortInfo {
        port_name: "/dev/ttyS1".to_string(),
        port_type: serialport::SerialPortType::Unknown,
    }];
    let out = listing(Ok(infos)).unwrap();
    assert_eq!(out.len(), 1);
    assert_eq!(out[0].name, "/dev/ttyS1");
    assert_eq!(out[0].kind, PortKind::Unknown);
}

#[test]
fn device_errors_pass_through() {
    assert_eq!(from_serial(Ok::<u32, serialport::Error>(7)), Ok(7));
    let timeout = serialport::Error::new(serialport::ErrorKind::Io(std::io::ErrorKind::TimedOut), "t");
    assert_eq!(from_serial::<u32>(Err(timeout)), Err(SerialError::Device(DeviceFailure::TimedOut)));
    let other = serialport::Error::new(serialport::ErrorKind::Io(std::io::ErrorKind::Other), "o");
    assert_eq!(from_serial::<()>(Err(other)), Err(SerialError::Device(DeviceFailure::Io)));
    let bad = serialport::Error::new(serialport::ErrorKind::InvalidInput, "baud");
    assert_eq!(from_serial::<()>(Err(bad)), Err(SerialError::Device(DeviceFailure::InvalidInput)));
}

#[test]
fn line_results() {
    assert_eq!(line_result(Ok(true)), Ok(LineState::Asserted));
    assert_eq!(line_result(Ok(false)), Ok(LineState::NotAsserted));
    assert_eq!(line_result(Err(SerialError::UnknownHandle)), Err(SerialError::UnknownHandle));
}

#[test]
fn absorb_joins_the_delivered_prefix() {
    let mut data = vec![1u8, 2];
    assert_eq!(absorb(&mut data, &vec![7, 8, 9], 2), Ok(()));
    assert_eq!(data, vec![1, 2, 7, 8]);
    assert_eq!(absorb(&mut data, &vec![5], 1), Ok(()));
    assert_eq!(data, vec![1, 2, 7, 8, 5]);
}

#[test]
fn absorb_of_nothing_ends_the_stream() {
    let mut data = vec![1u8];
    assert_eq!(absorb(&mut data, &vec![0, 0], 0), Err(SerialError::EndOfStream));
    assert_eq!(data, vec![1]);
}
