use serial_plugin::device::ClearTarget;
use serial_plugin::dispatch::op_close_serial;
use serial_plugin::dispatch::op_new_serial;
use serial_plugin::dispatch::op_serial_read_clear_to_send;
use serial_plugin::dispatch::op_serial_set_baud_rate;
use serial_plugin::dispatch::op_serial_write;
use serial_plugin::dispatch::op_serial_write_all;
use serial_plugin::dispatch::OpError;
use serial_plugin::dispatch::op_serial_bytes_to_read;
use serial_plugin::dispatch::op_serial_read;
use serial_plugin::dispatch::op_serial_set_break;
use serial_plugin::registry::PortRegistry;
use serial_plugin::registry::SerialError;
use serialport::SerialPort;
use std::io::Read;
use std::io::Write;

/// A pseudo-terminal: the far end, and the path of the near end. `None`
/// where the system offers no pseudo-terminals.
fn pseudo_terminal() -> Option<(serialport::TTYPort, String)> {
    let (master, slave) = match serialport::TTYPort::pair() {
        Ok(p) => p,
        Err(e) => {
            println!("no pseudo-terminal available: {}", e);
            return None;
        }
    };
    let name = slave.name()?;
    drop(slave);
    Some((master, name))
}

/// Reads `len` bytes from handle `h`, trying again while nothing has arrived yet.
fn read_when_ready(reg: &mut PortRegistry, h: u32, len: usize) -> Vec<u8> {
    for _ in 0..200_000 {
        match reg.read(h, len) {
            Ok(v) => return v,
            Err(SerialError::Device(_)) => continue,
            Err(e) => panic!("read failed: {:?}", e),
        }
    }
    panic!("no data arrived");
}

#[test]
fn handles_are_lowest_free() {
    let Some((_m1, p1)) = pseudo_terminal() else { return };
    let Some((_m2, p2)) = pseudo_terminal() else { return };
    let Some((_m3, p3)) = pseudo_terminal() else { return };
    let mut reg = PortRegistry::new();
    assert_eq!(reg.open(&p1, 9600), Ok(0));
    assert_eq!(reg.open(&p2, 9600), Ok(1));
    assert_eq!(reg.get_next_id(), 2);
    assert_eq!(reg.close(0), Ok(()));
    assert_eq!(reg.get_next_id(), 0);
    assert_eq!(reg.open(&p3, 9600), Ok(0));
    assert_eq!(reg.len(), 2);
    assert_eq!(reg.close(1), Ok(()));
    assert_eq!(reg.close(1), Err(SerialError::UnknownHandle));
}

#[test]
fn closed_handle_is_unknown() {
    let Some((_m, path)) = pseudo_terminal() else { return };
    let mut reg = PortRegistry::new();
    let h = reg.open(&path, 9600).unwrap();
    assert!(reg.has_id(h));
    let a = vec![h.to_string().into_bytes()];
    assert_eq!(op_close_serial(&mut reg, &a), Ok(b"0".to_vec()));
    assert!(!reg.has_id(h));
    assert_eq!(op_close_serial(&mut reg, &a), Ok(b"1".to_vec()));
    assert_eq!(op_serial_set_break(&reg, &a), Ok(b"1".to_vec()));
    assert_eq!(op_serial_bytes_to_read(&reg, &a), Ok(b"n".to_vec()));
    assert_eq!(reg.set_baud_rate(h, 9600), Err(SerialError::UnknownHandle));
    assert_eq!(reg.read(h, 1), Err(SerialError::UnknownHandle));
    assert_eq!(reg.write_all(h, b"x"), Err(SerialError::UnknownHandle));
    assert_eq!(reg.clear(h, ClearTarget::All), Err(SerialError::UnknownHandle));
}

#[test]
fn write_all_then_read_round_trips() {
    let Some((mut master, path)) = pseudo_terminal() else { return };
    let mut reg = PortRegistry::new();
    let h = reg.open(&path, 9600).unwrap();
    for len in [1usize, 4, 64, 300] {
        let data: Vec<u8> = (0..len).map(|i| (i % 251) as u8).collect();
        assert_eq!(reg.write_all(h, &data), Ok(()));
        let mut back = vec![0u8; len];
        master.read_exact(&mut back).unwrap();
        assert_eq!(back, data);
        master.write_all(&data).unwrap();
        assert_eq!(read_when_ready(&mut reg, h, len), data);
    }
    assert_eq!(reg.read(h, 0), Ok(Vec::new()));
}

#[test]
fn read_never_returns_short() {
    let Some((mut master, path)) = pseudo_terminal() else { return };
    let mut reg = PortRegistry::new();
    let h = reg.open(&path, 9600).unwrap();
    assert_eq!(reg.write(h, b"abc"), Ok(3));
    let mut back = [0u8; 3];
    master.read_exact(&mut back).unwrap();
    master.write_all(b"abc").unwrap();
    let a = vec![h.to_string().into_bytes(), b"10".to_vec()];
    match op_serial_read(&mut reg, &a) {
        Ok(v) => assert_eq!(v.len(), 10),
        Err(_) => {}
    }
}

#[test]
fn clear_all_twice_empties_input() {
    let Some((mut master, path)) = pseudo_terminal() else { return };
    let mut reg = PortRegistry::new();
    let h = reg.open(&path, 9600).unwrap();
    master.write_all(b"pending").unwrap();
    assert_eq!(reg.clear(h, ClearTarget::All), Ok(()));
    assert_eq!(reg.clear(h, ClearTarget::All), Ok(()));
    assert_eq!(reg.bytes_to_read(h), Ok(0));
}

#[test]
fn second_baud_rate_is_in_effect() {
    let Some((mut master, path)) = pseudo_terminal() else { return };
    let mut reg = PortRegistry::new();
    let h = reg.open(&path, 9600).unwrap();
    assert_eq!(reg.set_baud_rate(h, 9600), Ok(()));
    assert_eq!(reg.set_baud_rate(h, 115200), Ok(()));
    assert_eq!(reg.write_all(h, b"ok"), Ok(()));
    let mut back = [0u8; 2];
    master.read_exact(&mut back).unwrap();
    assert_eq!(&back, b"ok");
}

#[test]
fn buffer_operations_on_a_live_port() {
    let Some((mut master, path)) = pseudo_terminal() else { return };
    let mut reg = PortRegistry::new();
    let opened = op_new_serial(&mut reg, &vec![path.clone().into_bytes(), b"9600".to_vec()]);
    assert_eq!(opened, Ok(b"0".to_vec()));
    let h = b"0".to_vec();
    assert_eq!(op_serial_set_baud_rate(&mut reg, &vec![h.clone(), b"19200".to_vec()]), Ok(b"0".to_vec()));
    assert_eq!(op_serial_write(&mut reg, &vec![h.clone(), b"hi".to_vec()]), Ok(b"1".to_vec()));
    assert_eq!(op_serial_write_all(&mut reg, &vec![h.clone(), b"there".to_vec()]), Ok(b"1".to_vec()));
    let mut back = [0u8; 7];
    master.read_exact(&mut back).unwrap();
    assert_eq!(&back, b"hithere");
    master.write_all(b"xyz").unwrap();
    let mut count = Vec::new();
    for _ in 0..200_000 {
        count = op_serial_bytes_to_read(&reg, &vec![h.clone()]).unwrap();
        if count == b"3".to_vec() {
            break;
        }
    }
    assert_eq!(count, b"3".to_vec());
    assert_eq!(op_serial_read(&mut reg, &vec![h.clone(), b"3".to_vec()]), Ok(b"xyz".to_vec()));
    assert_eq!(op_serial_read(&mut reg, &vec![h.clone(), b"0".to_vec()]), Ok(Vec::new()));
    match op_serial_read_clear_to_send(&mut reg, &vec![h.clone()]) {
        Ok(v) => assert!(v == b"0".to_vec() || v == b"1".to_vec()),
        Err(e) => assert!(matches!(e, OpError::Failed(SerialError::Device(_)))),
    }
    let second = op_new_serial(&mut reg, &vec![path.into_bytes(), b"9600".to_vec()]);
    assert!(second == Ok(b"1".to_vec()) || matches!(second, Err(OpError::Failed(SerialError::Device(_)))));
}
