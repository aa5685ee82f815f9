use robot_link::error::ControlError;
use robot_link::serial::{
    code_upload_lines, port_entry, port_type_name, serial_baud, serial_line_wire, LineFramer,
    PortKind, ReadEvent,
};
use robot_link::session::{disconnected_status, SerialSession, SerialStore};

#[test]
fn framer_emits_trimmed_nonempty_lines() {
    let mut f = LineFramer::new();
    assert!(f.push_bytes(b"hel").is_empty());
    let lines = f.push_bytes(b"lo\r\n  \n world \npart");
    assert_eq!(lines, vec!["hello".to_string(), "world".to_string()]);
    assert_eq!(f.pending, "part");
    let lines = f.push_bytes(b"ial\n");
    assert_eq!(lines, vec!["partial".to_string()]);
    assert_eq!(f.pending, "");
}

#[test]
fn framer_decodes_lossily() {
    let mut f = LineFramer::new();
    let lines = f.push_bytes(b"a\xffb\n");
    assert_eq!(lines, vec!["a\u{fffd}b".to_string()]);
}

#[test]
fn reader_steps() {
    let mut f = LineFramer::new();
    let s = f.on_read(ReadEvent::Idle);
    assert!(!s.stop && s.lines.is_empty());
    let s = f.on_read(ReadEvent::Data(b"OK\n".to_vec()));
    assert!(!s.stop);
    assert_eq!(s.lines, vec!["OK".to_string()]);
    let s = f.on_read(ReadEvent::Failed("device gone".to_string()));
    assert!(s.stop);
    assert_eq!(s.lines, vec!["ERR SERIAL_READ device gone".to_string()]);
    let s = f.on_read(ReadEvent::Cancelled);
    assert!(s.stop && s.lines.is_empty());
}

#[test]
fn outgoing_line() {
    assert_eq!(serial_line_wire("  F \r\n"), "F\n");
    assert_eq!(serial_line_wire(""), "\n");
}

#[test]
fn code_upload_of_three_lines() {
    let upload = code_upload_lines("a = 1\r\nprint(a)   \nend").ok().unwrap();
    assert_eq!(upload.line_count, 3);
    let lines = upload.lines;
    assert_eq!(
        lines,
        vec![
            "BEGIN_CODE_UPLOAD 3".to_string(),
            "CODE 1 a = 1".to_string(),
            "CODE 2 print(a)".to_string(),
            "CODE 3 end".to_string(),
            "END_CODE_UPLOAD".to_string(),
        ]
    );
    assert_eq!(lines.len(), 5);
    let abc = code_upload_lines("a\nb\nc").ok().unwrap();
    assert_eq!(abc.line_count, 3);
    let wire: String = abc.lines.iter().map(|l| format!("{l}\n")).collect();
    assert_eq!(wire, "BEGIN_CODE_UPLOAD 3\nCODE 1 a\nCODE 2 b\nCODE 3 c\nEND_CODE_UPLOAD\n");
}

#[test]
fn code_upload_edges() {
    assert!(matches!(code_upload_lines(""), Err(ControlError::NoCodeContent)));
    assert_eq!(code_upload_lines("").err().unwrap().message(), "No code content to deploy");
    let l = code_upload_lines("x\n").ok().unwrap().lines;
    assert_eq!(l, vec!["BEGIN_CODE_UPLOAD 1", "CODE 1 x", "END_CODE_UPLOAD"]);
    let l = code_upload_lines("\n").ok().unwrap().lines;
    assert_eq!(l, vec!["BEGIN_CODE_UPLOAD 1", "CODE 1 ", "END_CODE_UPLOAD"]);
    let l = code_upload_lines("  a\n\nb").ok().unwrap().lines;
    assert_eq!(l[1], "CODE 1   a");
    assert_eq!(l[2], "CODE 2 ");
    assert_eq!(l.len(), 5);
    let text: String = (0..12).map(|i| format!("l{i}\n")).collect();
    let l = code_upload_lines(&text).ok().unwrap().lines;
    assert_eq!(l[0], "BEGIN_CODE_UPLOAD 12");
    assert_eq!(l[12], "CODE 12 l11");
}

#[test]
fn port_labels() {
    assert_eq!(port_type_name(&PortKind::Usb { product: Some("CP2102".to_string()) }), "usb:CP2102");
    assert_eq!(port_type_name(&PortKind::Usb { product: None }), "usb");
    assert_eq!(port_type_name(&PortKind::Bluetooth), "bluetooth");
    assert_eq!(port_type_name(&PortKind::Pci), "pci");
    assert_eq!(port_type_name(&PortKind::Unknown), "unknown");
    let e = port_entry("/dev/ttyUSB0", &PortKind::Pci);
    assert_eq!(e.port_name, "/dev/ttyUSB0");
    assert_eq!(e.port_type, "pci");
}

#[test]
fn serial_store_slot() {
    assert_eq!(serial_baud(None), 115200);
    assert_eq!(serial_baud(Some(9600)), 9600);
    let mut store: SerialStore<u8> = SerialStore::new();
    assert!(!store.status().connected);
    assert!(matches!(store.current(), Err(ControlError::NotConnected)));
    assert!(store.install(SerialSession { port_name: "/dev/a".to_string(), handle: 1 }).is_none());
    let old = store.install(SerialSession { port_name: "/dev/b".to_string(), handle: 2 });
    assert_eq!(old.unwrap().handle, 1);
    assert_eq!(store.status().port_name.as_deref(), Some("/dev/b"));
    assert_eq!(store.current().ok().unwrap().handle, 2);
    assert_eq!(store.clear().unwrap().handle, 2);
    assert!(store.clear().is_none());
    let d = disconnected_status();
    assert!(!d.connected && d.port_name.is_none());
}
