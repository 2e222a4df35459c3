use hapi::ident::decode_fixed;
use hapi::process::{alive_status, Process};

fn wire_reply() -> Vec<u8> {
    let mut buf = Vec::new();
    for i in 0..36u8 {
        buf.push(b'a' + (i % 26));
    }
    buf.push(0);
    buf
}

#[test]
fn process_from_wire_and_pid() {
    let buf = wire_reply();
    let p = Process::from_wire(&buf).unwrap();
    assert_eq!(p.pid().bytes().as_slice(), &buf[..36]);
}

#[test]
fn process_from_wire_rejects_missing_terminator() {
    let buf = vec![b'a'; 40];
    assert!(Process::from_wire(&buf).is_none());
}

#[test]
fn process_from_wire_rejects_short_reply() {
    let mut buf = vec![b'a'; 10];
    buf.push(0);
    assert!(Process::from_wire(&buf).is_none());
}

#[test]
fn process_from_id_keeps_pid() {
    let buf = wire_reply();
    let id = decode_fixed(&buf).unwrap();
    let copy = id.duplicate();
    let p = Process::from_id(id);
    assert!(p.pid() == copy);
}

#[test]
fn alive_statuses() {
    assert!(alive_status(1));
    assert!(alive_status(7));
    assert!(!alive_status(0));
    assert!(!alive_status(-1));
}
