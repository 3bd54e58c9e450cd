use hyperwarp::connection::{get_empty_transports_vec, Connection, NullTransport, NullTransporter, Transport, Transporter};

#[test]
fn null_transport_never_blocks() {
    let mut t = NullTransport {};
    assert_eq!(t.send(&[1, 2, 3]).unwrap(), false);
    assert_eq!(t.send_vec(&vec![1]).unwrap(), false);
    let mut buf = [7u8; 4];
    assert_eq!(t.recv(&mut buf).unwrap(), false);
    assert_eq!(buf, [7u8; 4]);
    assert!(t.init().is_ok() && t.close().is_ok() && t.is_connected());
}

#[test]
fn null_transporter_has_no_transports() {
    assert!(get_empty_transports_vec().is_empty());
    let n = NullTransporter {};
    assert!(n.get_transports().is_empty());
    let mut c = Connection::new(Box::new(NullTransporter {}));
    assert!(c.start().is_ok());
}
