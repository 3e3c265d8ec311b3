use tcpbasics::message::{Message, payload_is_sentinel};

#[test]
fn get_sender_of_each_peer() {
    let m0 = Message { payload: b"hello".to_vec(), origin: 0 };
    assert_eq!(m0.get_sender(), "0");
    let m1 = Message { payload: b"hi".to_vec(), origin: 1 };
    assert_eq!(m1.get_sender(), "1");
}

#[test]
fn get_sender_formats_any_id() {
    assert_eq!(Message { payload: Vec::new(), origin: 1234567890 }.get_sender(), "1234567890");
    assert_eq!(Message { payload: Vec::new(), origin: -7 }.get_sender(), "-7");
    assert_eq!(Message { payload: Vec::new(), origin: i32::MIN }.get_sender(), "-2147483648");
    assert_eq!(Message { payload: Vec::new(), origin: i32::MAX }.get_sender(), "2147483647");
}

#[test]
fn sentinel_is_exactly_quit() {
    assert!(payload_is_sentinel(&b"quit".to_vec()));
    assert!(!payload_is_sentinel(&b"quit\n".to_vec()));
    assert!(!payload_is_sentinel(&b"qui".to_vec()));
    assert!(!payload_is_sentinel(&b"quiz".to_vec()));
    assert!(!payload_is_sentinel(&Vec::new()));
}
