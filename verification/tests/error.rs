use futures_glib::error;

#[test]
fn error_fields() {
    let e = error::new(12, -1, b"bad thing".to_vec());
    assert_eq!(e.domain(), 12);
    assert_eq!(e.code(), -1);
    assert_eq!(e.message_bytes(), b"bad thing");
    assert_eq!(e.message(), "bad thing");
    assert_eq!(e.try_message(), Some("bad thing"));
}

#[test]
fn error_message_not_utf8() {
    let e = error::new(1, 2, vec![0xff, 0xfe]);
    assert_eq!(e.try_message(), None);
    assert_eq!(e.message_bytes(), &[0xff, 0xfe]);
}

#[test]
fn message_bytes_are_the_text() {
    let e = error::new(0, 0, "héllo".as_bytes().to_vec());
    assert_eq!(e.message().as_bytes(), e.message_bytes());
    assert_eq!(e.message(), "héllo");
}
