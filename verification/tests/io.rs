use futures_glib::error;
use futures_glib::io::{bits, bits_new, rc, ChannelError, IoCondition, IoStatus, G_IO_IN, G_IO_OUT};

#[test]
fn new_condition_is_empty() {
    let c = IoCondition::new();
    assert_eq!(bits(&c), 0);
    assert!(!c.is_input());
    assert!(!c.is_output());
}

#[test]
fn input_and_output_chain() {
    let mut c = IoCondition::new();
    c.input(true).output(true);
    assert!(c.is_input());
    assert!(c.is_output());
    assert_eq!(bits(&c), G_IO_IN | G_IO_OUT);
    assert_eq!(bits(&c), 5);
}

#[test]
fn flags_are_independent() {
    let mut c = IoCondition::new();
    c.input(true).output(true);
    c.input(false);
    assert!(!c.is_input());
    assert!(c.is_output());
    c.output(false);
    assert!(!c.is_output());
    assert_eq!(bits(&c), 0);
}

#[test]
fn flag_change_keeps_other_bits() {
    // G_IO_PRI (2), G_IO_ERR (8) and G_IO_HUP (16) stay as they were.
    let mut c = bits_new(2 | 8 | 16 | 1);
    c.input(false);
    assert_eq!(bits(&c), 2 | 8 | 16);
    c.output(true);
    assert_eq!(bits(&c), 2 | 4 | 8 | 16);
}

#[test]
fn last_change_wins() {
    let mut a = IoCondition::new();
    a.input(true).input(true);
    let mut b = IoCondition::new();
    b.input(true);
    assert_eq!(a, b);
    a.input(false);
    assert_eq!(a, IoCondition::new());
}

#[test]
fn bits_round_trip() {
    assert_eq!(bits(&bits_new(37)), 37);
    assert!(bits_new(1).is_input());
    assert!(!bits_new(1).is_output());
    assert!(bits_new(4).is_output());
}

#[test]
fn rc_normal_gives_amount() {
    assert_eq!(rc(IoStatus::Normal, Some(7), None).ok(), Some(7));
    assert_eq!(rc(IoStatus::Normal, None, None).ok(), Some(0));
}

#[test]
fn rc_eof_gives_zero() {
    assert_eq!(rc(IoStatus::Eof, Some(0), None).ok(), Some(0));
    assert_eq!(rc(IoStatus::Eof, None, None).ok(), Some(0));
}

#[test]
fn rc_again_would_block() {
    match rc(IoStatus::Again, Some(0), None) {
        Err(ChannelError::WouldBlock) => {}
        other => panic!("unexpected {:?}", other),
    }
}

#[test]
fn rc_error_carries_glib_error() {
    let e = error::new(3, 4, b"no such file".to_vec());
    match rc(IoStatus::Error, None, Some(e)) {
        Err(ChannelError::Glib(e)) => {
            assert_eq!(e.domain(), 3);
            assert_eq!(e.code(), 4);
            assert_eq!(e.message(), "no such file");
        }
        other => panic!("unexpected {:?}", other),
    }
}

#[test]
fn last_output_change_decides_whatever_inputs_follow() {
    let mut c = IoCondition::new();
    c.output(true);
    c.input(true).input(false).input(true);
    assert!(c.is_output());
    c.output(false);
    c.input(false).input(true);
    assert!(!c.is_output());
    assert!(c.is_input());
}
