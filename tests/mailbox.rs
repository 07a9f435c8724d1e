use led_echo::mailbox::Mailbox;

#[test]
fn mailbox_take_twice() {
    let mut m = Mailbox::new();
    m.publish(b'q');
    assert!(m.is_pending());
    assert_eq!(m.take(), Some(b'q'));
    assert_eq!(m.take(), None);
    assert!(!m.is_pending());
}

#[test]
fn mailbox_overwrites_unread_byte() {
    let mut m = Mailbox::new();
    m.publish(b'1');
    m.publish(b'2');
    assert_eq!(m.take(), Some(b'2'));
    assert_eq!(m.take(), None);
}

#[test]
fn mailbox_starts_empty() {
    let mut m = Mailbox::new();
    assert_eq!(m.take(), None);
}
