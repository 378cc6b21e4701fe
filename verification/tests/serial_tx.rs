use stm32f4ve::serial_tx::{greeting, Transmitter, BAUD_RATE};

#[test]
fn greeting_is_hello_world() {
    assert_eq!(greeting(), b"Hello World \r\n".to_vec());
    assert_eq!(BAUD_RATE, 115_200);
}

#[test]
fn new_transmitter_offers_first_byte() {
    let t = Transmitter::new(greeting());
    assert_eq!(t.next_byte(), Some(b'H'));
    assert!(!t.is_done());
    assert!(t.sent_bytes().is_empty());
}

#[test]
fn refused_write_offers_same_byte_again() {
    let mut t = Transmitter::new(greeting());
    t.on_write(true);
    assert_eq!(t.next_byte(), Some(b'e'));
    t.on_write(false);
    t.on_write(false);
    assert_eq!(t.next_byte(), Some(b'e'));
    assert_eq!(t.sent_bytes(), b"H");
}

#[test]
fn line_receives_message_in_order_despite_refusals() {
    let mut t = Transmitter::new(greeting());
    let mut line = Vec::new();
    let mut attempt = 0u32;
    while let Some(b) = t.next_byte() {
        let accepted = attempt % 3 != 1;
        if accepted {
            line.push(b);
        }
        t.on_write(accepted);
        attempt += 1;
    }
    assert!(t.is_done());
    assert_eq!(line, b"Hello World \r\n".to_vec());
    assert_eq!(t.sent_bytes(), b"Hello World \r\n");
}

#[test]
fn done_transmitter_sends_nothing_more() {
    let mut t = Transmitter::new(vec![1, 2]);
    t.on_write(true);
    t.on_write(true);
    assert!(t.is_done());
    assert_eq!(t.next_byte(), None);
    t.on_write(true);
    assert_eq!(t.sent_bytes(), &[1, 2]);
}

#[test]
fn empty_message_is_done_at_once() {
    let t = Transmitter::new(Vec::new());
    assert!(t.is_done());
    assert_eq!(t.next_byte(), None);
}
