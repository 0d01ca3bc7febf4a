use quic_bridge::pairing::PartialStream;
use quic_bridge::take_once::TakeOnce;

#[test]
fn take_returns_the_payload_once() {
    let mut cell = TakeOnce::new(7u32);
    assert!(!cell.is_taken());
    assert_eq!(cell.take(), 7);
    assert!(cell.is_taken());
    assert_eq!(cell.try_take(), None);
}

#[test]
fn try_take_succeeds_exactly_once_among_many_attempts() {
    let mut cell = TakeOnce::new(String::from("payload"));
    let mut successes = 0;
    let mut first = None;
    for attempt in 0..10 {
        if let Some(value) = cell.try_take() {
            successes += 1;
            first = Some((attempt, value));
        }
    }
    assert_eq!(successes, 1);
    assert_eq!(first, Some((0, String::from("payload"))));
}

#[test]
fn try_take_on_a_fresh_cell_yields_the_payload() {
    let mut cell = TakeOnce::new(vec![1u8, 2, 3]);
    assert_eq!(cell.try_take(), Some(vec![1u8, 2, 3]));
    assert!(cell.is_taken());
}

#[test]
fn peek_reads_without_claiming() {
    let mut cell = TakeOnce::new(41u64);
    assert_eq!(cell.peek(|v| *v + 1), 42);
    assert_eq!(cell.peek(|v| *v * 2), 82);
    assert!(!cell.is_taken());
    assert_eq!(cell.take(), 41);
}

#[test]
fn peek_sees_an_absent_marker() {
    let cell: TakeOnce<Option<u8>> = TakeOnce::new(None);
    assert!(cell.peek(|v| v.is_none()));
    let cell: TakeOnce<Option<u8>> = TakeOnce::new(Some(3));
    assert!(!cell.peek(|v| v.is_none()));
}

#[test]
fn bidirectional_pairing_holds_both_halves() {
    let mut stream = PartialStream::bidirectional("send", "recv");
    assert!(!stream.is_claimed());
    assert!(!stream.is_unidirectional());
    assert_eq!(stream.claim(), (Some("send"), "recv"));
    assert!(stream.is_claimed());
}

#[test]
fn unidirectional_pairing_has_no_write_half() {
    let mut stream: PartialStream<&str, &str> = PartialStream::unidirectional("recv");
    assert!(!stream.is_claimed());
    assert!(stream.is_unidirectional());
    assert_eq!(stream.claim(), (None, "recv"));
    assert!(stream.is_claimed());
}
