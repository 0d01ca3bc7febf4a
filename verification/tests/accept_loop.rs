use quic_bridge::accept_loop::{AcceptEvent, AcceptLoop, AcceptNotice};
use quic_bridge::transport::ConnectionFailure;

fn application_close(code: u32, reason: &'static [u8]) -> quinn::ConnectionError {
    quinn::ConnectionError::ApplicationClosed(quinn::ApplicationClose {
        error_code: quinn::VarInt::from_u32(code),
        reason: bytes::Bytes::from_static(reason),
    })
}

fn connection_close(reason: &'static [u8]) -> quinn::ConnectionError {
    quinn::ConnectionError::ConnectionClosed(quinn::ConnectionClose {
        error_code: quinn::TransportErrorCode::NO_ERROR,
        frame_type: None,
        reason: bytes::Bytes::from_static(reason),
    })
}

fn error_text(notice: Option<AcceptNotice<u8, u8>>) -> Option<String> {
    match notice {
        Some(AcceptNotice::Error(text)) => Some(text),
        Some(AcceptNotice::NewStream { .. }) => panic!("a stream was announced"),
        None => None,
    }
}

#[test]
fn a_new_accept_loop_is_running() {
    assert!(AcceptLoop::new().is_running());
}

#[test]
fn a_bidirectional_offer_is_announced_with_both_halves() {
    let mut accept = AcceptLoop::new();
    match accept.step(AcceptEvent::Bidirectional("w", "r")) {
        Some(AcceptNotice::NewStream { mut stream, unidirectional }) => {
            assert!(!unidirectional);
            assert!(!stream.is_claimed());
            assert!(!stream.is_unidirectional());
            assert_eq!(stream.claim(), (Some("w"), "r"));
        }
        _ => panic!("no stream was announced"),
    }
    assert!(accept.is_running());
}

#[test]
fn a_unidirectional_offer_is_announced_without_a_write_half() {
    let mut accept = AcceptLoop::new();
    match accept.step(AcceptEvent::<&str, &str>::Unidirectional("r")) {
        Some(AcceptNotice::NewStream { mut stream, unidirectional }) => {
            assert!(unidirectional);
            assert!(stream.is_unidirectional());
            assert_eq!(stream.claim(), (None, "r"));
        }
        _ => panic!("no stream was announced"),
    }
    assert!(accept.is_running());
}

#[test]
fn an_orderly_end_stops_the_loop_in_silence() {
    for kind in [
        ConnectionFailure::ConnectionClosed,
        ConnectionFailure::ApplicationClosed,
        ConnectionFailure::Reset,
        ConnectionFailure::LocallyClosed,
    ] {
        let mut accept = AcceptLoop::new();
        let notice = accept.step(AcceptEvent::<u8, u8>::Failed(kind, String::from("gone")));
        assert_eq!(error_text(notice), None);
        assert!(!accept.is_running());
    }
}

#[test]
fn a_fault_is_reported_once_and_stops_the_loop() {
    for kind in [
        ConnectionFailure::VersionMismatch,
        ConnectionFailure::TransportError,
        ConnectionFailure::TimedOut,
        ConnectionFailure::CidsExhausted,
    ] {
        let mut accept = AcceptLoop::new();
        let notice = accept.step(AcceptEvent::<u8, u8>::Failed(kind, String::from("broken")));
        assert_eq!(error_text(notice), Some(String::from("broken")));
        assert!(!accept.is_running());
    }
}

#[test]
fn nothing_is_delivered_after_the_first_failure() {
    let mut accept = AcceptLoop::new();
    assert!(accept.step(AcceptEvent::Bidirectional(1u8, 2u8)).is_some());
    assert!(accept.step(AcceptEvent::<u8, u8>::Unidirectional(3)).is_some());
    let notice = accept.step(AcceptEvent::<u8, u8>::Failed(
        ConnectionFailure::TimedOut,
        String::from("timed out"),
    ));
    assert_eq!(error_text(notice), Some(String::from("timed out")));
    assert!(accept.step(AcceptEvent::Bidirectional(4u8, 5u8)).is_none());
    assert!(accept.step(AcceptEvent::<u8, u8>::Unidirectional(6)).is_none());
    let again = accept.step(AcceptEvent::<u8, u8>::Failed(
        ConnectionFailure::TimedOut,
        String::from("timed out"),
    ));
    assert!(again.is_none());
    assert!(!accept.is_running());
}

#[test]
fn every_offer_before_a_failure_is_announced() {
    let mut accept = AcceptLoop::new();
    let mut announced = 0;
    for i in 0..20u8 {
        let notice = if i % 2 == 0 {
            accept.step(AcceptEvent::Bidirectional(i, i))
        } else {
            accept.step(AcceptEvent::<u8, u8>::Unidirectional(i))
        };
        match notice {
            Some(AcceptNotice::NewStream { unidirectional, .. }) => {
                assert_eq!(unidirectional, i % 2 == 1);
                announced += 1;
            }
            _ => panic!("offer {} was not announced", i),
        }
    }
    assert_eq!(announced, 20);
    assert!(accept.is_running());
}

#[test]
fn handle_bidi_announces_an_accepted_stream() {
    let mut accept = AcceptLoop::new();
    match accept.handle_bidi::<u8, u8>(Ok((1, 2))) {
        Some(AcceptNotice::NewStream { mut stream, unidirectional }) => {
            assert!(!unidirectional);
            assert_eq!(stream.claim(), (Some(1), 2));
        }
        _ => panic!("no stream was announced"),
    }
    assert!(accept.is_running());
}

#[test]
fn handle_uni_announces_a_receive_only_stream() {
    let mut accept = AcceptLoop::new();
    match accept.handle_uni::<u8, u8>(Ok(9)) {
        Some(AcceptNotice::NewStream { mut stream, unidirectional }) => {
            assert!(unidirectional);
            assert_eq!(stream.claim(), (None, 9));
        }
        _ => panic!("no stream was announced"),
    }
    assert!(accept.is_running());
}

#[test]
fn handle_bidi_stays_silent_on_an_orderly_end() {
    let errors = [
        quinn::ConnectionError::LocallyClosed,
        quinn::ConnectionError::Reset,
        application_close(7, b"bye"),
        connection_close(b""),
    ];
    for error in errors {
        let mut accept = AcceptLoop::new();
        assert_eq!(error_text(accept.handle_bidi(Err(error))), None);
        assert!(!accept.is_running());
    }
}

#[test]
fn handle_bidi_reports_a_fault_with_the_transport_text() {
    let mut accept = AcceptLoop::new();
    let notice = accept.handle_bidi(Err(quinn::ConnectionError::TimedOut));
    assert_eq!(error_text(notice), Some(String::from("timed out")));
    assert!(!accept.is_running());
}

#[test]
fn handle_uni_reports_a_fault_with_the_transport_text() {
    let mut accept = AcceptLoop::new();
    let notice = accept.handle_uni(Err(quinn::ConnectionError::VersionMismatch));
    assert_eq!(
        error_text(notice),
        Some(String::from("peer doesn't implement any supported version"))
    );
    assert!(!accept.is_running());

    let mut accept = AcceptLoop::new();
    let notice = accept.handle_uni(Err(quinn::ConnectionError::CidsExhausted));
    assert_eq!(error_text(notice), Some(String::from("CIDs exhausted")));
    assert!(!accept.is_running());
}

#[test]
fn handle_uni_stays_silent_on_an_orderly_end() {
    let mut accept = AcceptLoop::new();
    assert_eq!(error_text(accept.handle_uni(Err(quinn::ConnectionError::LocallyClosed))), None);
    assert!(!accept.is_running());
}

#[test]
fn a_stopped_loop_ignores_results_of_the_transport() {
    let mut accept = AcceptLoop::new();
    assert!(accept.handle_bidi::<u8, u8>(Err(quinn::ConnectionError::Reset)).is_none());
    assert!(accept.handle_bidi::<u8, u8>(Ok((1, 2))).is_none());
    assert!(accept.handle_uni::<u8, u8>(Ok(3)).is_none());
    assert!(accept.handle_uni::<u8, u8>(Err(quinn::ConnectionError::TimedOut)).is_none());
    assert!(!accept.is_running());
}
