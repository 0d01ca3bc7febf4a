use quic_bridge::cancel_with_value::CancelWithValue;

#[test]
fn a_new_token_has_not_fired() {
    let token: CancelWithValue<u64> = CancelWithValue::new();
    assert!(!token.is_cancelled());
    assert_eq!(token.cancelled(), None);
}

#[test]
fn cancelled_returns_the_fired_value() {
    let mut token: CancelWithValue<u64> = CancelWithValue::new();
    token.cancel(42);
    assert!(token.is_cancelled());
    assert_eq!(token.cancelled(), Some(42));
}

#[test]
fn every_observer_after_firing_sees_the_value() {
    let mut token: CancelWithValue<String> = CancelWithValue::new();
    token.cancel(String::from("stop"));
    for _ in 0..5 {
        assert_eq!(token.cancelled(), Some(String::from("stop")));
    }
}

#[test]
fn firing_again_overwrites_the_value_and_stays_fired() {
    let mut token: CancelWithValue<u32> = CancelWithValue::new();
    token.cancel(1);
    token.cancel(2);
    assert!(token.is_cancelled());
    assert_eq!(token.cancelled(), Some(2));
}

#[test]
fn firing_with_the_default_value_still_fires() {
    let mut token: CancelWithValue<u8> = CancelWithValue::new();
    token.cancel(0);
    assert_eq!(token.cancelled(), Some(0));
}
