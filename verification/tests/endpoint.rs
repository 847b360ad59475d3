use sel4::{
    check_message_limits, Error, GoOn, RecvToken, MSG_MAX_EXTRA_CAPS, MSG_MAX_LENGTH,
};

#[test]
fn message_limits_match_kernel_buffer() {
    assert_eq!(MSG_MAX_LENGTH, 120);
    assert_eq!(MSG_MAX_EXTRA_CAPS, 3);
}

#[test]
fn oversized_data_is_rejected_before_any_call() {
    assert_eq!(
        check_message_limits(MSG_MAX_LENGTH + 1, 0),
        Err(Error(GoOn::TooMuchData))
    );
    assert_eq!(
        check_message_limits(usize::MAX, MSG_MAX_EXTRA_CAPS + 1),
        Err(Error(GoOn::TooMuchData))
    );
}

#[test]
fn oversized_caps_are_rejected_before_any_call() {
    assert_eq!(
        check_message_limits(0, MSG_MAX_EXTRA_CAPS + 1),
        Err(Error(GoOn::TooManyCaps))
    );
}

#[test]
fn fitting_messages_pass_the_local_checks() {
    assert_eq!(check_message_limits(0, 0), Ok(()));
    assert_eq!(check_message_limits(MSG_MAX_LENGTH, MSG_MAX_EXTRA_CAPS), Ok(()));
}

#[test]
fn recv_token_carries_message_information() {
    let t = RecvToken::from_raw(0xbeef, 17, 2, 6);
    assert_eq!(t.badge, 0xbeef);
    assert_eq!(t.label, 17);
    assert_eq!(t.caps_unwrapped(), 2);
    assert_eq!(t.words_transferred(), 6);
}

#[test]
fn zero_badge_is_the_no_sender_sentinel() {
    // A non-blocking receive that found no waiting sender reports the zero
    // badge immediately; that sentinel is the only indication.
    let empty = RecvToken::from_raw(0, 0, 0, 0);
    assert!(!empty.message_available());
    let real = RecvToken::from_raw(1, 0, 0, 0);
    assert!(real.message_available());
}

#[test]
fn capacity_checks_accept_room_for_the_message() {
    let t = RecvToken::from_raw(1, 0, 2, 6);
    assert!(t.data_capacity_ok(MSG_MAX_LENGTH));
    assert!(t.data_capacity_ok(6));
    assert!(!t.data_capacity_ok(5));
    assert!(t.caps_capacity_ok(MSG_MAX_EXTRA_CAPS));
    assert!(t.caps_capacity_ok(2));
    assert!(!t.caps_capacity_ok(1));
}
