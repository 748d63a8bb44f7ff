use rkiwi::error::Error;
use rkiwi::error::ErrorChannel;
use rkiwi::error::check_status;
use rkiwi::error::decode_added;
use rkiwi::error::decode_size;
use rkiwi::error::fallback_message;
use rkiwi::error::message_of;
use rkiwi::error::require_present;

#[test]
fn present_message_is_kept() {
    assert_eq!(message_of(Some(String::from("model path not found"))), "model path not found");
}

#[test]
fn absent_message_maps_to_the_fallback() {
    assert_eq!(message_of(None), fallback_message());
}

#[test]
fn empty_message_maps_to_the_fallback() {
    assert_eq!(message_of(Some(String::new())), fallback_message());
}

#[test]
fn channel_read_clears_the_slot() {
    let mut channel = ErrorChannel::new();
    channel.post(String::from("bad dictionary line"));
    assert_eq!(channel.take().unwrap(), "bad dictionary line");
    // A second read before another failure yields nothing.
    assert!(channel.take().is_none());
}

#[test]
fn channel_treats_empty_as_no_error() {
    let mut channel = ErrorChannel::new();
    channel.post(String::new());
    assert!(channel.take().is_none());
}

#[test]
fn channel_overwrites_pending_errors() {
    let mut channel = ErrorChannel::new();
    channel.post(String::from("first"));
    channel.post(String::from("second"));
    assert_eq!(channel.take().unwrap(), "second");
    assert!(channel.take().is_none());
}

#[test]
fn zero_status_is_success() {
    assert!(check_status(0, None).is_ok());
}

#[test]
fn nonzero_status_is_a_native_error_with_the_message() {
    let r = check_status(-1, Some(String::from("unknown morpheme")));
    match r {
        Err(Error::Native(m)) => assert_eq!(m, "unknown morpheme"),
        _ => panic!("expected a native error"),
    }
}

#[test]
fn nonzero_status_without_message_uses_the_fallback() {
    let r = check_status(3, None);
    match r {
        Err(Error::Native(m)) => assert_eq!(m, fallback_message()),
        _ => panic!("expected a native error"),
    }
}

#[test]
fn nonnegative_counts_decode_to_their_value() {
    assert_eq!(decode_size(0, None).unwrap(), 0);
    assert_eq!(decode_size(41, None).unwrap(), 41);
}

#[test]
fn negative_counts_decode_to_a_native_error() {
    let r = decode_size(-2, Some(String::from("handle closed")));
    match r {
        Err(Error::Native(m)) => assert_eq!(m, "handle closed"),
        _ => panic!("expected a native error"),
    }
}

#[test]
fn blocklist_insertion_decodes_all_three_states() {
    assert_eq!(decode_added(1, None).unwrap(), true);
    assert_eq!(decode_added(0, None).unwrap(), false);
    assert!(decode_added(-1, None).is_err());
}

#[test]
fn present_handles_pass_through() {
    assert_eq!(require_present(Some(99u64), None).unwrap(), 99);
}

#[test]
fn null_handles_become_native_errors() {
    let r: Result<u64, Error> = require_present(None, Some(String::from("init failed")));
    match r {
        Err(Error::Native(m)) => assert_eq!(m, "init failed"),
        _ => panic!("expected a native error"),
    }
}

#[test]
fn error_messages_are_readable() {
    let e = Error::Native(String::from("boom"));
    assert_eq!(e.message(), "boom");
    let c = Error::Conversion(String::from("bad text"));
    assert_eq!(c.message(), "bad text");
}
