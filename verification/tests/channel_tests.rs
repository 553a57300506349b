use wakerbench::channel::{SignalChannel, WakeError, DRAIN_CHUNK, PIPE_CAPACITY};

fn fresh_channel() -> SignalChannel {
    SignalChannel::create(3, 4).unwrap()
}

#[test]
fn create_keeps_the_descriptors() {
    let ch = SignalChannel::create(5, 9).unwrap();
    assert_eq!(ch.read_end_handle(), 5);
    assert_eq!(ch.write_end_handle(), 9);
    assert!(!ch.is_ready());
}

#[test]
fn create_rejects_invalid_descriptors() {
    assert!(matches!(
        SignalChannel::create(-1, -1),
        Err(WakeError::ResourceExhausted)
    ));
    assert!(matches!(
        SignalChannel::create(3, -1),
        Err(WakeError::ResourceExhausted)
    ));
    assert!(matches!(
        SignalChannel::create(7, 7),
        Err(WakeError::ResourceExhausted)
    ));
}

#[test]
fn wake_error_is_copyable_and_comparable() {
    let e = WakeError::ResourceExhausted;
    let f = e;
    assert_eq!(e, f);
}

#[test]
fn single_post_round_trip() {
    let mut ch = fresh_channel();
    assert!(!ch.is_ready());
    assert!(ch.post());
    assert!(ch.is_ready());
    let reads = ch.drain();
    assert_eq!(reads, 1);
    assert!(!ch.is_ready());
}

#[test]
fn drain_of_idle_channel_reads_nothing() {
    let mut ch = fresh_channel();
    let reads = ch.drain();
    assert_eq!(reads, 0);
    assert!(!ch.is_ready());
}

#[test]
fn drain_reads_in_chunks() {
    let mut ch = fresh_channel();
    let posts = DRAIN_CHUNK + 1;
    for _ in 0..posts {
        assert!(ch.post());
    }
    let reads = ch.drain();
    assert_eq!(reads, 2);
    assert!(!ch.is_ready());
}

#[test]
fn posts_past_capacity_are_lost() {
    let mut ch = fresh_channel();
    for _ in 0..PIPE_CAPACITY {
        assert!(ch.post());
    }
    assert!(!ch.post());
    assert!(!ch.post());
    assert!(ch.is_ready());
    let reads = ch.drain();
    assert_eq!(reads, PIPE_CAPACITY / DRAIN_CHUNK);
    assert!(!ch.is_ready());
}
