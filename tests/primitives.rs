use accel_tasks::channel::Channel;
use accel_tasks::signal::Signal;

#[test]
fn channel_is_fifo_and_refuses_send_when_full() {
    let mut ch: Channel<&'static str> = Channel::new(3);
    assert_eq!(ch.try_send("a"), Ok(false));
    assert_eq!(ch.try_send("b"), Ok(false));
    assert_eq!(ch.try_send("c"), Ok(false));
    assert!(ch.is_full());
    assert_eq!(ch.try_send("d"), Err("d"));
    assert_eq!(ch.len(), 3);
    assert_eq!(ch.try_receive(), Some(("a", true)));
    assert_eq!(ch.try_send("d"), Ok(false));
    assert_eq!(ch.try_receive(), Some(("b", false)));
    assert_eq!(ch.try_receive(), Some(("c", false)));
    assert_eq!(ch.try_receive(), Some(("d", false)));
    assert_eq!(ch.try_receive(), None);
    assert!(ch.is_empty());
}

#[test]
fn channel_interleaved_sends_and_receives_keep_order() {
    let mut ch: Channel<u32> = Channel::new(2);
    let mut received = Vec::new();
    let mut accepted = Vec::new();
    for v in 0u32..20 {
        if ch.try_send(v).is_ok() {
            accepted.push(v);
        }
        if v % 3 == 0 {
            if let Some((x, _)) = ch.try_receive() {
                received.push(x);
            }
        }
        assert!(ch.len() <= ch.capacity());
    }
    while let Some((x, _)) = ch.try_receive() {
        received.push(x);
    }
    assert_eq!(received, accepted);
    assert!(accepted.len() < 20);
}

#[test]
fn channel_reports_parked_receiver_to_wake() {
    let mut ch: Channel<u8> = Channel::new(1);
    assert_eq!(ch.try_receive(), None);
    assert_eq!(ch.try_send(5), Ok(true));
    assert_eq!(ch.try_send(6), Err(6));
    assert_eq!(ch.try_receive(), Some((5, true)));
    assert_eq!(ch.try_send(6), Ok(false));
    assert_eq!(ch.try_receive(), Some((6, false)));
}

#[test]
fn channel_of_zero_capacity_never_accepts() {
    let mut ch: Channel<u8> = Channel::new(0);
    assert!(ch.is_full());
    assert_eq!(ch.try_send(1), Err(1));
    assert_eq!(ch.try_receive(), None);
}

#[test]
fn signal_keeps_latest_value() {
    let mut sig: Signal<&'static str> = Signal::new();
    assert!(!sig.set("a"));
    assert!(!sig.set("b"));
    assert!(sig.signaled());
    assert_eq!(sig.try_take(), Some("b"));
    assert_eq!(sig.try_take(), None);
}

#[test]
fn signal_wait_without_set_stays_pending() {
    let mut sig: Signal<u8> = Signal::new();
    assert!(!sig.signaled());
    assert_eq!(sig.try_take(), None);
    assert!(sig.set(7));
    sig.reset();
    assert_eq!(sig.try_take(), None);
    assert!(sig.set(9));
    assert!(!sig.set(10));
    assert_eq!(sig.try_take(), Some(10));
}
