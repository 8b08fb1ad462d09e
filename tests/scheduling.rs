use accel_tasks::channel::Channel;
use accel_tasks::executor::{Executor, Suspend, TaskState};
use accel_tasks::signal::Signal;
use accel_tasks::tasks::{Blinker, ButtonFollower, MessageCycle, MessageSink};

#[test]
fn ready_tasks_run_round_robin() {
    let mut ex = Executor::new(3);
    assert_eq!(ex.len(), 3);
    assert_eq!(ex.next_task(), Some(0));
    assert_eq!(ex.state(0), TaskState::Running);
    ex.suspend(0, Suspend::Yield);
    assert_eq!(ex.next_task(), Some(1));
    ex.suspend(1, Suspend::Yield);
    assert_eq!(ex.next_task(), Some(2));
    ex.suspend(2, Suspend::Yield);
    assert_eq!(ex.next_task(), Some(0));
}

#[test]
fn suspended_tasks_are_skipped_until_woken() {
    let mut ex = Executor::new(3);
    assert_eq!(ex.next_task(), Some(0));
    ex.suspend(0, Suspend::Wait);
    assert_eq!(ex.next_task(), Some(1));
    ex.suspend(1, Suspend::SleepUntil(100));
    assert_eq!(ex.next_task(), Some(2));
    ex.suspend(2, Suspend::Finish);
    assert_eq!(ex.next_task(), None);
    assert_eq!(ex.next_deadline(), Some(100));
    ex.tick(99);
    assert_eq!(ex.next_task(), None);
    ex.tick(100);
    assert_eq!(ex.state(1), TaskState::Ready);
    ex.wake(0);
    ex.wake(2);
    assert_eq!(ex.state(2), TaskState::Done);
    assert_eq!(ex.next_task(), Some(0));
    assert_eq!(ex.next_task(), Some(1));
    assert_eq!(ex.next_task(), None);
    assert!(!ex.all_done());
    ex.suspend(0, Suspend::Finish);
    ex.suspend(1, Suspend::Finish);
    assert!(ex.all_done());
    assert_eq!(ex.next_deadline(), None);
}

#[test]
fn earliest_deadline_is_reported() {
    let mut ex = Executor::new(4);
    for i in 0..4 {
        assert_eq!(ex.next_task(), Some(i));
    }
    ex.suspend(0, Suspend::SleepUntil(500));
    ex.suspend(1, Suspend::SleepUntil(300));
    ex.suspend(2, Suspend::SleepUntil(700));
    ex.suspend(3, Suspend::Wait);
    assert_eq!(ex.next_deadline(), Some(300));
    ex.tick(500);
    assert_eq!(ex.state(0), TaskState::Ready);
    assert_eq!(ex.state(1), TaskState::Ready);
    assert_eq!(ex.state(2), TaskState::Sleeping(700));
    assert_eq!(ex.state(3), TaskState::Waiting);
}

#[test]
fn empty_executor_has_nothing_to_run() {
    let mut ex = Executor::new(0);
    assert_eq!(ex.next_task(), None);
    assert!(ex.all_done());
}

#[test]
fn blinker_alternates_starting_low() {
    let mut b = Blinker::new(500);
    assert_eq!(b.step(), (false, 500));
    assert_eq!(b.step(), (true, 500));
    assert_eq!(b.step(), (false, 500));
}

#[test]
fn button_follower_tracks_levels() {
    let mut f = ButtonFollower::new();
    assert!(f.awaited_level());
    assert!(f.on_level_reached());
    assert!(!f.awaited_level());
    assert!(!f.on_level_reached());
    assert!(f.awaited_level());
}

#[test]
fn message_cycle_sends_until_channel_full() {
    let mut ch: Channel<&'static str> = Channel::new(3);
    let mut tx = MessageCycle::new(vec!["a", "b"], 500);
    let rx = MessageSink::new(300);
    assert_eq!(rx.poll_channel(&mut ch, 0), (None, Suspend::Wait, false));
    assert_eq!(tx.poll_channel(&mut ch), Some(("a", 500, true)));
    assert_eq!(tx.poll_channel(&mut ch), Some(("b", 500, false)));
    assert_eq!(tx.poll_channel(&mut ch), Some(("a", 500, false)));
    assert_eq!(tx.poll_channel(&mut ch), None);
    assert_eq!(rx.poll_channel(&mut ch, 10), (Some("a"), Suspend::SleepUntil(310), true));
    assert_eq!(tx.poll_channel(&mut ch), Some(("b", 500, false)));
    assert_eq!(rx.poll_channel(&mut ch, 20), (Some("b"), Suspend::SleepUntil(320), false));
    assert_eq!(rx.poll_channel(&mut ch, u64::MAX), (Some("a"), Suspend::SleepUntil(u64::MAX), false));
    assert_eq!(ch.try_receive(), Some(("b", false)));
}

#[test]
fn message_cycle_overwrites_signal() {
    let mut sig: Signal<&'static str> = Signal::new();
    let mut tx = MessageCycle::new(vec!["a", "b"], 500);
    let rx = MessageSink::new(300);
    assert_eq!(rx.poll_signal(&mut sig, 0), (None, Suspend::Wait));
    assert_eq!(tx.poll_signal(&mut sig), ("a", 500, true));
    assert_eq!(tx.poll_signal(&mut sig), ("b", 500, false));
    assert_eq!(rx.poll_signal(&mut sig, 100), (Some("b"), Suspend::SleepUntil(400)));
    assert_eq!(tx.poll_signal(&mut sig), ("a", 500, false));
    assert_eq!(sig.try_take(), Some("a"));
}
