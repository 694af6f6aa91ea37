use co_sync::handle::{Blocker, Coroutine};
use co_sync::join::{make_join_handle, Join, JoinError, Joined, WaitStep};
use co_sync::slot::Slot;

#[test]
fn wait_after_trigger_returns_at_once() {
    let mut join: Join<u32> = Join::new(None);
    assert!(!join.is_done());
    assert_eq!(join.trigger(), None);
    assert!(join.is_done());
    assert_eq!(join.wait(Blocker::new(1)), WaitStep::Ready);
    assert_eq!(join.wait(Blocker::new(1)), WaitStep::Ready);
    // the waits left nobody in the slot
    assert_eq!(join.trigger(), None);
    assert!(join.is_done());
}

#[test]
fn wait_before_trigger_parks_and_is_woken() {
    let mut join: Join<u32> = Join::new(None);
    assert_eq!(join.wait(Blocker::new(3)), WaitStep::Park { wake: None });
    assert!(!join.is_done());
    assert_eq!(join.trigger(), Some(Blocker::new(3)));
    assert!(join.is_done());
    assert_eq!(join.wait(Blocker::new(3)), WaitStep::Ready);
}

#[test]
fn trigger_between_register_and_confirm_wakes_the_waiter() {
    let mut join: Join<u32> = Join::new(None);
    assert!(join.register(Blocker::new(3)));
    // the coroutine finishes and finds the waiter
    assert_eq!(join.trigger(), Some(Blocker::new(3)));
    // the waiter has nobody left to unpark; it parks on a handle that is unparked
    assert_eq!(join.confirm(), None);
}

#[test]
fn register_after_trigger_does_not_publish() {
    let mut join: Join<u32> = Join::new(None);
    assert_eq!(join.trigger(), None);
    assert!(!join.register(Blocker::new(3)));
    assert_eq!(join.confirm(), None);
}

#[test]
fn confirm_while_running_leaves_the_waiter_published() {
    let mut join: Join<u32> = Join::new(None);
    assert!(join.register(Blocker::new(8)));
    assert_eq!(join.confirm(), None);
    assert_eq!(join.trigger(), Some(Blocker::new(8)));
}

#[test]
fn a_second_trigger_wakes_nobody() {
    let mut join: Join<u32> = Join::new(None);
    assert_eq!(join.wait(Blocker::new(3)), WaitStep::Park { wake: None });
    assert_eq!(join.trigger(), Some(Blocker::new(3)));
    assert_eq!(join.trigger(), None);
    assert!(join.is_done());
}

#[test]
fn panic_data_is_kept_until_taken() {
    let mut join: Join<&str> = Join::new(None);
    join.set_panic_data("boom");
    assert_eq!(join.trigger(), None);
    assert_eq!(join.take_panic(), Some("boom"));
    assert_eq!(join.take_panic(), None);
    let mut with: Join<&str> = Join::new(Some("early"));
    assert!(!with.is_done());
    assert_eq!(with.take_panic(), Some("early"));
}

#[test]
fn blocker_handle_keeps_its_number() {
    let b = Blocker::new(21);
    let c = b;
    assert_eq!(b.id(), 21);
    assert_eq!(b, c);
    assert_ne!(b, Blocker::new(22));
}

#[test]
fn join_of_a_panicked_coroutine_gives_the_payload() {
    let mut join: Join<String> = Join::new(None);
    join.set_panic_data(String::from("boom"));
    assert_eq!(join.trigger(), None);
    let handle = make_join_handle(Coroutine::new(2), join, Slot::<u32>::none());
    assert!(handle.is_done());
    match handle.join(Blocker::new(1)) {
        Joined::Finished(Err(JoinError::Panic(p))) => assert_eq!(p, "boom"),
        _ => panic!("the panic payload was expected"),
    }
}

#[test]
fn join_of_a_finished_coroutine_gives_the_value() {
    let mut join: Join<String> = Join::new(None);
    assert_eq!(join.trigger(), None);
    let handle = make_join_handle(Coroutine::new(2), join, Slot::some(17u32));
    match handle.join(Blocker::new(1)) {
        Joined::Finished(Ok(v)) => assert_eq!(v, 17),
        _ => panic!("the value was expected"),
    }
}

#[test]
fn join_prefers_the_value_to_the_payload() {
    let mut join: Join<&str> = Join::new(Some("late panic"));
    assert_eq!(join.trigger(), None);
    let handle = make_join_handle(Coroutine::new(2), join, Slot::some(17u32));
    match handle.join(Blocker::new(1)) {
        Joined::Finished(Ok(v)) => assert_eq!(v, 17),
        _ => panic!("the value was expected"),
    }
}

#[test]
fn join_without_value_or_payload_gives_the_cancel_error() {
    let mut join: Join<String> = Join::new(None);
    assert_eq!(join.trigger(), None);
    let handle = make_join_handle(Coroutine::new(2), join, Slot::<u32>::none());
    match handle.join(Blocker::new(1)) {
        Joined::Finished(Err(JoinError::Cancel(e))) => assert_eq!(e, generator::Error::Cancel),
        _ => panic!("the cancel error was expected"),
    }
}

#[test]
fn join_of_a_running_coroutine_is_pending_until_it_completes() {
    let handle = make_join_handle(Coroutine::new(2), Join::<&str>::new(None), Slot::<u32>::none());
    assert!(!handle.is_done());
    assert_eq!(handle.coroutine().id(), 2);
    let mut handle = match handle.join(Blocker::new(6)) {
        Joined::Pending(h) => h,
        Joined::Finished(_) => panic!("the coroutine still runs"),
    };
    assert!(!handle.is_done());
    assert_eq!(handle.coroutine().id(), 2);
    // the coroutine ends and finds the joiner to wake
    assert_eq!(handle.complete(Ok(40)), Some(Blocker::new(6)));
    assert!(handle.is_done());
    match handle.join(Blocker::new(6)) {
        Joined::Finished(Ok(v)) => assert_eq!(v, 40),
        _ => panic!("the value was expected"),
    }
}

#[test]
fn handle_wait_follows_the_signal() {
    let mut handle = make_join_handle(Coroutine::new(2), Join::<&str>::new(None), Slot::<u32>::none());
    assert_eq!(handle.wait(Blocker::new(6)), WaitStep::Park { wake: None });
    assert_eq!(handle.complete(Err("boom")), Some(Blocker::new(6)));
    assert_eq!(handle.wait(Blocker::new(6)), WaitStep::Ready);
    assert_eq!(handle.wait(Blocker::new(6)), WaitStep::Ready);
    match handle.join(Blocker::new(6)) {
        Joined::Finished(Err(JoinError::Panic(p))) => assert_eq!(p, "boom"),
        _ => panic!("the panic payload was expected"),
    }
}

#[test]
fn complete_without_a_waiter_wakes_nobody() {
    let mut handle = make_join_handle(Coroutine::new(2), Join::<&str>::new(None), Slot::<u32>::none());
    assert_eq!(handle.complete(Ok(1)), None);
    assert!(handle.is_done());
}
