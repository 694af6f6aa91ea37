use co_sync::handle::Coroutine;
use co_sync::io_data::{AsIoData, CancelData, IoData, Subscribed};

#[test]
fn fresh_records_are_idle() {
    let mut io = IoData::new(7);
    let mut cancel = CancelData::new();
    assert_eq!(io.token(), 7);
    assert_eq!(io.as_io_data().token(), 7);
    assert!(!io.is_ready());
    assert!(!cancel.is_canceled());
    assert_eq!(io.schedule(), None);
    assert!(io.is_ready());
    assert_eq!(cancel.cancel(&mut io), None);
    assert!(cancel.is_canceled());
}

#[test]
fn subscribe_without_event_or_cancel_suspends() {
    let mut io = IoData::new(1);
    let mut cancel = CancelData::new();
    assert_eq!(io.subscribe(&mut cancel, Coroutine::new(5)), Subscribed::Suspended);
    assert!(!io.is_ready());
    // the event that comes later hands the coroutine out, once
    assert_eq!(io.schedule(), Some(Coroutine::new(5)));
    assert!(io.is_ready());
    assert_eq!(io.schedule(), None);
}

#[test]
fn subscribe_after_an_event_resumes_at_once() {
    let mut io = IoData::new(1);
    let mut cancel = CancelData::new();
    assert_eq!(io.schedule(), None);
    assert_eq!(
        io.subscribe(&mut cancel, Coroutine::new(5)),
        Subscribed::Ready(Some(Coroutine::new(5)))
    );
    // nobody is left in the slot
    assert_eq!(io.schedule(), None);
}

#[test]
fn subscribe_after_cancel_resumes_as_canceled() {
    let mut io = IoData::new(1);
    let mut cancel = CancelData::new();
    assert_eq!(cancel.cancel(&mut io), None);
    assert!(cancel.is_canceled());
    assert_eq!(
        io.subscribe(&mut cancel, Coroutine::new(9)),
        Subscribed::Canceled(Some(Coroutine::new(9)))
    );
    assert!(cancel.is_canceled());
    // the slot is empty and the registration is gone
    assert_eq!(io.schedule(), None);
    assert_eq!(cancel.cancel(&mut io), None);
}

#[test]
fn readiness_is_looked_at_before_cancellation() {
    let mut io = IoData::new(1);
    let mut cancel = CancelData::new();
    assert_eq!(io.schedule(), None);
    assert_eq!(cancel.cancel(&mut io), None);
    assert_eq!(
        io.subscribe(&mut cancel, Coroutine::new(2)),
        Subscribed::Ready(Some(Coroutine::new(2)))
    );
    assert!(cancel.is_canceled());
}

#[test]
fn cancel_between_register_and_confirm_is_not_lost() {
    let mut io = IoData::new(1);
    let mut cancel = CancelData::new();
    io.register(&mut cancel, Coroutine::new(3));
    // the canceler finds the registration and takes the coroutine itself
    assert_eq!(cancel.cancel(&mut io), Some(Coroutine::new(3)));
    // the subscriber sees the request and has nobody left to resume
    assert_eq!(io.confirm(&mut cancel), Subscribed::Canceled(None));
    assert_eq!(io.schedule(), None);
}

#[test]
fn event_between_register_and_confirm_is_not_lost() {
    let mut io = IoData::new(1);
    let mut cancel = CancelData::new();
    io.register(&mut cancel, Coroutine::new(3));
    assert_eq!(io.schedule(), Some(Coroutine::new(3)));
    assert_eq!(io.confirm(&mut cancel), Subscribed::Ready(None));
}

#[test]
fn cancel_after_suspension_hands_the_coroutine_out() {
    let mut io = IoData::new(4);
    let mut cancel = CancelData::new();
    assert_eq!(io.subscribe(&mut cancel, Coroutine::new(8)), Subscribed::Suspended);
    assert_eq!(cancel.cancel(&mut io), Some(Coroutine::new(8)));
    assert!(cancel.is_canceled());
    assert!(!io.is_ready());
    assert_eq!(io.schedule(), None);
}

#[test]
fn cancel_leaves_another_resource_alone() {
    let mut io = IoData::new(4);
    let mut other = IoData::new(5);
    let mut cancel = CancelData::new();
    assert_eq!(io.subscribe(&mut cancel, Coroutine::new(8)), Subscribed::Suspended);
    assert_eq!(other.subscribe(&mut CancelData::new(), Coroutine::new(6)), Subscribed::Suspended);
    assert_eq!(cancel.cancel(&mut other), None);
    assert_eq!(other.schedule(), Some(Coroutine::new(6)));
    // the registration on the first resource is still there
    assert_eq!(cancel.cancel(&mut io), Some(Coroutine::new(8)));
}

#[test]
fn set_io_enters_the_resource() {
    let mut io = IoData::new(12);
    let mut cancel = CancelData::new();
    io.register(&mut CancelData::new(), Coroutine::new(1));
    assert_eq!(cancel.cancel(&mut io), None);
    cancel.set_io(12);
    assert_eq!(cancel.cancel(&mut io), Some(Coroutine::new(1)));
}

#[test]
fn a_second_waiter_replaces_the_first() {
    let mut io = IoData::new(1);
    let mut cancel = CancelData::new();
    io.register(&mut cancel, Coroutine::new(1));
    io.register(&mut cancel, Coroutine::new(2));
    assert_eq!(io.schedule(), Some(Coroutine::new(2)));
    assert_eq!(io.schedule(), None);
}

#[test]
fn readiness_flag_is_cleared_and_taken() {
    let mut io = IoData::new(1);
    assert!(!io.take_ready());
    assert_eq!(io.schedule(), None);
    assert!(io.take_ready());
    assert!(!io.is_ready());
    assert_eq!(io.schedule(), None);
    io.clear();
    assert!(!io.is_ready());
}

#[test]
fn coroutine_handle_keeps_its_number() {
    assert_eq!(Coroutine::new(77).id(), 77);
}
