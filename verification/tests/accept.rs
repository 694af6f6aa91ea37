use co_sync::accept::{AcceptResult, AcceptState, AcceptStep, Canceled, TcpListenerAccept};
use co_sync::handle::Coroutine;
use co_sync::io_data::{CancelData, IoData, Subscribed};

#[test]
fn three_would_block_results_then_a_connection() {
    let mut io = IoData::new(3);
    let mut cancel = CancelData::new();
    let mut op = TcpListenerAccept::new(&io);
    let mut co = Coroutine::new(1);
    let mut attempts = 0;
    let mut suspends = 0;
    for _ in 0..3 {
        assert_eq!(op.attempt(&mut io, &cancel), Ok(()));
        attempts += 1;
        let step: AcceptStep<&str, u32> = op.done(&mut io, AcceptResult::WouldBlock);
        assert_eq!(step, AcceptStep::Suspend);
        assert_eq!(op.state(), AcceptState::Retry);
        assert_eq!(op.subscribe(&mut io, &mut cancel, co), Subscribed::Suspended);
        suspends += 1;
        assert_eq!(op.state(), AcceptState::Suspended);
        assert!(op.can_drop());
        // the event that ends the suspension
        co = io.schedule().unwrap();
    }
    assert_eq!(op.attempt(&mut io, &cancel), Ok(()));
    attempts += 1;
    let step: AcceptStep<&str, u32> = op.done(&mut io, AcceptResult::Accepted("peer"));
    assert_eq!(step, AcceptStep::Return(Ok("peer")));
    assert_eq!(op.state(), AcceptState::Done);
    assert_eq!(attempts, 4);
    assert_eq!(suspends, 3);
    assert_eq!(co.id(), 1);
}

#[test]
fn an_event_during_the_attempt_retries_without_suspending() {
    let mut io = IoData::new(3);
    let cancel = CancelData::new();
    let mut op = TcpListenerAccept::new(&io);
    assert_eq!(op.state(), AcceptState::Attempt);
    assert_eq!(op.token(), 3);
    assert!(op.can_drop());
    assert_eq!(op.attempt(&mut io, &cancel), Ok(()));
    // the reactor records an event while the call is under way
    assert_eq!(io.schedule(), None);
    let step: AcceptStep<u8, u32> = op.done(&mut io, AcceptResult::WouldBlock);
    assert_eq!(step, AcceptStep::Retry);
    assert_eq!(op.state(), AcceptState::Attempt);
    // the event is consumed
    assert!(!io.is_ready());
    assert_eq!(op.attempt(&mut io, &cancel), Ok(()));
    let step: AcceptStep<u8, u32> = op.done(&mut io, AcceptResult::Accepted(9));
    assert_eq!(step, AcceptStep::Return(Ok(9)));
}

#[test]
fn attempt_clears_a_stale_event() {
    let mut io = IoData::new(3);
    let cancel = CancelData::new();
    let mut op = TcpListenerAccept::new(&io);
    assert_eq!(io.schedule(), None);
    assert!(io.is_ready());
    assert_eq!(op.attempt(&mut io, &cancel), Ok(()));
    assert!(!io.is_ready());
    let step: AcceptStep<u8, u32> = op.done(&mut io, AcceptResult::WouldBlock);
    assert_eq!(step, AcceptStep::Suspend);
}

#[test]
fn a_hard_error_is_returned_unchanged() {
    let mut io = IoData::new(3);
    let cancel = CancelData::new();
    let mut op = TcpListenerAccept::new(&io);
    assert_eq!(op.attempt(&mut io, &cancel), Ok(()));
    let step: AcceptStep<u8, &str> = op.done(&mut io, AcceptResult::Failed("connection aborted"));
    assert_eq!(step, AcceptStep::Return(Err("connection aborted")));
    assert_eq!(op.state(), AcceptState::Failed);
}

#[test]
fn cancellation_is_found_before_the_attempt() {
    let mut io = IoData::new(3);
    let mut cancel = CancelData::new();
    let mut op = TcpListenerAccept::new(&io);
    assert_eq!(cancel.cancel(&mut io), None);
    assert_eq!(io.schedule(), None);
    assert_eq!(op.attempt(&mut io, &cancel), Err(Canceled));
    assert_eq!(op.state(), AcceptState::Failed);
    // the flag is not touched on this way out
    assert!(io.is_ready());
}

#[test]
fn cancellation_after_the_check_does_not_beat_a_connection() {
    let mut io = IoData::new(3);
    let mut cancel = CancelData::new();
    let mut op = TcpListenerAccept::new(&io);
    assert_eq!(op.attempt(&mut io, &cancel), Ok(()));
    assert_eq!(cancel.cancel(&mut io), None);
    let step: AcceptStep<u8, u32> = op.done(&mut io, AcceptResult::Accepted(5));
    assert_eq!(step, AcceptStep::Return(Ok(5)));
    assert_eq!(op.state(), AcceptState::Done);
}

#[test]
fn canceled_before_subscribe_never_suspends() {
    let mut io = IoData::new(3);
    let mut cancel = CancelData::new();
    let mut op = TcpListenerAccept::new(&io);
    assert_eq!(op.attempt(&mut io, &cancel), Ok(()));
    let step: AcceptStep<u8, u32> = op.done(&mut io, AcceptResult::WouldBlock);
    assert_eq!(step, AcceptStep::Suspend);
    // the record is marked canceled, then the coroutine is subscribed
    assert_eq!(cancel.cancel(&mut io), None);
    let r = op.subscribe(&mut io, &mut cancel, Coroutine::new(4));
    assert_eq!(r, Subscribed::Canceled(Some(Coroutine::new(4))));
    assert!(op.can_drop());
    assert_eq!(op.state(), AcceptState::Suspended);
    // resumed at once, the operation ends as canceled
    assert_eq!(op.attempt(&mut io, &cancel), Err(Canceled));
    assert_eq!(op.state(), AcceptState::Failed);
}

#[test]
fn event_before_subscribe_resumes_at_once() {
    let mut io = IoData::new(3);
    let mut cancel = CancelData::new();
    let mut op = TcpListenerAccept::new(&io);
    assert_eq!(op.attempt(&mut io, &cancel), Ok(()));
    let step: AcceptStep<u8, u32> = op.done(&mut io, AcceptResult::WouldBlock);
    assert_eq!(step, AcceptStep::Suspend);
    assert_eq!(io.schedule(), None);
    let r = op.subscribe(&mut io, &mut cancel, Coroutine::new(4));
    assert_eq!(r, Subscribed::Ready(Some(Coroutine::new(4))));
    assert!(op.can_drop());
    assert_eq!(op.attempt(&mut io, &cancel), Ok(()));
    assert_eq!(op.state(), AcceptState::Attempt);
}
