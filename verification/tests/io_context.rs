use co_sync::io_context::IoContext;

#[test]
fn fresh_context_in_a_thread_changes_nothing() {
    let mut ctx = IoContext::new();
    let mut calls = 0;
    let r = ctx.check_context(false, |_m: bool| {
        calls += 1;
        Ok::<(), &str>(())
    });
    assert_eq!(r, Ok(false));
    assert_eq!(calls, 0);
    assert!(!ctx.needs_switch(false));
    assert!(ctx.needs_switch(true));
}

#[test]
fn coroutine_calls_switch_the_mode_once() {
    let mut ctx = IoContext::new();
    let mut calls = 0;
    let mut asked = Vec::new();
    for _ in 0..5 {
        let r = ctx.check_context(true, |m: bool| {
            calls += 1;
            asked.push(m);
            Ok::<(), &str>(())
        });
        assert_eq!(r, Ok(true));
    }
    assert_eq!(calls, 1);
    assert_eq!(asked, vec![true]);
    assert!(!ctx.needs_switch(true));
}

#[test]
fn thread_after_coroutine_switches_back_once() {
    let mut ctx = IoContext::new();
    assert_eq!(ctx.check_context(true, |_m: bool| Ok::<(), &str>(())), Ok(true));
    let mut asked = Vec::new();
    for _ in 0..3 {
        let r = ctx.check_context(false, |m: bool| {
            asked.push(m);
            Ok::<(), &str>(())
        });
        assert_eq!(r, Ok(false));
    }
    assert_eq!(asked, vec![false]);
}

#[test]
fn alternating_contexts_switch_every_time() {
    let mut ctx = IoContext::new();
    let mut asked = Vec::new();
    for i in 0..4 {
        let in_coroutine = i % 2 == 0;
        let r = ctx.check_context(in_coroutine, |m: bool| {
            asked.push(m);
            Ok::<(), &str>(())
        });
        assert_eq!(r, Ok(in_coroutine));
    }
    assert_eq!(asked, vec![true, false, true, false]);
}

#[test]
fn check_nonblocking_without_intent_touches_nothing() {
    let mut ctx = IoContext::new();
    let mut calls = 0;
    for _ in 0..3 {
        let r = ctx.check_nonblocking(|_m: bool| {
            calls += 1;
            Ok::<(), &str>(())
        });
        assert_eq!(r, Ok(false));
    }
    assert_eq!(calls, 0);
    assert!(ctx.needs_switch(true));
}

#[test]
fn check_nonblocking_with_intent_switches_once() {
    let mut ctx = IoContext::new();
    ctx.set_nonblocking(true);
    let mut asked = Vec::new();
    for _ in 0..4 {
        let r = ctx.check_nonblocking(|m: bool| {
            asked.push(m);
            Ok::<(), &str>(())
        });
        assert_eq!(r, Ok(true));
    }
    assert_eq!(asked, vec![true]);
}

#[test]
fn set_nonblocking_records_the_intent_only() {
    let mut ctx = IoContext::new();
    ctx.set_nonblocking(true);
    assert!(ctx.needs_switch(true));
    ctx.set_nonblocking(false);
    let mut calls = 0;
    let r = ctx.check_nonblocking(|_m: bool| {
        calls += 1;
        Ok::<(), &str>(())
    });
    assert_eq!(r, Ok(false));
    assert_eq!(calls, 0);
}

#[test]
fn failed_switch_is_returned_and_tried_again() {
    let mut ctx = IoContext::new();
    let r = ctx.check_context(true, |_m: bool| Err::<(), &str>("no such mode"));
    assert_eq!(r, Err("no such mode"));
    assert!(ctx.needs_switch(true));
    let mut calls = 0;
    let r = ctx.check_context(true, |_m: bool| {
        calls += 1;
        Ok::<(), &str>(())
    });
    assert_eq!(r, Ok(true));
    assert_eq!(calls, 1);
    assert!(!ctx.needs_switch(true));
}

#[test]
fn failed_switch_of_nonblocking_request_is_returned() {
    let mut ctx = IoContext::new();
    ctx.set_nonblocking(true);
    let r = ctx.check_nonblocking(|_m: bool| Err::<(), u32>(11));
    assert_eq!(r, Err(11));
    assert!(ctx.needs_switch(true));
}
