//! The accept operation: a retry loop around the subscription protocol, as a
//! state machine. The caller makes the system call and yields; every decision
//! in between is taken here.

use vstd::prelude::*;
use crate::delay_drop::DelayDrop;
use crate::handle::Coroutine;
use crate::io_data::{AsIoData, CancelData, CancelView, IoData, IoDataView, Subscribed, Subscription};

verus! {

/// Where the operation stands.
#[derive(Clone, Copy, Debug, PartialEq, Eq, Structural)]
pub enum AcceptState {
    /// An attempt is due or under way.
    Attempt,
    /// The attempt would have blocked and no event came in meanwhile: the
    /// coroutine is about to yield and be subscribed.
    Retry,
    /// The coroutine has yielded and waits for an event or a cancellation.
    Suspended,
    /// A connection was accepted.
    Done,
    /// The operation ended with an error or was canceled.
    Failed,
}

/// What the non-blocking accept call gave.
#[derive(Debug, PartialEq, Eq)]
pub enum AcceptResult<S, E> {
    /// A connection, made non-blocking and entered with the reactor.
    Accepted(S),
    /// Nothing to accept yet.
    WouldBlock,
    /// Any other error.
    Failed(E),
}

/// The operation was canceled.
#[derive(Clone, Copy, Debug, PartialEq, Eq)]
pub struct Canceled;

/// What the caller does after an attempt.
#[derive(Debug, PartialEq, Eq)]
pub enum AcceptStep<S, E> {
    /// The operation is over: the connection, or the error as it came.
    Return(Result<S, E>),
    /// An event came in during the attempt: attempt again without yielding.
    Retry,
    /// Yield, and let the scheduler subscribe the coroutine.
    Suspend,
}

/// What a `TcpListenerAccept` holds.
pub struct AcceptView {
    /// The token of the listener's readiness record.
    pub token: usize,
    pub state: AcceptState,
    /// The deferred-drop guard is held.
    pub held: bool,
}

impl AcceptView {
    /// The top of the loop. A requested cancellation ends the operation
    /// before anything else is looked at; otherwise the readiness flag is
    /// cleared and the attempt may be made.
    pub open spec fn attempt(self, io: IoDataView, cancel: CancelView) -> (
        AcceptView,
        IoDataView,
        Result<(), Canceled>,
    ) {
        if cancel.canceled {
            (AcceptView { state: AcceptState::Failed, ..self }, io, Err(Canceled))
        } else {
            (
                AcceptView { state: AcceptState::Attempt, ..self },
                IoDataView { ready: false, ..io },
                Ok(()),
            )
        }
    }

    /// The attempt has given `result`.
    pub open spec fn done<S, E>(self, io: IoDataView, result: AcceptResult<S, E>) -> (
        AcceptView,
        IoDataView,
        AcceptStep<S, E>,
    ) {
        match result {
            AcceptResult::Accepted(s) => (
                AcceptView { state: AcceptState::Done, ..self },
                io,
                AcceptStep::Return(Ok(s)),
            ),
            AcceptResult::Failed(e) => (
                AcceptView { state: AcceptState::Failed, ..self },
                io,
                AcceptStep::Return(Err(e)),
            ),
            AcceptResult::WouldBlock => if io.ready {
                (
                    AcceptView { state: AcceptState::Attempt, ..self },
                    IoDataView { ready: false, ..io },
                    AcceptStep::Retry,
                )
            } else {
                (AcceptView { state: AcceptState::Retry, held: false, ..self }, io, AcceptStep::Suspend)
            },
        }
    }

    /// The coroutine has yielded and is subscribed as `co`.
    pub open spec fn subscribe(self, sub: Subscription, co: Coroutine) -> (
        AcceptView,
        Subscription,
        Subscribed,
    ) {
        (
            AcceptView { state: AcceptState::Suspended, held: false, ..self },
            sub.subscribe(co).0,
            sub.subscribe(co).1,
        )
    }
}

/// One accept operation on a listener.
#[derive(Debug)]
pub struct TcpListenerAccept {
    token: usize,
    state: AcceptState,
    can_drop: DelayDrop,
}

impl View for TcpListenerAccept {
    type V = AcceptView;

    closed spec fn view(&self) -> AcceptView {
        AcceptView { token: self.token, state: self.state, held: self.can_drop@ }
    }
}

impl TcpListenerAccept {
    /// A fresh operation on `socket`: the first attempt is due.
    pub fn new<R: AsIoData>(socket: &R) -> (op: Self)
        ensures
            op@ == (AcceptView {
                token: socket.io_data()@.token,
                state: AcceptState::Attempt,
                held: false,
            }),
    {
        TcpListenerAccept {
            token: socket.as_io_data().token(),
            state: AcceptState::Attempt,
            can_drop: DelayDrop::new(),
        }
    }

    /// The token of the listener's readiness record.
    pub fn token(&self) -> (t: usize)
        ensures
            t == self@.token,
    {
        self.token
    }

    /// Where the operation stands.
    pub fn state(&self) -> (s: AcceptState)
        ensures
            s == self@.state,
    {
        self.state
    }

    /// Whether the operation may be torn down now.
    pub fn can_drop(&self) -> (b: bool)
        ensures
            b == !self@.held,
    {
        self.can_drop.can_drop()
    }

    /// The top of the loop, at the start and after every resumption.
    ///
    /// `Ok` lets the caller make the accept call and hand its result to
    /// `done`. `Err` ends the operation: a cancellation was requested, and it
    /// is found before the attempt is made.
    pub fn attempt(&mut self, io: &mut IoData, cancel: &CancelData) -> (r: Result<(), Canceled>)
        requires
            old(self)@.state == AcceptState::Attempt || old(self)@.state == AcceptState::Suspended,
            old(io)@.token == old(self)@.token,
        ensures
            (final(self)@, final(io)@, r) == old(self)@.attempt(old(io)@, cancel@),
    {
        if cancel.is_canceled() {
            self.state = AcceptState::Failed;
            Err(Canceled)
        } else {
            io.clear();
            self.state = AcceptState::Attempt;
            Ok(())
        }
    }

    /// Takes the result of the attempt and decides how the operation goes on.
    ///
    /// A connection or a hard error ends it and is returned unchanged. A
    /// would-block result never reaches the caller: if an event was recorded
    /// since the flag was cleared, the flag is consumed and the attempt is
    /// repeated at once; otherwise the coroutine has to suspend.
    pub fn done<S, E>(&mut self, io: &mut IoData, result: AcceptResult<S, E>) -> (step: AcceptStep<S, E>)
        requires
            old(self)@.state == AcceptState::Attempt,
            old(io)@.token == old(self)@.token,
        ensures
            (final(self)@, final(io)@, step) == old(self)@.done(old(io)@, result),
    {
        match result {
            AcceptResult::Accepted(s) => {
                self.state = AcceptState::Done;
                AcceptStep::Return(Ok(s))
            },
            AcceptResult::Failed(e) => {
                self.state = AcceptState::Failed;
                AcceptStep::Return(Err(e))
            },
            AcceptResult::WouldBlock => {
                if io.take_ready() {
                    self.state = AcceptState::Attempt;
                    AcceptStep::Retry
                } else {
                    self.can_drop.reset();
                    self.state = AcceptState::Retry;
                    AcceptStep::Suspend
                }
            },
        }
    }

    /// Subscribes the coroutine that has just yielded on this operation.
    ///
    /// The deferred-drop guard is held while the protocol runs and released
    /// on every way out. The outcome is that of the protocol: the coroutine
    /// is handed back for an immediate resumption if an event or a
    /// cancellation was there before it was registered.
    pub fn subscribe(&mut self, io: &mut IoData, cancel: &mut CancelData, co: Coroutine) -> (r: Subscribed)
        requires
            old(self)@.state == AcceptState::Retry,
            old(io)@.token == old(self)@.token,
        ensures
            (final(self)@, (Subscription { io: final(io)@, cancel: final(cancel)@ }), r) == old(
                self,
            )@.subscribe((Subscription { io: old(io)@, cancel: old(cancel)@ }), co),
    {
        self.can_drop.delay_drop();
        let r = io.subscribe(cancel, co);
        self.state = AcceptState::Suspended;
        self.can_drop.release();
        r
    }
}

/// What happens around one attempt of a run.
pub struct Turn<S, E> {
    /// What the accept call gives.
    pub result: AcceptResult<S, E>,
    /// An event fires while the attempt is under way.
    pub raced: bool,
    /// A cancellation is requested while the attempt is under way.
    pub cancel: bool,
}

/// How a run ended.
pub enum Finished<S, E> {
    Accepted(S),
    Failed(E),
    Canceled,
    /// The turns ran out before the operation ended.
    Pending,
}

/// What a run did.
pub struct Run<S, E> {
    /// Accept calls made.
    pub attempts: nat,
    /// Times the coroutine yielded.
    pub suspends: nat,
    pub end: Finished<S, E>,
}

impl<S, E> Run<S, E> {
    /// The same run after one more attempt, and `suspends` more yields,
    /// before it.
    pub open spec fn after(self, suspends: nat) -> Run<S, E> {
        Run { attempts: self.attempts + 1, suspends: self.suspends + suspends, end: self.end }
    }
}

/// The records as they stand when the attempt of `turn` returns: what came
/// in during the attempt is recorded.
pub open spec fn during<S, E>(sub: Subscription, turn: Turn<S, E>) -> Subscription {
    let fired = if turn.raced {
        sub.schedule().0
    } else {
        sub
    };
    if turn.cancel {
        fired.cancel().0
    } else {
        fired
    }
}

/// The records when the coroutine runs again after it was subscribed: where
/// it stayed suspended, the event that ends the suspension has fired.
pub open spec fn resumed(sub: Subscription, how: Subscribed) -> Subscription {
    if how is Suspended {
        sub.schedule().0
    } else {
        sub
    }
}

/// The loop that a caller runs around `attempt`, `done` and `subscribe`, with
/// one element of `script` for each attempt it makes.
pub open spec fn drive<S, E>(op: AcceptView, sub: Subscription, co: Coroutine, script: Seq<Turn<S, E>>) -> Run<S, E>
    decreases script.len(),
{
    let (op1, io1, gate) = op.attempt(sub.io, sub.cancel);
    if gate is Err {
        Run { attempts: 0, suspends: 0, end: Finished::Canceled }
    } else if script.len() == 0 {
        Run { attempts: 0, suspends: 0, end: Finished::Pending }
    } else {
        let arrived = during(Subscription { io: io1, ..sub }, script[0]);
        let (op2, io2, step) = op1.done(arrived.io, script[0].result);
        match step {
            AcceptStep::Return(Ok(s)) => Run { attempts: 1, suspends: 0, end: Finished::Accepted(s) },
            AcceptStep::Return(Err(e)) => Run { attempts: 1, suspends: 0, end: Finished::Failed(e) },
            AcceptStep::Retry => drive(op2, Subscription { io: io2, ..arrived }, co, script.drop_first()).after(0),
            AcceptStep::Suspend => {
                let (op3, sub3, how) = op2.subscribe(Subscription { io: io2, ..arrived }, co);
                drive(op3, resumed(sub3, how), co, script.drop_first()).after(1)
            },
        }
    }
}

/// How many of the first `k` turns of `script` see no event during the
/// attempt.
pub open spec fn quiet_turns<S, E>(script: Seq<Turn<S, E>>, k: nat) -> nat
    decreases k,
{
    if k == 0 || script.len() == 0 {
        0
    } else {
        let here: nat = if script[0].raced { 0 } else { 1 };
        here + quiet_turns(script.drop_first(), (k - 1) as nat)
    }
}

/// No more turns are quiet than there are.
pub proof fn lemma_quiet_turns_bound<S, E>(script: Seq<Turn<S, E>>, k: nat)
    ensures
        quiet_turns(script, k) <= k,
    decreases k,
{
    if k > 0 && script.len() > 0 {
        lemma_quiet_turns_bound(script.drop_first(), (k - 1) as nat);
    }
}

/// Bounded retry: where the accept call would block `k` times and then gives
/// a connection, and no cancellation is requested before that, the loop makes
/// exactly `k + 1` accept calls, yields once for each would-block result that
/// no event came with, so at most `k` times, and returns that connection.
pub proof fn lemma_bounded_retry<S, E>(
    op: AcceptView,
    sub: Subscription,
    co: Coroutine,
    script: Seq<Turn<S, E>>,
    k: nat,
    conn: S,
)
    requires
        !sub.cancel.canceled,
        k < script.len(),
        forall|i: int| 0 <= i < k ==> (#[trigger] script[i]).result is WouldBlock && !script[i].cancel,
        script[k as int].result == AcceptResult::<S, E>::Accepted(conn),
    ensures
        drive(op, sub, co, script).attempts == k + 1,
        drive(op, sub, co, script).suspends == quiet_turns(script, k),
        drive(op, sub, co, script).suspends <= k,
        drive(op, sub, co, script).end == Finished::<S, E>::Accepted(conn),
    decreases k,
{
    lemma_quiet_turns_bound(script, k);
    if k > 0 {
        let (op1, io1, gate) = op.attempt(sub.io, sub.cancel);
        let turn = script[0];
        assert(turn.result is WouldBlock && !turn.cancel);
        let arrived = during(Subscription { io: io1, ..sub }, turn);
        let (op2, io2, step) = op1.done(arrived.io, turn.result);
        let rest = script.drop_first();
        assert forall|i: int| 0 <= i < k - 1 implies (#[trigger] rest[i]).result is WouldBlock
            && !rest[i].cancel by {
            assert(rest[i] == script[i + 1]);
        }
        assert(rest[k - 1] == script[k as int]);
        if turn.raced {
            lemma_bounded_retry(op2, Subscription { io: io2, ..arrived }, co, rest, (k - 1) as nat, conn);
        } else {
            let (op3, sub3, how) = op2.subscribe(Subscription { io: io2, ..arrived }, co);
            lemma_bounded_retry(op3, resumed(sub3, how), co, rest, (k - 1) as nat, conn);
        }
    }
}

/// Cancellation is checked first: where it was requested before the loop is
/// entered, no accept call is made and the operation ends as canceled,
/// whatever the call would have given.
pub proof fn lemma_cancel_checked_first<S, E>(
    op: AcceptView,
    sub: Subscription,
    co: Coroutine,
    script: Seq<Turn<S, E>>,
)
    requires
        sub.cancel.canceled,
    ensures
        drive(op, sub, co, script) == (Run::<S, E> { attempts: 0, suspends: 0, end: Finished::Canceled }),
{
}

/// A cancellation that is requested while an attempt would block ends the
/// run as canceled at the next check, whether the coroutine retries at once
/// or yields first: it is subscribed, handed back at once, and does not stay
/// suspended.
pub proof fn lemma_cancel_ends_the_run<S, E>(
    op: AcceptView,
    sub: Subscription,
    co: Coroutine,
    script: Seq<Turn<S, E>>,
    k: nat,
)
    requires
        !sub.cancel.canceled,
        k < script.len(),
        forall|i: int| 0 <= i < k ==> (#[trigger] script[i]).result is WouldBlock && !script[i].cancel,
        script[k as int].result is WouldBlock,
        script[k as int].cancel,
    ensures
        drive(op, sub, co, script).attempts == k + 1,
        drive(op, sub, co, script).suspends == quiet_turns(script, k + 1),
        drive(op, sub, co, script).end == Finished::<S, E>::Canceled,
    decreases k,
{
    let (op1, io1, gate) = op.attempt(sub.io, sub.cancel);
    let turn = script[0];
    let arrived = during(Subscription { io: io1, ..sub }, turn);
    let (op2, io2, step) = op1.done(arrived.io, turn.result);
    let rest = script.drop_first();
    if k > 0 {
        assert(turn.result is WouldBlock && !turn.cancel);
        assert forall|i: int| 0 <= i < k - 1 implies (#[trigger] rest[i]).result is WouldBlock
            && !rest[i].cancel by {
            assert(rest[i] == script[i + 1]);
        }
        assert(rest[k - 1] == script[k as int]);
        if turn.raced {
            lemma_cancel_ends_the_run(op2, Subscription { io: io2, ..arrived }, co, rest, (k - 1) as nat);
        } else {
            let (op3, sub3, how) = op2.subscribe(Subscription { io: io2, ..arrived }, co);
            lemma_cancel_ends_the_run(op3, resumed(sub3, how), co, rest, (k - 1) as nat);
        }
    } else {
        assert(arrived.cancel.canceled);
        if turn.raced {
            lemma_cancel_checked_first(op2, Subscription { io: io2, ..arrived }, co, rest);
        } else {
            let (op3, sub3, how) = op2.subscribe(Subscription { io: io2, ..arrived }, co);
            assert(how is Canceled);
            lemma_cancel_checked_first(op3, resumed(sub3, how), co, rest);
        }
        assert(quiet_turns(rest, 0) == 0);
    }
}

/// A hard error ends the run at the attempt that met it, and is the run's
/// result as it came.
pub proof fn lemma_error_propagates<S, E>(
    op: AcceptView,
    sub: Subscription,
    co: Coroutine,
    script: Seq<Turn<S, E>>,
    err: E,
)
    requires
        !sub.cancel.canceled,
        script.len() > 0,
        script[0].result == AcceptResult::<S, E>::Failed(err),
    ensures
        drive(op, sub, co, script) == (Run::<S, E> { attempts: 1, suspends: 0, end: Finished::Failed(err) }),
{
}

} // verus!
