//! Completion of a coroutine: the signal between the coroutine that finishes
//! and the one context that waits for it, and the handle that carries the
//! result or the failure across.

use vstd::prelude::*;
use crate::handle::{Blocker, Coroutine};
use crate::slot::Slot;

verus! {

/// `generator::Error`, the error type of the generator runtime, declared so
/// that its values can stand in the types of this library. Nothing is claimed
/// of it: the variants are read from the crate.
#[verifier::external_type_specification]
pub struct ExGeneratorError(generator::Error);

/// What a `Join` holds.
pub struct JoinView<P> {
    /// The context that waits for the coroutine.
    pub to_wake: Option<Blocker>,
    /// The coroutine has not finished.
    pub running: bool,
    /// The payload of the coroutine's panic.
    pub panic: Option<P>,
}

/// What a waiting context does next.
#[derive(Clone, Copy, Debug, PartialEq, Eq)]
pub enum WaitStep {
    /// The coroutine has finished: go on without parking.
    Ready,
    /// Unpark `wake` if there is one, then park until unparked.
    Park { wake: Option<Blocker> },
}

impl<P> JoinView<P> {
    /// `cur` takes the waiter slot.
    pub open spec fn publish(self, cur: Blocker) -> JoinView<P> {
        JoinView { to_wake: Some(cur), ..self }
    }

    /// The coroutine is marked finished.
    pub open spec fn finish(self) -> JoinView<P> {
        JoinView { running: false, ..self }
    }

    /// The waiter slot is emptied.
    pub open spec fn reclaim(self) -> JoinView<P> {
        JoinView { to_wake: None, ..self }
    }

    /// First half of a wait: if the coroutine still runs, `cur` is published
    /// as the waiter. Tells whether it was.
    pub open spec fn register(self, cur: Blocker) -> (JoinView<P>, bool) {
        if self.running {
            (self.publish(cur), true)
        } else {
            (self, false)
        }
    }

    /// Second half of a wait: if the coroutine has finished meanwhile, the
    /// waiter slot is taken back; whoever is in it has to be unparked.
    pub open spec fn confirm(self) -> (JoinView<P>, Option<Blocker>) {
        if self.running {
            (self, None)
        } else {
            (self.reclaim(), self.to_wake)
        }
    }

    /// A whole wait with nothing happening in between.
    pub open spec fn wait(self, cur: Blocker) -> (JoinView<P>, WaitStep) {
        if self.register(cur).1 {
            let after = self.register(cur).0.confirm();
            (after.0, WaitStep::Park { wake: after.1 })
        } else {
            (self, WaitStep::Ready)
        }
    }

    /// The coroutine finishes: it is marked finished, then the waiter slot is
    /// taken; whoever is in it has to be unparked.
    pub open spec fn trigger(self) -> (JoinView<P>, Option<Blocker>) {
        (self.finish().reclaim(), self.to_wake)
    }
}

/// The completion signal of one coroutine.
pub struct Join<P> {
    to_wake: Slot<Blocker>,
    state: bool,
    panic: Option<P>,
}

impl<P> View for Join<P> {
    type V = JoinView<P>;

    closed spec fn view(&self) -> JoinView<P> {
        JoinView { to_wake: self.to_wake@, running: self.state, panic: self.panic }
    }
}

impl<P> Join<P> {
    /// The signal of a coroutine that runs, with no waiter, around the panic
    /// cell `panic`.
    pub fn new(panic: Option<P>) -> (j: Self)
        ensures
            j@ == (JoinView { to_wake: None, running: true, panic }),
    {
        Join { to_wake: Slot::none(), state: true, panic }
    }

    /// Stores the payload of the coroutine's panic. The finishing coroutine
    /// does this before it triggers.
    pub fn set_panic_data(&mut self, panic: P)
        ensures
            final(self)@ == (JoinView { panic: Some(panic), ..old(self)@ }),
    {
        self.panic = Some(panic);
    }

    /// Takes the payload out of the panic cell.
    pub fn take_panic(&mut self) -> (p: Option<P>)
        ensures
            p == old(self)@.panic,
            final(self)@ == (JoinView { panic: None, ..old(self)@ }),
    {
        self.panic.take()
    }

    /// Whether the coroutine has finished.
    pub fn is_done(&self) -> (b: bool)
        ensures
            b == !self@.running,
    {
        !self.state
    }

    /// The coroutine has finished. Returns the waiter, which the caller
    /// unparks. From now on the signal says finished, for good.
    pub fn trigger(&mut self) -> (wake: Option<Blocker>)
        ensures
            (final(self)@, wake) == old(self)@.trigger(),
            !final(self)@.running,
    {
        self.state = false;
        self.to_wake.take()
    }

    /// First half of a wait, for a caller that lets go of the signal between
    /// the halves. `true`: `cur` is published, go on with `confirm`. `false`:
    /// the coroutine has finished, return without parking.
    pub fn register(&mut self, cur: Blocker) -> (published: bool)
        ensures
            (final(self)@, published) == old(self)@.register(cur),
    {
        if self.state {
            let _ = self.to_wake.swap(cur);
            true
        } else {
            false
        }
    }

    /// Second half of a wait. Returns whom to unpark before parking: if the
    /// coroutine finished after `register`, that is whoever is still in the
    /// waiter slot.
    pub fn confirm(&mut self) -> (wake: Option<Blocker>)
        ensures
            (final(self)@, wake) == old(self)@.confirm(),
    {
        if self.state {
            None
        } else {
            self.to_wake.take()
        }
    }

    /// Waits for the coroutine on behalf of the context `cur`.
    ///
    /// After the coroutine has finished this is `Ready` and changes nothing,
    /// however often it is called. Before, `cur` is left in the waiter slot
    /// and the caller parks; nobody is to be unparked first.
    pub fn wait(&mut self, cur: Blocker) -> (step: WaitStep)
        ensures
            (final(self)@, step) == old(self)@.wait(cur),
            !old(self)@.running ==> step == WaitStep::Ready && final(self)@ == old(self)@,
            old(self)@.running ==> step == (WaitStep::Park { wake: None }) && final(self)@ == old(
                self,
            )@.publish(cur),
    {
        if self.register(cur) {
            let wake = self.confirm();
            WaitStep::Park { wake }
        } else {
            WaitStep::Ready
        }
    }
}

/// Why a join gave no value.
#[derive(Debug)]
pub enum JoinError<P> {
    /// The coroutine panicked with this payload.
    Panic(P),
    /// The coroutine ended with neither a value nor a panic, as one that was
    /// canceled does. Carries the generator runtime's `Cancel` error.
    Cancel(generator::Error),
}

/// What a `JoinHandle` holds.
pub struct JoinHandleView<T, P> {
    pub co: Coroutine,
    pub join: JoinView<P>,
    /// The value that the coroutine produced.
    pub packet: Option<T>,
}

/// What a join came to.
pub enum Joined<T, P> {
    /// The coroutine has finished: its value, or why there is none.
    Finished(Result<T, JoinError<P>>),
    /// The coroutine still runs. The caller is published as its waiter: park,
    /// then join again with the handle given back.
    Pending(JoinHandle<T, P>),
}

impl<T, P> JoinHandleView<T, P> {
    /// What a finished coroutine leaves to its joiner: the value if there is
    /// one, else the panic payload if there is one, else the cancel error.
    pub open spec fn outcome(self) -> Result<T, JoinError<P>> {
        match self.packet {
            Some(v) => Ok(v),
            None => match self.join.panic {
                Some(p) => Err(JoinError::Panic(p)),
                None => Err(JoinError::Cancel(generator::Error::Cancel)),
            },
        }
    }

    /// The handle after the coroutine ended with `outcome`: the value is in
    /// the result slot, or the payload in the panic cell, and the signal is
    /// triggered.
    pub open spec fn complete(self, outcome: Result<T, P>) -> JoinHandleView<T, P> {
        match outcome {
            Ok(v) => JoinHandleView { packet: Some(v), join: self.join.trigger().0, ..self },
            Err(p) => JoinHandleView {
                join: (JoinView { panic: Some(p), ..self.join }).trigger().0,
                ..self
            },
        }
    }
}

/// The handle to a spawned coroutine.
pub struct JoinHandle<T, P> {
    co: Coroutine,
    join: Join<P>,
    packet: Slot<T>,
}

impl<T, P> View for JoinHandle<T, P> {
    type V = JoinHandleView<T, P>;

    closed spec fn view(&self) -> JoinHandleView<T, P> {
        JoinHandleView { co: self.co, join: self.join@, packet: self.packet@ }
    }
}

/// Makes the handle of the coroutine `co` from its completion signal and its
/// result slot.
pub fn make_join_handle<T, P>(co: Coroutine, join: Join<P>, packet: Slot<T>) -> (h: JoinHandle<T, P>)
    ensures
        h@ == (JoinHandleView { co, join: join@, packet: packet@ }),
{
    JoinHandle { co, join, packet }
}

impl<T, P> JoinHandle<T, P> {
    /// The coroutine behind the handle.
    pub fn coroutine(&self) -> (co: &Coroutine)
        ensures
            *co == self@.co,
    {
        &self.co
    }

    /// Whether the coroutine has finished.
    pub fn is_done(&self) -> (b: bool)
        ensures
            b == !self@.join.running,
    {
        self.join.is_done()
    }

    /// Waits for the coroutine on behalf of the context `cur`, as
    /// `Join::wait` does.
    pub fn wait(&mut self, cur: Blocker) -> (step: WaitStep)
        ensures
            step == old(self)@.join.wait(cur).1,
            final(self)@ == (JoinHandleView { join: old(self)@.join.wait(cur).0, ..old(self)@ }),
            !old(self)@.join.running ==> step == WaitStep::Ready && final(self)@ == old(self)@,
    {
        self.join.wait(cur)
    }

    /// The finishing side: the coroutine ended with `outcome`. The value goes
    /// to the result slot, or the payload to the panic cell, and only then
    /// the signal is triggered. Returns the waiter, which the caller unparks.
    pub fn complete(&mut self, outcome: Result<T, P>) -> (wake: Option<Blocker>)
        ensures
            final(self)@ == old(self)@.complete(outcome),
            wake == old(self)@.join.to_wake,
            !final(self)@.join.running,
    {
        match outcome {
            Ok(v) => {
                let _ = self.packet.swap(v);
            },
            Err(p) => {
                self.join.set_panic_data(p);
            },
        }
        self.join.trigger()
    }

    /// Joins the coroutine on behalf of the context `cur`.
    ///
    /// After the coroutine has finished this never asks to park: it is
    /// `Finished` with the value, or else with the panic payload, or else
    /// with the cancel error. Before, it is `Pending`.
    pub fn join(self, cur: Blocker) -> (r: Joined<T, P>)
        ensures
            !self@.join.running ==> r == Joined::Finished(self@.outcome()),
            self@.join.running ==> (r matches Joined::Pending(h) && h@ == (JoinHandleView {
                join: self@.join.publish(cur),
                ..self@
            })),
    {
        let mut handle = self;
        match handle.join.wait(cur) {
            WaitStep::Ready => {
                match handle.packet.take() {
                    Some(v) => Joined::Finished(Ok(v)),
                    None => match handle.join.take_panic() {
                        Some(p) => Joined::Finished(Err(JoinError::Panic(p))),
                        None => Joined::Finished(Err(JoinError::Cancel(generator::Error::Cancel))),
                    },
                }
            },
            WaitStep::Park { .. } => Joined::Pending(handle),
        }
    }
}

/// One operation on a signal.
pub enum JoinOp<P> {
    SetPanicData(P),
    TakePanic,
    Trigger,
    Register(Blocker),
    Confirm,
    Wait(Blocker),
}

impl<P> JoinView<P> {
    /// The signal after `op`.
    pub open spec fn apply(self, op: JoinOp<P>) -> JoinView<P> {
        match op {
            JoinOp::SetPanicData(p) => JoinView { panic: Some(p), ..self },
            JoinOp::TakePanic => JoinView { panic: None, ..self },
            JoinOp::Trigger => self.trigger().0,
            JoinOp::Register(cur) => self.register(cur).0,
            JoinOp::Confirm => self.confirm().0,
            JoinOp::Wait(cur) => self.wait(cur).0,
        }
    }

    /// The signal after the operations `ops` in turn.
    pub open spec fn apply_all(self, ops: Seq<JoinOp<P>>) -> JoinView<P>
        decreases ops.len(),
    {
        if ops.len() == 0 {
            self
        } else {
            self.apply(ops[0]).apply_all(ops.drop_first())
        }
    }

    /// How often the state goes from running to finished over `ops`.
    pub open spec fn transitions(self, ops: Seq<JoinOp<P>>) -> nat
        decreases ops.len(),
    {
        if ops.len() == 0 {
            0
        } else {
            let here: nat = if self.running && !self.apply(ops[0]).running { 1 } else { 0 };
            here + self.apply(ops[0]).transitions(ops.drop_first())
        }
    }
}

/// Exactly-once transition: over any operations on a signal, in any order and
/// number, the state never goes back to running; it goes from running to
/// finished once if a trigger is among them and the signal was running, and
/// not at all otherwise.
pub proof fn lemma_exactly_once_transition<P>(j: JoinView<P>, ops: Seq<JoinOp<P>>)
    ensures
        !j.running ==> !j.apply_all(ops).running,
        j.apply_all(ops).running <==> j.running && forall|i: int| 0 <= i < ops.len() ==> !(ops[i] is Trigger),
        j.transitions(ops) == if j.running && !j.apply_all(ops).running {
            1nat
        } else {
            0nat
        },
    decreases ops.len(),
{
    if ops.len() > 0 {
        let rest = ops.drop_first();
        lemma_exactly_once_transition(j.apply(ops[0]), rest);
        assert forall|i: int| 0 <= i < rest.len() implies rest[i] == ops[i + 1] by {}
        if j.running && forall|i: int| 0 <= i < ops.len() ==> !(ops[i] is Trigger) {
            assert(!(ops[0] is Trigger));
            assert forall|i: int| 0 <= i < rest.len() implies !(rest[i] is Trigger) by {
                assert(rest[i] == ops[i + 1]);
            }
        }
        if j.apply_all(ops).running {
            assert forall|i: int| 0 <= i < ops.len() implies !(ops[i] is Trigger) by {
                if i > 0 {
                    assert(rest[i - 1] == ops[i]);
                }
            }
        }
    }
}

/// Nobody is left behind: on a signal that has no waiter while finished,
/// whatever operations follow, no waiter sits in the slot once the coroutine
/// has finished. Whoever was published has been handed out for unparking, by
/// the trigger or by the waiter's own recheck.
pub proof fn lemma_no_waiter_left_behind<P>(j: JoinView<P>, ops: Seq<JoinOp<P>>)
    requires
        !j.running ==> j.to_wake is None,
    ensures
        !j.apply_all(ops).running ==> j.apply_all(ops).to_wake is None,
    decreases ops.len(),
{
    if ops.len() > 0 {
        lemma_no_waiter_left_behind(j.apply(ops[0]), ops.drop_first());
    }
}

/// What the finishing side leaves is what the joiner gets: a handle whose
/// result slot is empty gives, after the coroutine ended with a value, that
/// value, and after it ended with a panic, that payload and not the cancel
/// error. A join on it does not park.
pub proof fn lemma_join_after_complete<T, P>(h: JoinHandleView<T, P>, outcome: Result<T, P>)
    requires
        h.packet is None,
    ensures
        !h.complete(outcome).join.running,
        h.complete(outcome).outcome() == match outcome {
            Ok(v) => Ok::<T, JoinError<P>>(v),
            Err(p) => Err(JoinError::Panic(p)),
        },
{
}

} // verus!
