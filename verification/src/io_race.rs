//! One subscription racing the reactor and a canceler, every shared access a
//! step of its own, under every interleaving.

use vstd::prelude::*;
use crate::handle::Coroutine;
use crate::io_data::{CancelView, IoDataView, Subscribed, Subscription};

verus! {

/// Who takes a step.
pub enum Party {
    /// The scheduler, subscribing the coroutine that has yielded.
    Subscriber,
    /// Whoever requests the cancellation.
    Canceler,
    /// The reactor, recording an event.
    Reactor,
}

/// The next step of the subscriber.
pub enum SubscriberPc {
    /// Put the coroutine into the waiter slot.
    Install,
    /// Enter the resource in the cancellation record.
    SetIo,
    /// Read the readiness flag.
    CheckReady,
    /// The flag was set: take the waiter slot and reschedule who is in it.
    TakeReady,
    /// Read the cancellation flag.
    CheckCancel,
    /// The flag was set: take the registration out of the record.
    ReapIo,
    /// Take the waiter slot and resume who is in it as canceled.
    ReapWaiter,
    /// The subscription has returned.
    Finished,
}

/// The next step of the canceler.
pub enum CancelerPc {
    /// Set the cancellation flag.
    Mark,
    /// Take the registration out of the record.
    ReapIo,
    /// Take the waiter slot and resume who is in it as canceled.
    ReapWaiter,
    /// The request has returned.
    Finished,
}

/// The next step of the reactor.
pub enum ReactorPc {
    /// Set the readiness flag.
    Fire,
    /// Take the waiter slot and reschedule who is in it.
    Take,
    /// The event is recorded.
    Finished,
}

/// The two records, the three parties, and what became of the coroutine.
pub struct Suspension {
    pub sub: Subscription,
    /// The coroutine that is being subscribed.
    pub co: Coroutine,
    /// How often the coroutine was handed to the scheduler to run again.
    pub resumes: nat,
    /// Who took the registration out of the cancellation record.
    pub reaped_by: Option<Party>,
    /// What the subscription returned.
    pub outcome: Option<Subscribed>,
    pub subscriber: SubscriberPc,
    pub canceler: CancelerPc,
    pub reactor: ReactorPc,
}

impl Suspension {
    /// All parties at their first step.
    pub open spec fn start(sub: Subscription, co: Coroutine) -> Suspension {
        Suspension {
            sub,
            co,
            resumes: 0,
            reaped_by: None,
            outcome: None,
            subscriber: SubscriberPc::Install,
            canceler: CancelerPc::Mark,
            reactor: ReactorPc::Fire,
        }
    }

    /// The waiter slot is taken, and who was in it runs again.
    pub open spec fn take_waiter(self) -> Suspension {
        Suspension {
            sub: self.sub.without_waiter(),
            resumes: if self.sub.io.waiter is Some {
                self.resumes + 1
            } else {
                self.resumes
            },
            ..self
        }
    }

    /// Whether the record names this resource as the one waited on.
    pub open spec fn registered(self) -> bool {
        self.sub.cancel.io == Some(self.sub.io.token)
    }

    /// The registration is taken out of the record by `who`.
    pub open spec fn reap_io(self, who: Party) -> Suspension {
        Suspension {
            sub: Subscription { cancel: CancelView { io: None, ..self.sub.cancel }, ..self.sub },
            reaped_by: Some(who),
            ..self
        }
    }

    /// The subscriber takes its next step.
    pub open spec fn subscriber_step(self) -> Suspension {
        match self.subscriber {
            SubscriberPc::Install => Suspension {
                sub: Subscription { io: IoDataView { waiter: Some(self.co), ..self.sub.io }, ..self.sub },
                subscriber: SubscriberPc::SetIo,
                ..self
            },
            SubscriberPc::SetIo => Suspension {
                sub: Subscription {
                    cancel: CancelView { io: Some(self.sub.io.token), ..self.sub.cancel },
                    ..self.sub
                },
                subscriber: SubscriberPc::CheckReady,
                ..self
            },
            SubscriberPc::CheckReady => Suspension {
                subscriber: if self.sub.io.ready {
                    SubscriberPc::TakeReady
                } else {
                    SubscriberPc::CheckCancel
                },
                ..self
            },
            SubscriberPc::TakeReady => Suspension {
                subscriber: SubscriberPc::Finished,
                outcome: Some(Subscribed::Ready(self.sub.io.waiter)),
                ..self.take_waiter()
            },
            SubscriberPc::CheckCancel => if self.sub.cancel.canceled {
                Suspension { subscriber: SubscriberPc::ReapIo, ..self }
            } else {
                Suspension {
                    subscriber: SubscriberPc::Finished,
                    outcome: Some(Subscribed::Suspended),
                    ..self
                }
            },
            SubscriberPc::ReapIo => if self.registered() {
                Suspension { subscriber: SubscriberPc::ReapWaiter, ..self.reap_io(Party::Subscriber) }
            } else {
                Suspension {
                    subscriber: SubscriberPc::Finished,
                    outcome: Some(Subscribed::Canceled(None)),
                    ..self
                }
            },
            SubscriberPc::ReapWaiter => Suspension {
                subscriber: SubscriberPc::Finished,
                outcome: Some(Subscribed::Canceled(self.sub.io.waiter)),
                ..self.take_waiter()
            },
            SubscriberPc::Finished => self,
        }
    }

    /// The canceler takes its next step.
    pub open spec fn canceler_step(self) -> Suspension {
        match self.canceler {
            CancelerPc::Mark => Suspension {
                sub: Subscription { cancel: CancelView { canceled: true, ..self.sub.cancel }, ..self.sub },
                canceler: CancelerPc::ReapIo,
                ..self
            },
            CancelerPc::ReapIo => if self.registered() {
                Suspension { canceler: CancelerPc::ReapWaiter, ..self.reap_io(Party::Canceler) }
            } else {
                Suspension { canceler: CancelerPc::Finished, ..self }
            },
            CancelerPc::ReapWaiter => Suspension { canceler: CancelerPc::Finished, ..self.take_waiter() },
            CancelerPc::Finished => self,
        }
    }

    /// The reactor takes its next step.
    pub open spec fn reactor_step(self) -> Suspension {
        match self.reactor {
            ReactorPc::Fire => Suspension {
                sub: Subscription { io: IoDataView { ready: true, ..self.sub.io }, ..self.sub },
                reactor: ReactorPc::Take,
                ..self
            },
            ReactorPc::Take => Suspension { reactor: ReactorPc::Finished, ..self.take_waiter() },
            ReactorPc::Finished => self,
        }
    }

    /// One step of `who`.
    pub open spec fn step(self, who: Party) -> Suspension {
        match who {
            Party::Subscriber => self.subscriber_step(),
            Party::Canceler => self.canceler_step(),
            Party::Reactor => self.reactor_step(),
        }
    }

    /// The steps of `schedule` in turn.
    pub open spec fn run(self, schedule: Seq<Party>) -> Suspension
        decreases schedule.len(),
    {
        if schedule.len() == 0 {
            self
        } else {
            self.step(schedule[0]).run(schedule.drop_first())
        }
    }

    /// The subscriber has read the readiness flag and found it clear.
    pub open spec fn found_not_ready(self) -> bool {
        ||| self.subscriber is CheckCancel
        ||| self.subscriber is ReapIo
        ||| self.subscriber is ReapWaiter
        ||| self.subscriber is Finished
    }

    /// No party is in the middle of its steps, and the subscriber is through.
    pub open spec fn settled(self) -> bool {
        &&& self.subscriber is Finished
        &&& self.canceler is Mark || self.canceler is Finished
        &&& self.reactor is Fire || self.reactor is Finished
    }

    /// What holds at every point of every race.
    pub open spec fn inv(self) -> bool {
        let waiting = self.sub.io.waiter is Some;
        let entered = !(self.subscriber is Install) && !(self.subscriber is SetIo);
        let suspended = self.outcome == Some(Subscribed::Suspended);
        // the coroutine is in the slot or has been resumed, never both
        &&& waiting ==> self.sub.io.waiter == Some(self.co)
        &&& self.resumes + (if waiting { 1nat } else { 0nat }) == (if self.subscriber is Install { 0nat } else { 1nat })
        // a flag that was set stays set
        &&& !(self.reactor is Fire) ==> self.sub.io.ready
        &&& !(self.canceler is Mark) ==> self.sub.cancel.canceled
        &&& self.subscriber is Finished <==> self.outcome is Some
        // the registration is in the record, or one party has taken it
        &&& !entered ==> self.sub.cancel.io is None && self.reaped_by is None
        &&& entered ==> (self.registered() <==> self.reaped_by is None)
        &&& entered ==> self.sub.cancel.io is None || self.registered()
        &&& !(self.reaped_by == Some(Party::Reactor))
        &&& self.reaped_by == Some(Party::Subscriber) ==> self.subscriber is ReapWaiter || self.subscriber is Finished
        &&& self.reaped_by == Some(Party::Canceler) ==> self.canceler is ReapWaiter || self.canceler is Finished
        &&& self.subscriber is ReapWaiter ==> self.reaped_by == Some(Party::Subscriber)
        &&& self.canceler is ReapWaiter ==> self.reaped_by == Some(Party::Canceler)
        // who took the registration empties the slot
        &&& self.subscriber is Finished && self.reaped_by == Some(Party::Subscriber) ==> !waiting
        &&& self.canceler is Finished && self.reaped_by == Some(Party::Canceler) ==> !waiting
        &&& suspended ==> self.reaped_by != Some(Party::Subscriber)
        // an event that the subscriber missed is still with the reactor
        &&& self.found_not_ready() && waiting && self.sub.io.ready ==> self.reactor is Take
        &&& self.outcome is Some && self.outcome->0 is Ready ==> !waiting
        // a cancellation that the subscriber missed is still with the canceler
        &&& suspended && waiting && self.sub.cancel.canceled ==> self.canceler is ReapIo || self.canceler is ReapWaiter
        &&& self.outcome is Some && self.outcome->0 is Canceled && waiting ==> self.canceler is ReapWaiter
    }
}

/// The invariant survives every step.
pub proof fn lemma_step_keeps_invariant(r: Suspension, who: Party)
    requires
        r.inv(),
    ensures
        r.step(who).inv(),
{
    match who {
        Party::Subscriber => {
            if r.subscriber is ReapIo && !r.registered() {
                // the registration is gone, so the canceler has it
                assert(r.reaped_by == Some(Party::Canceler));
            }
        },
        Party::Canceler => {
            if r.canceler is ReapIo && !r.registered() && r.reaped_by is Some {
                // the registration is gone, so the subscriber has it
                assert(r.reaped_by == Some(Party::Subscriber));
            }
        },
        Party::Reactor => {},
    }
}

/// The invariant survives every schedule.
pub proof fn lemma_suspension_invariant(r: Suspension, schedule: Seq<Party>)
    requires
        r.inv(),
    ensures
        r.run(schedule).inv(),
    decreases schedule.len(),
{
    if schedule.len() > 0 {
        lemma_step_keeps_invariant(r, schedule[0]);
        lemma_suspension_invariant(r.step(schedule[0]), schedule.drop_first());
    }
}

/// Exactly one resumption: however the steps of a subscription, of an event
/// and of a cancellation interleave, the coroutine is handed out to run again
/// at most once; and whenever no party is in the middle of its steps, either
/// it was handed out once and has left the slot, or it sits in the slot and
/// neither an event nor a cancellation is recorded.
pub proof fn lemma_resumed_exactly_once(sub: Subscription, co: Coroutine, schedule: Seq<Party>)
    requires
        sub.io.waiter is None,
        sub.cancel.io is None,
    ensures
        ({
            let end = Suspension::start(sub, co).run(schedule);
            &&& end.resumes <= 1
            &&& end.settled() ==> {
                ||| end.resumes == 1 && end.sub.io.waiter is None
                ||| {
                    &&& end.resumes == 0
                    &&& end.sub.io.waiter == Some(co)
                    &&& end.outcome == Some(Subscribed::Suspended)
                    &&& !end.sub.io.ready
                    &&& !end.sub.cancel.canceled
                }
            }
        }),
{
    let start = Suspension::start(sub, co);
    lemma_suspension_invariant(start, schedule);
    lemma_coroutine_is_kept(start, schedule);
}

/// The race is about one coroutine from its first step to its last.
pub proof fn lemma_coroutine_is_kept(r: Suspension, schedule: Seq<Party>)
    ensures
        r.run(schedule).co == r.co,
    decreases schedule.len(),
{
    if schedule.len() > 0 {
        lemma_coroutine_is_kept(r.step(schedule[0]), schedule.drop_first());
    }
}

impl Suspension {
    /// A cancellation is recorded and the subscriber has yet to look for it:
    /// it cannot come to `Suspended` any more.
    pub open spec fn cancel_in_time(self) -> bool {
        &&& self.sub.cancel.canceled
        &&& self.outcome != Some(Subscribed::Suspended)
        &&& self.subscriber is Finished <==> self.outcome is Some
    }
}

/// A recorded cancellation stays recorded, and a subscriber that has not
/// looked for it yet will find it.
pub proof fn lemma_cancel_in_time_is_kept(r: Suspension, schedule: Seq<Party>)
    requires
        r.cancel_in_time(),
    ensures
        r.run(schedule).cancel_in_time(),
    decreases schedule.len(),
{
    if schedule.len() > 0 {
        lemma_cancel_in_time_is_kept(r.step(schedule[0]), schedule.drop_first());
    }
}

/// Race-free subscribe: a cancellation that is requested at any point before
/// the subscription has returned, `head` being the steps up to a point where
/// the request is recorded and the subscription under way, never leaves the
/// coroutine suspended. The subscription does not come to `Suspended`; the
/// request stays recorded for the coroutine's next check; and once no party is
/// in the middle of its steps, the coroutine has been handed out to run
/// again, once.
pub proof fn lemma_cancel_is_not_lost(sub: Subscription, co: Coroutine, head: Seq<Party>, tail: Seq<Party>)
    requires
        sub.io.waiter is None,
        sub.cancel.io is None,
        Suspension::start(sub, co).run(head).sub.cancel.canceled,
        !(Suspension::start(sub, co).run(head).subscriber is Finished),
    ensures
        ({
            let end = Suspension::start(sub, co).run(head + tail);
            &&& end.sub.cancel.canceled
            &&& end.outcome != Some(Subscribed::Suspended)
            &&& end.settled() ==> end.resumes == 1 && end.sub.io.waiter is None
        }),
{
    let start = Suspension::start(sub, co);
    lemma_suspension_invariant(start, head);
    lemma_run_concat(start, head, tail);
    lemma_cancel_in_time_is_kept(start.run(head), tail);
    lemma_resumed_exactly_once(sub, co, head + tail);
}

/// Running two schedules in a row is running their concatenation.
pub proof fn lemma_run_concat(r: Suspension, first: Seq<Party>, second: Seq<Party>)
    ensures
        r.run(first + second) == r.run(first).run(second),
    decreases first.len(),
{
    if first.len() == 0 {
        assert(first + second =~= second);
    } else {
        assert((first + second).drop_first() =~= first.drop_first() + second);
        lemma_run_concat(r.step(first[0]), first.drop_first(), second);
    }
}

/// The operations on the records are runs of the race in which one party
/// takes all its steps with no other in between: `register` is the
/// subscriber's first two, `confirm` its others, `subscribe` all of them,
/// `schedule` the reactor's and `cancel` the canceler's.
pub proof fn lemma_operations_are_runs(r: Suspension)
    ensures
        r.subscriber is Install ==> {
            let registered = r.subscriber_step().subscriber_step();
            let end = registered.subscriber_step().subscriber_step().subscriber_step().subscriber_step();
            &&& registered.sub == r.sub.register(r.co)
            &&& registered.subscriber is CheckReady
            &&& end.sub == r.sub.register(r.co).confirm().0
            &&& end.outcome == Some(r.sub.register(r.co).confirm().1)
            &&& end.sub == r.sub.subscribe(r.co).0
            &&& end.subscriber is Finished
        },
        r.subscriber is CheckReady ==> {
            let end = r.subscriber_step().subscriber_step().subscriber_step().subscriber_step();
            &&& end.sub == r.sub.confirm().0
            &&& end.outcome == Some(r.sub.confirm().1)
            &&& end.subscriber is Finished
        },
        r.reactor is Fire ==> {
            let end = r.reactor_step().reactor_step();
            &&& end.sub == r.sub.schedule().0
            &&& end.reactor is Finished
            &&& end.resumes == r.resumes + (if r.sub.schedule().1 is Some { 1nat } else { 0nat })
        },
        r.canceler is Mark ==> {
            let end = r.canceler_step().canceler_step().canceler_step();
            &&& end.sub == r.sub.cancel().0
            &&& end.canceler is Finished
            &&& end.resumes == r.resumes + (if r.sub.cancel().1 is Some { 1nat } else { 0nat })
        },
{
}

} // verus!
