//! One wait racing one trigger on a `Join`, every shared access a step of its
//! own, under every interleaving.

use vstd::prelude::*;
use crate::handle::Blocker;
use crate::join::JoinView;

verus! {

/// The next step of the waiting context.
pub enum WaiterPc {
    /// Read the state.
    Check,
    /// Put the own handle into the waiter slot.
    Publish,
    /// Read the state again.
    Recheck,
    /// Take the waiter slot back and unpark whoever is in it.
    Reclaim,
    /// Park: possible only once the own handle has been unparked.
    Park,
    /// The wait has returned.
    Returned,
}

/// The next step of the finishing coroutine.
pub enum TriggerPc {
    /// Write the state.
    Store,
    /// Take the waiter slot and unpark whoever is in it.
    Wake,
    /// The trigger has returned.
    Finished,
}

/// The signal, the two parties, and the waiter's wake-up permit.
pub struct Race<P> {
    pub join: JoinView<P>,
    /// The waiter's handle.
    pub cur: Blocker,
    /// The waiter has been unparked and has not parked since.
    pub permit: bool,
    pub waiter: WaiterPc,
    pub trigger: TriggerPc,
}

impl<P> Race<P> {
    /// Both parties at their first step, the waiter as `cur`.
    pub open spec fn start(join: JoinView<P>, cur: Blocker) -> Race<P> {
        Race { join, cur, permit: false, waiter: WaiterPc::Check, trigger: TriggerPc::Store }
    }

    /// `who` is unparked. Unparking an unparked context changes nothing.
    pub open spec fn unpark(self, who: Option<Blocker>) -> Race<P> {
        if who == Some(self.cur) {
            Race { permit: true, ..self }
        } else {
            self
        }
    }

    /// The waiter takes its next step. A waiter that cannot park yet stays
    /// where it is.
    pub open spec fn waiter_step(self) -> Race<P> {
        match self.waiter {
            WaiterPc::Check => Race {
                waiter: if self.join.running {
                    WaiterPc::Publish
                } else {
                    WaiterPc::Returned
                },
                ..self
            },
            WaiterPc::Publish => Race {
                join: self.join.publish(self.cur),
                waiter: WaiterPc::Recheck,
                ..self
            },
            WaiterPc::Recheck => Race {
                waiter: if self.join.running {
                    WaiterPc::Park
                } else {
                    WaiterPc::Reclaim
                },
                ..self
            },
            WaiterPc::Reclaim => (Race {
                join: self.join.reclaim(),
                waiter: WaiterPc::Park,
                ..self
            }).unpark(self.join.to_wake),
            WaiterPc::Park => if self.permit {
                Race { permit: false, waiter: WaiterPc::Returned, ..self }
            } else {
                self
            },
            WaiterPc::Returned => self,
        }
    }

    /// The finishing coroutine takes its next step.
    pub open spec fn trigger_step(self) -> Race<P> {
        match self.trigger {
            TriggerPc::Store => Race { join: self.join.finish(), trigger: TriggerPc::Wake, ..self },
            TriggerPc::Wake => (Race {
                join: self.join.reclaim(),
                trigger: TriggerPc::Finished,
                ..self
            }).unpark(self.join.to_wake),
            TriggerPc::Finished => self,
        }
    }

    /// One step, of the waiter or of the finishing coroutine.
    pub open spec fn step(self, waiter_moves: bool) -> Race<P> {
        if waiter_moves {
            self.waiter_step()
        } else {
            self.trigger_step()
        }
    }

    /// The steps of `schedule` in turn; `true` lets the waiter move.
    pub open spec fn run(self, schedule: Seq<bool>) -> Race<P>
        decreases schedule.len(),
    {
        if schedule.len() == 0 {
            self
        } else {
            self.step(schedule[0]).run(schedule.drop_first())
        }
    }

    /// Steps that the waiter still has to take, at most.
    pub open spec fn waiter_rank(self) -> nat {
        match self.waiter {
            WaiterPc::Check => 5,
            WaiterPc::Publish => 4,
            WaiterPc::Recheck => 3,
            WaiterPc::Reclaim => 2,
            WaiterPc::Park => 1,
            WaiterPc::Returned => 0,
        }
    }

    /// Steps that the finishing coroutine still has to take.
    pub open spec fn trigger_rank(self) -> nat {
        match self.trigger {
            TriggerPc::Store => 2,
            TriggerPc::Wake => 1,
            TriggerPc::Finished => 0,
        }
    }

    /// What holds at every point of every race.
    pub open spec fn inv(self) -> bool {
        let published = self.join.to_wake == Some(self.cur) && !self.permit;
        let empty = self.join.to_wake is None;
        &&& self.join.running <==> self.trigger is Store
        &&& match self.waiter {
            WaiterPc::Check | WaiterPc::Publish | WaiterPc::Returned => empty && !self.permit,
            WaiterPc::Recheck => published || (empty && self.permit && self.trigger is Finished),
            WaiterPc::Reclaim => {
                &&& !self.join.running
                &&& published || (empty && self.permit && self.trigger is Finished)
            },
            WaiterPc::Park => (published && !(self.trigger is Finished)) || (empty && self.permit),
        }
    }
}

/// How often `who` moves in `schedule`.
pub open spec fn moves(schedule: Seq<bool>, who: bool) -> nat
    decreases schedule.len(),
{
    if schedule.len() == 0 {
        0
    } else {
        let here: nat = if schedule[0] == who { 1 } else { 0 };
        here + moves(schedule.drop_first(), who)
    }
}

/// Running two schedules in a row is running their concatenation.
pub proof fn lemma_run_concat<P>(r: Race<P>, first: Seq<bool>, second: Seq<bool>)
    ensures
        r.run(first + second) == r.run(first).run(second),
    decreases first.len(),
{
    if first.len() == 0 {
        assert(first + second =~= second);
    } else {
        assert((first + second).drop_first() =~= first.drop_first() + second);
        lemma_run_concat(r.step(first[0]), first.drop_first(), second);
    }
}

/// The invariant survives every schedule.
pub proof fn lemma_race_invariant<P>(r: Race<P>, schedule: Seq<bool>)
    requires
        r.inv(),
    ensures
        r.run(schedule).inv(),
    decreases schedule.len(),
{
    if schedule.len() > 0 {
        lemma_race_invariant(r.step(schedule[0]), schedule.drop_first());
    }
}

/// Exactly-once transition, in the race: the state leaves "running" at the
/// trigger's first step and at no other, and never comes back.
pub proof fn lemma_finished_for_good<P>(r: Race<P>, schedule: Seq<bool>)
    requires
        r.inv(),
    ensures
        r.run(schedule).join.running <==> r.run(schedule).trigger is Store,
        !r.join.running ==> !r.run(schedule).join.running,
        r.run(schedule).join.running ==> r.join.running && moves(schedule, false) == 0,
    decreases schedule.len(),
{
    if schedule.len() > 0 {
        lemma_finished_for_good(r.step(schedule[0]), schedule.drop_first());
    }
}

/// The finishing coroutine is never held up: each of its moves is a step.
pub proof fn lemma_trigger_progress<P>(r: Race<P>, schedule: Seq<bool>)
    ensures
        r.run(schedule).trigger_rank() == if moves(schedule, false) >= r.trigger_rank() {
            0
        } else {
            r.trigger_rank() - moves(schedule, false)
        },
    decreases schedule.len(),
{
    if schedule.len() > 0 {
        lemma_trigger_progress(r.step(schedule[0]), schedule.drop_first());
    }
}

/// Once the trigger has returned the waiter is never held up: each of its
/// moves is a step, parking included.
pub proof fn lemma_waiter_progress<P>(r: Race<P>, schedule: Seq<bool>)
    requires
        r.inv(),
        r.trigger is Finished,
    ensures
        r.run(schedule).trigger is Finished,
        r.run(schedule).waiter_rank() + moves(schedule, true) <= r.waiter_rank() || r.run(
            schedule,
        ).waiter is Returned,
    decreases schedule.len(),
{
    if schedule.len() > 0 {
        lemma_waiter_progress(r.step(schedule[0]), schedule.drop_first());
    }
}

/// No lost wakeup: however the steps of one wait and one trigger on a fresh
/// signal interleave, the waiter is not left parked. At every point of the
/// race, once the trigger has returned the waiter has returned or can take
/// its next step; and every schedule in which the finishing coroutine gets
/// its two moves and the waiter then its five ends with the wait returned.
pub proof fn lemma_no_lost_wakeup<P>(panic: Option<P>, cur: Blocker, head: Seq<bool>, tail: Seq<bool>)
    requires
        moves(head, false) >= 2,
        moves(tail, true) >= 5,
    ensures
        ({
            let at = Race::start(JoinView { to_wake: None, running: true, panic }, cur).run(head);
            at.trigger is Finished && (at.waiter is Returned || at.waiter_step() != at)
        }),
        Race::start(JoinView { to_wake: None, running: true, panic }, cur).run(head + tail).waiter is Returned,
        !Race::start(JoinView { to_wake: None, running: true, panic }, cur).run(head + tail).join.running,
{
    let start = Race::start(JoinView { to_wake: None, running: true, panic }, cur);
    lemma_race_invariant(start, head);
    lemma_trigger_progress(start, head);
    let at = start.run(head);
    lemma_run_concat(start, head, tail);
    lemma_waiter_progress(at, tail);
    lemma_finished_for_good(at, tail);
}

/// The waiter cannot be blocked by a trigger that is over: at every point of
/// every race, a waiter that is about to park while the trigger has returned
/// holds its permit.
pub proof fn lemma_park_is_not_blocked<P>(panic: Option<P>, cur: Blocker, schedule: Seq<bool>)
    ensures
        ({
            let at = Race::start(JoinView { to_wake: None, running: true, panic }, cur).run(schedule);
            at.waiter is Park && at.trigger is Finished ==> at.permit
        }),
{
    lemma_race_invariant(Race::start(JoinView { to_wake: None, running: true, panic }, cur), schedule);
}

/// The operations on the signal are runs of the race in which one party
/// takes its steps with no other in between: `trigger` is the finishing
/// coroutine's two, `register` the waiter's first two, `confirm` its next
/// ones up to parking.
pub proof fn lemma_operations_are_runs<P>(r: Race<P>)
    ensures
        r.trigger is Store ==> {
            let end = r.trigger_step().trigger_step();
            &&& end.join == r.join.trigger().0
            &&& end.trigger is Finished
            &&& end.permit == (r.permit || r.join.trigger().1 == Some(r.cur))
        },
        r.waiter is Check ==> {
            let end = r.waiter_step().waiter_step();
            &&& end.join == r.join.register(r.cur).0
            &&& end.waiter == if r.join.register(r.cur).1 {
                WaiterPc::Recheck
            } else {
                WaiterPc::Returned
            }
        },
        r.waiter is Recheck ==> {
            let end = if r.join.running {
                r.waiter_step()
            } else {
                r.waiter_step().waiter_step()
            };
            &&& end.join == r.join.confirm().0
            &&& end.waiter is Park
            &&& end.permit == (r.permit || r.join.confirm().1 == Some(r.cur))
        },
{
}

} // verus!
