//! Arbitration between blocking and non-blocking use of one IO resource.

use vstd::prelude::*;

verus! {

/// What an `IoContext` records.
pub struct IoContextView {
    /// The caller has declared that it wants non-blocking calls.
    pub nonblocking: bool,
    /// The resource is configured blocking at the level of the operating
    /// system.
    pub blocked_io: bool,
}

impl IoContextView {
    /// Whether a call that needs the resource in mode `nonblocking` has to
    /// change the mode first.
    pub open spec fn needs_switch(self, nonblocking: bool) -> bool {
        self.blocked_io == nonblocking
    }

    /// The record after the mode was changed to `nonblocking`.
    pub open spec fn switched(self, nonblocking: bool) -> IoContextView {
        IoContextView { blocked_io: !nonblocking, ..self }
    }

    /// The record after one call that needs mode `nonblocking`. The mode is
    /// changed only where it differs, and the record follows only where the
    /// change succeeded (`ok`).
    pub open spec fn after_call(self, nonblocking: bool, ok: bool) -> IoContextView {
        if self.needs_switch(nonblocking) && ok {
            self.switched(nonblocking)
        } else {
            self
        }
    }
}

/// How often the mode-changing closure runs over consecutive calls that all
/// need mode `nonblocking`, starting from `v`. `outcomes[i]` tells whether the
/// closure of call `i` succeeds, should it run.
pub open spec fn invocations(v: IoContextView, nonblocking: bool, outcomes: Seq<bool>) -> nat
    decreases outcomes.len(),
{
    if outcomes.len() == 0 {
        0
    } else {
        let here: nat = if v.needs_switch(nonblocking) { 1 } else { 0 };
        here + invocations(v.after_call(nonblocking, outcomes[0]), nonblocking, outcomes.drop_first())
    }
}

/// How many of the closures in `outcomes` would fail.
pub open spec fn failures(outcomes: Seq<bool>) -> nat
    decreases outcomes.len(),
{
    if outcomes.len() == 0 {
        0
    } else {
        let here: nat = if outcomes[0] { 0 } else { 1 };
        here + failures(outcomes.drop_first())
    }
}

/// Per-resource record of the wanted and of the configured blocking mode.
#[derive(Debug)]
pub struct IoContext {
    nonblocking: bool,
    blocked_io: bool,
}

impl View for IoContext {
    type V = IoContextView;

    closed spec fn view(&self) -> IoContextView {
        IoContextView { nonblocking: self.nonblocking, blocked_io: self.blocked_io }
    }
}

impl IoContext {
    /// The record of a fresh resource: the caller wants blocking calls and the
    /// resource is configured blocking.
    pub fn new() -> (ctx: Self)
        ensures
            ctx@ == (IoContextView { nonblocking: false, blocked_io: true }),
    {
        IoContext { nonblocking: false, blocked_io: true }
    }

    /// Whether a call that needs mode `nonblocking` has to change the mode.
    pub fn needs_switch(&self, nonblocking: bool) -> (b: bool)
        ensures
            b == self@.needs_switch(nonblocking),
    {
        self.blocked_io == nonblocking
    }

    /// Brings the resource into mode `nonblocking`. `f` runs only where the
    /// configured mode differs, and the record follows only where `f`
    /// succeeded.
    fn ensure_mode<F, E>(&mut self, nonblocking: bool, f: F) -> (r: Result<(), E>)
        where F: FnOnce(bool) -> Result<(), E>
        requires
            old(self)@.needs_switch(nonblocking) ==> call_requires(f, (nonblocking,)),
        ensures
            match r {
                Ok(_) => {
                    &&& final(self)@ == old(self)@.after_call(nonblocking, true)
                    &&& old(self)@.needs_switch(nonblocking) ==> call_ensures(
                        f,
                        (nonblocking,),
                        Ok(()),
                    )
                },
                Err(e) => {
                    &&& old(self)@.needs_switch(nonblocking)
                    &&& call_ensures(f, (nonblocking,), Err(e))
                    &&& final(self)@ == old(self)@
                },
            },
    {
        if self.blocked_io == nonblocking {
            let changed = f(nonblocking);
            match changed {
                Ok(unit) => {
                    assert(unit == ());
                    assert(changed == Ok::<(), E>(()));
                    self.blocked_io = !nonblocking;
                    Ok(())
                },
                Err(e) => Err(e),
            }
        } else {
            Ok(())
        }
    }

    /// Decides whether this call is an explicit non-blocking request.
    ///
    /// With the intent declared, the resource is brought into non-blocking
    /// mode (`f(true)` runs if and only if it is configured blocking) and the
    /// answer is `true`; an error of `f` is returned as it is and leaves the
    /// record alone. Without the intent the answer is `false` and neither `f`
    /// nor the record is touched.
    pub fn check_nonblocking<F, E>(&mut self, f: F) -> (r: Result<bool, E>)
        where F: FnOnce(bool) -> Result<(), E>
        requires
            old(self)@.nonblocking && old(self)@.needs_switch(true) ==> call_requires(f, (true,)),
        ensures
            !old(self)@.nonblocking ==> r == Ok::<bool, E>(false) && final(self)@ == old(self)@,
            old(self)@.nonblocking ==> match r {
                Ok(b) => {
                    &&& b
                    &&& final(self)@ == old(self)@.after_call(true, true)
                    &&& old(self)@.needs_switch(true) ==> call_ensures(f, (true,), Ok(()))
                },
                Err(e) => {
                    &&& old(self)@.needs_switch(true)
                    &&& call_ensures(f, (true,), Err(e))
                    &&& final(self)@ == old(self)@
                },
            },
    {
        if self.nonblocking {
            match self.ensure_mode(true, f) {
                Ok(_) => Ok(true),
                Err(e) => Err(e),
            }
        } else {
            Ok(false)
        }
    }

    /// Decides whether this call goes the cooperative way, given whether the
    /// caller runs in a coroutine.
    ///
    /// A thread needs the resource blocking, a coroutine needs it
    /// non-blocking: `f(in_coroutine)` runs if and only if the configured mode
    /// differs from that. The answer is `in_coroutine`; an error of `f` is
    /// returned as it is and leaves the record alone.
    pub fn check_context<F, E>(&mut self, in_coroutine: bool, f: F) -> (r: Result<bool, E>)
        where F: FnOnce(bool) -> Result<(), E>
        requires
            old(self)@.needs_switch(in_coroutine) ==> call_requires(f, (in_coroutine,)),
        ensures
            match r {
                Ok(b) => {
                    &&& b == in_coroutine
                    &&& final(self)@ == old(self)@.after_call(in_coroutine, true)
                    &&& old(self)@.needs_switch(in_coroutine) ==> call_ensures(
                        f,
                        (in_coroutine,),
                        Ok(()),
                    )
                },
                Err(e) => {
                    &&& old(self)@.needs_switch(in_coroutine)
                    &&& call_ensures(f, (in_coroutine,), Err(e))
                    &&& final(self)@ == old(self)@
                },
            },
    {
        match self.ensure_mode(in_coroutine, f) {
            Ok(_) => Ok(in_coroutine),
            Err(e) => Err(e),
        }
    }

    /// Records the caller's intent. The configured mode is not touched.
    pub fn set_nonblocking(&mut self, nonblocking: bool)
        ensures
            final(self)@ == (IoContextView { nonblocking, ..old(self)@ }),
    {
        self.nonblocking = nonblocking;
    }
}

/// After a call that needed mode `nonblocking` and changed it with success,
/// no later call that needs the same mode runs its closure.
pub proof fn lemma_settled_mode_stays(v: IoContextView, nonblocking: bool, outcomes: Seq<bool>)
    requires
        !v.needs_switch(nonblocking),
    ensures
        invocations(v, nonblocking, outcomes) == 0,
    decreases outcomes.len(),
{
    if outcomes.len() > 0 {
        lemma_settled_mode_stays(v.after_call(nonblocking, outcomes[0]), nonblocking, outcomes.drop_first());
    }
}

/// Over any number of consecutive calls that need the same mode, the closure
/// runs at most once more than it fails: once a change has succeeded, none is
/// made again.
pub proof fn lemma_one_switch_per_failure(v: IoContextView, nonblocking: bool, outcomes: Seq<bool>)
    ensures
        invocations(v, nonblocking, outcomes) <= failures(outcomes) + 1,
    decreases outcomes.len(),
{
    if outcomes.len() > 0 {
        let next = v.after_call(nonblocking, outcomes[0]);
        if v.needs_switch(nonblocking) && outcomes[0] {
            lemma_settled_mode_stays(next, nonblocking, outcomes.drop_first());
        } else if !v.needs_switch(nonblocking) {
            lemma_settled_mode_stays(next, nonblocking, outcomes.drop_first());
        } else {
            lemma_one_switch_per_failure(next, nonblocking, outcomes.drop_first());
        }
    }
}

/// Mode-switch minimality: over any number of consecutive calls that need the
/// same mode, and whose closures succeed, the closure runs at most once.
pub proof fn lemma_switch_at_most_once(v: IoContextView, nonblocking: bool, outcomes: Seq<bool>)
    requires
        forall|i: int| 0 <= i < outcomes.len() ==> outcomes[i],
    ensures
        invocations(v, nonblocking, outcomes) <= 1,
        invocations(v, nonblocking, outcomes) == 1 <==> outcomes.len() > 0 && v.needs_switch(nonblocking),
    decreases outcomes.len(),
{
    if outcomes.len() > 0 {
        let next = v.after_call(nonblocking, outcomes[0]);
        assert(outcomes[0]);
        lemma_settled_mode_stays(next, nonblocking, outcomes.drop_first());
    }
}

/// One call on the record: the mode it needs, and whether its closure
/// succeeds, should it run.
pub struct ModeCall {
    pub nonblocking: bool,
    pub ok: bool,
}

/// The record, and whether the resource really is blocking, after `calls`. A
/// closure that runs and succeeds sets the real mode; one that fails, or does
/// not run, leaves it.
pub open spec fn after_calls(v: IoContextView, blocking: bool, calls: Seq<ModeCall>) -> (
    IoContextView,
    bool,
)
    decreases calls.len(),
{
    if calls.len() == 0 {
        (v, blocking)
    } else {
        let call = calls[0];
        let mode = if v.needs_switch(call.nonblocking) && call.ok {
            !call.nonblocking
        } else {
            blocking
        };
        after_calls(v.after_call(call.nonblocking, call.ok), mode, calls.drop_first())
    }
}

/// The record follows the resource: if `blocked_io` tells the real mode
/// before a sequence of calls, whatever modes they need and whichever of
/// their closures fail, it tells the real mode after it; and no call changes
/// the caller's intent.
pub proof fn lemma_flag_tracks_mode(v: IoContextView, blocking: bool, calls: Seq<ModeCall>)
    requires
        v.blocked_io == blocking,
    ensures
        after_calls(v, blocking, calls).0.blocked_io == after_calls(v, blocking, calls).1,
        after_calls(v, blocking, calls).0.nonblocking == v.nonblocking,
    decreases calls.len(),
{
    if calls.len() > 0 {
        let call = calls[0];
        let mode = if v.needs_switch(call.nonblocking) && call.ok {
            !call.nonblocking
        } else {
            blocking
        };
        lemma_flag_tracks_mode(v.after_call(call.nonblocking, call.ok), mode, calls.drop_first());
    }
}

} // verus!
