//! Readiness of one IO resource, the cancellation record of one coroutine,
//! and the protocol by which a coroutine suspends on the two.

use vstd::prelude::*;
use crate::handle::Coroutine;
use crate::slot::Slot;

verus! {

/// What an `IoData` holds.
pub struct IoDataView {
    /// Names the resource.
    pub token: usize,
    /// An event has fired and no attempt has consumed it yet.
    pub ready: bool,
    /// The coroutine that is suspended on the resource.
    pub waiter: Option<Coroutine>,
}

/// What a `CancelData` holds.
pub struct CancelView {
    /// A cancellation has been requested.
    pub canceled: bool,
    /// The token of the resource that the coroutine is registered on.
    pub io: Option<usize>,
}

/// The two records that one suspension works on.
pub struct Subscription {
    pub io: IoDataView,
    pub cancel: CancelView,
}

/// How a subscription ended.
#[derive(Debug, PartialEq, Eq)]
pub enum Subscribed {
    /// The coroutine stays registered. An event or a cancellation will hand
    /// it out later.
    Suspended,
    /// An event had fired already. The coroutine, if it is handed out here,
    /// is to be rescheduled at once; where it is not, whoever recorded the
    /// event has taken it.
    Ready(Option<Coroutine>),
    /// A cancellation had been requested already. The coroutine, if it is
    /// handed out here, is to be resumed as canceled; where it is not, the
    /// canceler has taken the registration and resumes it.
    Canceled(Option<Coroutine>),
}

impl Subscription {
    /// The waiter slot is emptied.
    pub open spec fn without_waiter(self) -> Subscription {
        Subscription { io: IoDataView { waiter: None, ..self.io }, ..self }
    }

    /// Publish: `co` takes the waiter slot, and the resource is entered in
    /// the cancellation record.
    pub open spec fn register(self, co: Coroutine) -> Subscription {
        Subscription {
            io: IoDataView { waiter: Some(co), ..self.io },
            cancel: CancelView { io: Some(self.io.token), ..self.cancel },
        }
    }

    /// An event fires: the flag is set and the waiter is handed out.
    pub open spec fn schedule(self) -> (Subscription, Option<Coroutine>) {
        (
            Subscription { io: IoDataView { ready: true, waiter: None, ..self.io }, ..self },
            self.io.waiter,
        )
    }

    /// A cancellation is requested: the flag is set, and if this resource is
    /// the registered one, the registration is removed and the waiter handed
    /// out.
    pub open spec fn cancel(self) -> (Subscription, Option<Coroutine>) {
        if self.cancel.io == Some(self.io.token) {
            (
                Subscription {
                    io: IoDataView { waiter: None, ..self.io },
                    cancel: CancelView { canceled: true, io: None },
                },
                self.io.waiter,
            )
        } else {
            (Subscription { cancel: CancelView { canceled: true, ..self.cancel }, ..self }, None)
        }
    }

    /// Recheck: readiness first, then cancellation; only if neither is there
    /// the coroutine stays suspended.
    pub open spec fn confirm(self) -> (Subscription, Subscribed) {
        if self.io.ready {
            (self.schedule().0, Subscribed::Ready(self.schedule().1))
        } else if self.cancel.canceled {
            (self.cancel().0, Subscribed::Canceled(self.cancel().1))
        } else {
            (self, Subscribed::Suspended)
        }
    }

    /// Publish, then recheck.
    pub open spec fn subscribe(self, co: Coroutine) -> (Subscription, Subscribed) {
        self.register(co).confirm()
    }
}

/// Readiness flag and waiter slot of one IO resource.
pub struct IoData {
    token: usize,
    io_flag: bool,
    co: Slot<Coroutine>,
}

impl View for IoData {
    type V = IoDataView;

    closed spec fn view(&self) -> IoDataView {
        IoDataView { token: self.token, ready: self.io_flag, waiter: self.co@ }
    }
}

/// An IO resource that can be suspended on.
pub trait AsIoData {
    /// The record that `as_io_data` exposes.
    spec fn io_data(&self) -> IoData;

    /// The resource's readiness record.
    fn as_io_data(&self) -> (io: &IoData)
        ensures
            *io == self.io_data(),
    ;
}

impl AsIoData for IoData {
    open spec fn io_data(&self) -> IoData {
        *self
    }

    fn as_io_data(&self) -> (io: &IoData) {
        self
    }
}

/// Cancellation state of one coroutine.
#[derive(Debug)]
pub struct CancelData {
    canceled: bool,
    io: Option<usize>,
}

impl View for CancelData {
    type V = CancelView;

    closed spec fn view(&self) -> CancelView {
        CancelView { canceled: self.canceled, io: self.io }
    }
}

impl CancelData {
    /// The record of a coroutine that is not canceled and not suspended.
    pub fn new() -> (c: Self)
        ensures
            c@ == (CancelView { canceled: false, io: None }),
    {
        CancelData { canceled: false, io: None }
    }

    /// Enters the resource named `token` as the one the coroutine waits on.
    pub fn set_io(&mut self, token: usize)
        ensures
            final(self)@ == (CancelView { io: Some(token), ..old(self)@ }),
    {
        self.io = Some(token);
    }

    /// Whether a cancellation has been requested.
    pub fn is_canceled(&self) -> (b: bool)
        ensures
            b == self@.canceled,
    {
        self.canceled
    }

    /// Requests the cancellation. If the coroutine is registered on `io`, the
    /// registration ends and the waiter is handed out: the caller resumes it
    /// as canceled. Otherwise only the request is recorded, and the coroutine
    /// finds it at its next check.
    pub fn cancel(&mut self, io: &mut IoData) -> (co: Option<Coroutine>)
        ensures
            ((Subscription { io: final(io)@, cancel: final(self)@ }), co) == (Subscription {
                io: old(io)@,
                cancel: old(self)@,
            }).cancel(),
    {
        self.canceled = true;
        match self.io {
            Some(token) => {
                if token == io.token {
                    self.io = None;
                    io.co.take()
                } else {
                    None
                }
            },
            None => None,
        }
    }
}

impl IoData {
    /// The record of the resource named `token`: no event, no waiter.
    pub fn new(token: usize) -> (io: Self)
        ensures
            io@ == (IoDataView { token, ready: false, waiter: None }),
    {
        IoData { token, io_flag: false, co: Slot::none() }
    }

    /// The resource's token.
    pub fn token(&self) -> (t: usize)
        ensures
            t == self@.token,
    {
        self.token
    }

    /// Whether an event is recorded.
    pub fn is_ready(&self) -> (b: bool)
        ensures
            b == self@.ready,
    {
        self.io_flag
    }

    /// Clears the readiness flag, before an attempt.
    pub fn clear(&mut self)
        ensures
            final(self)@ == (IoDataView { ready: false, ..old(self)@ }),
    {
        self.io_flag = false;
    }

    /// Clears the readiness flag and tells whether it was set.
    pub fn take_ready(&mut self) -> (was: bool)
        ensures
            was == old(self)@.ready,
            final(self)@ == (IoDataView { ready: false, ..old(self)@ }),
    {
        let was = self.io_flag;
        self.io_flag = false;
        was
    }

    /// Records an event: sets the readiness flag and hands out the waiter,
    /// which the caller reschedules.
    pub fn schedule(&mut self) -> (co: Option<Coroutine>)
        ensures
            co == old(self)@.waiter,
            final(self)@ == (IoDataView { ready: true, waiter: None, ..old(self)@ }),
    {
        self.io_flag = true;
        self.co.take()
    }

    /// First half of a suspension: `co` is installed as the waiter, whoever
    /// was there before is dropped, and the resource is entered in the
    /// coroutine's cancellation record.
    pub fn register(&mut self, cancel: &mut CancelData, co: Coroutine)
        ensures
            (Subscription { io: final(self)@, cancel: final(cancel)@ }) == (Subscription {
                io: old(self)@,
                cancel: old(cancel)@,
            }).register(co),
    {
        let _ = self.co.swap(co);
        cancel.set_io(self.token);
    }

    /// Second half of a suspension: looks again for an event, then for a
    /// cancellation, that came in before the registration was visible.
    pub fn confirm(&mut self, cancel: &mut CancelData) -> (r: Subscribed)
        ensures
            ((Subscription { io: final(self)@, cancel: final(cancel)@ }), r) == (Subscription {
                io: old(self)@,
                cancel: old(cancel)@,
            }).confirm(),
    {
        if self.io_flag {
            Subscribed::Ready(self.schedule())
        } else if cancel.is_canceled() {
            Subscribed::Canceled(cancel.cancel(self))
        } else {
            Subscribed::Suspended
        }
    }

    /// Suspends `co` on this resource: publish, then recheck.
    pub fn subscribe(&mut self, cancel: &mut CancelData, co: Coroutine) -> (r: Subscribed)
        ensures
            ((Subscription { io: final(self)@, cancel: final(cancel)@ }), r) == (Subscription {
                io: old(self)@,
                cancel: old(cancel)@,
            }).subscribe(co),
            r == (if old(self)@.ready {
                Subscribed::Ready(Some(co))
            } else if old(cancel)@.canceled {
                Subscribed::Canceled(Some(co))
            } else {
                Subscribed::Suspended
            }),
    {
        self.register(cancel, co);
        self.confirm(cancel)
    }
}

} // verus!
