//! Completion signals and the registry that holds their state.
//!
//! A signal is a binary, monotonic pending-to-complete marker. Two flavors
//! exist: *host-triggerable* signals can be forced complete by calling code;
//! *externally-reported* signals become complete only when the device side
//! reports them. The registry stands for the device context that owns the
//! signal state; an [`Event`] is a plain handle into it.

use vstd::prelude::*;
use crate::error::Error;

verus! {

/// The state the registry records for one signal.
#[derive(Clone, Copy, Debug, PartialEq, Eq, Structural)]
pub struct EventState {
    /// Whether the signal has completed. Monotonic: never reverts.
    pub complete: bool,
    /// Whether the signal is host-triggerable.
    pub user: bool,
    /// Whether the device channel behind the signal has faulted; queries on
    /// a faulted signal fail.
    pub broken: bool,
    /// Whether a wakeup callback has been registered on the signal.
    pub callback: bool,
}

/// A handle to one signal held by a [`Context`].
#[derive(Clone, Copy, Debug)]
pub struct Event {
    id: usize,
}

impl Event {
    /// The index of this signal in the registry it was created by.
    pub closed spec fn id(self) -> int {
        self.id as int
    }

    /// The registry index of this signal, for looking its state up.
    pub fn index(&self) -> (i: usize)
        ensures
            i as int == self.id(),
    {
        self.id
    }

    /// Creates a fresh host-triggerable signal, initially pending.
    pub fn user(ctx: &mut Context) -> (ev: Event)
        ensures
            final(ctx)@ == old(ctx)@.push(
                EventState { complete: false, user: true, broken: false, callback: false },
            ),
            ev.id() == old(ctx)@.len(),
    {
        ctx.fresh(true)
    }

    /// Creates a fresh externally-reported signal, initially pending. Only
    /// the device side ([`Context::device_complete`]) can complete it.
    pub fn external(ctx: &mut Context) -> (ev: Event)
        ensures
            final(ctx)@ == old(ctx)@.push(
                EventState { complete: false, user: false, broken: false, callback: false },
            ),
            ev.id() == old(ctx)@.len(),
    {
        ctx.fresh(false)
    }

    /// Queries whether the signal has completed. Fails when the device
    /// channel behind the signal has faulted.
    pub fn is_complete(&self, ctx: &Context) -> (r: Result<bool, Error>)
        requires
            0 <= self.id() < ctx@.len(),
        ensures
            ctx@[self.id()].broken ==> r == Err::<bool, Error>(Error::SignalQueryFailure),
            !ctx@[self.id()].broken ==> r == Ok::<bool, Error>(ctx@[self.id()].complete),
    {
        let st = ctx.get(self.id);
        if st.broken {
            Err(Error::SignalQueryFailure)
        } else {
            Ok(st.complete)
        }
    }

    /// Forces a host-triggerable signal complete. Fails on a signal that is
    /// not host-triggerable; completion is monotonic either way.
    pub fn set_complete(&self, ctx: &mut Context) -> (r: Result<(), Error>)
        requires
            0 <= self.id() < old(ctx)@.len(),
        ensures
            old(ctx)@[self.id()].user ==> r == Ok::<(), Error>(())
                && final(ctx)@ == old(ctx)@.update(
                    self.id(),
                    EventState { complete: true, ..old(ctx)@[self.id()] },
                ),
            !old(ctx)@[self.id()].user ==> r == Err::<(), Error>(Error::SignalNotTriggerable)
                && final(ctx)@ == old(ctx)@,
    {
        if ctx.get(self.id).user {
            ctx.set_complete_flag(self.id);
            Ok(())
        } else {
            Err(Error::SignalNotTriggerable)
        }
    }

    /// Registers a wakeup callback: the driver of the waiting task is to be
    /// unparked when the signal completes.
    pub fn set_unpark_callback(&self, ctx: &mut Context)
        requires
            0 <= self.id() < old(ctx)@.len(),
        ensures
            final(ctx)@ == old(ctx)@.update(
                self.id(),
                EventState { callback: true, ..old(ctx)@[self.id()] },
            ),
    {
        ctx.set_callback_flag(self.id);
    }
}

/// The registry of signal states: the model of the device context all
/// signals belong to.
pub struct Context {
    events: Vec<EventState>,
}

impl View for Context {
    type V = Seq<EventState>;

    closed spec fn view(&self) -> Seq<EventState> {
        self.events@
    }
}

impl Context {
    /// A registry with no signals yet.
    pub fn new() -> (ctx: Context)
        ensures
            ctx@ == Seq::<EventState>::empty(),
    {
        Context { events: Vec::new() }
    }

    /// How many signals have been created in this registry.
    pub fn len(&self) -> (n: usize)
        ensures
            n == self@.len(),
    {
        self.events.len()
    }

    /// Reads the recorded state of one signal.
    pub fn get(&self, id: usize) -> (st: EventState)
        requires
            0 <= id < self@.len(),
        ensures
            st == self@[id as int],
    {
        self.events[id]
    }

    /// Models the out-of-band report from the device that the work behind a
    /// signal has finished: the signal becomes complete.
    pub fn device_complete(&mut self, ev: &Event)
        requires
            0 <= ev.id() < old(self)@.len(),
        ensures
            final(self)@ == old(self)@.update(
                ev.id(),
                EventState { complete: true, ..old(self)@[ev.id()] },
            ),
    {
        let st = self.events[ev.id];
        self.events.set(ev.id, EventState { complete: true, ..st });
    }

    /// Models a driver fault on the channel behind a signal: queries on it
    /// fail from now on.
    pub fn poison(&mut self, ev: &Event)
        requires
            0 <= ev.id() < old(self)@.len(),
        ensures
            final(self)@ == old(self)@.update(
                ev.id(),
                EventState { broken: true, ..old(self)@[ev.id()] },
            ),
    {
        let st = self.events[ev.id];
        self.events.set(ev.id, EventState { broken: true, ..st });
    }

    fn fresh(&mut self, user: bool) -> (ev: Event)
        ensures
            final(self)@ == old(self)@.push(
                EventState { complete: false, user: user, broken: false, callback: false },
            ),
            ev.id() == old(self)@.len(),
    {
        let id = self.events.len();
        self.events.push(EventState { complete: false, user: user, broken: false, callback: false });
        Event { id }
    }

    fn set_complete_flag(&mut self, id: usize)
        requires
            0 <= id < old(self)@.len(),
        ensures
            final(self)@ == old(self)@.update(
                id as int,
                EventState { complete: true, ..old(self)@[id as int] },
            ),
    {
        let st = self.events[id];
        self.events.set(id, EventState { complete: true, ..st });
    }

    fn set_callback_flag(&mut self, id: usize)
        requires
            0 <= id < old(self)@.len(),
        ensures
            final(self)@ == old(self)@.update(
                id as int,
                EventState { callback: true, ..old(self)@[id as int] },
            ),
    {
        let st = self.events[id];
        self.events.set(id, EventState { callback: true, ..st });
    }
}

} // verus!
