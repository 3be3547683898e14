//! A lock which guards a shared buffer and can interact with completion
//! signals.
//!
//! An access request is a [`PendingRwGuard`]: a three-stage cooperative
//! state machine. It first waits for an optional input signal (*marker*
//! stage), then for its turn in the FIFO [`ExclusionQueue`] (*qutex* stage),
//! then for a trailing command signal (*command* stage), and finally
//! resolves into an [`RwGuard`] owning exclusive access to the buffer.
//! Nothing here ever blocks a thread: each poll either makes progress or
//! registers a wakeup and reports "not ready".
//!
//! The whole machine is modeled by the [`poll_step`] transition function;
//! the contract of [`PendingRwGuard::poll`] states that one poll call does
//! exactly one such step.

use vstd::prelude::*;
use crate::error::Error;
use crate::event::{Context, Event, EventState};
use crate::queue::{ExclusionQueue, QueueView};

verus! {

/// The stages an access request passes through, in order, no cycles.
#[derive(Clone, Copy, Debug, PartialEq, Eq, Structural)]
pub enum Stage {
    /// Waiting for the optional input signal.
    Marker,
    /// Waiting for the grant of the exclusion queue.
    Qutex,
    /// Waiting for the trailing command signal.
    Command,
}

/// What one poll of a pending request reports when it does not fail.
pub enum PollState<T> {
    /// The request resolved: the caller now holds exclusive access.
    Ready(T),
    /// Progress is pending on an external signal or on the queue; a wakeup
    /// has been arranged where one is needed.
    NotReady,
}

/// The mathematical state of a [`PendingRwGuard`]. Signals appear as their
/// registry indices.
pub struct PendingView {
    /// Whether the request reached terminal resolution (successfully or
    /// not); the buffer reference has been given up either way.
    pub resolved: bool,
    /// The current stage.
    pub stage: Stage,
    /// The queue id of this request, assigned when the marker stage is
    /// passed and the request enters the queue.
    pub req_id: Option<u64>,
    /// The optional input signal the marker stage waits on.
    pub wait: Option<int>,
    /// The host-triggerable signal force-completed at the moment of grant.
    pub trigger: int,
    /// The optional trailing signal the command stage waits on.
    pub command: Option<int>,
    /// The buffer length observed when the request was issued.
    pub len: usize,
}

/// A pending request is coherent with its signal registry: its signals
/// exist, its trigger is host-triggerable, its queue id exists from the
/// qutex stage on, and the trigger is complete exactly when the qutex stage
/// has been passed.
pub open spec fn pending_wf(p: PendingView, ctx: Seq<EventState>) -> bool {
    &&& 0 <= p.trigger < ctx.len()
    &&& ctx[p.trigger].user
    &&& match p.wait {
        Some(w) => 0 <= w < ctx.len(),
        None => true,
    }
    &&& match p.command {
        Some(c) => 0 <= c < ctx.len(),
        None => true,
    }
    &&& (p.stage is Marker <==> p.req_id is None)
    &&& (ctx[p.trigger].complete <==> p.stage is Command)
}

/// The outcome of one poll step, at the level of views.
pub struct PollStep {
    /// The request afterwards.
    pub pending: PendingView,
    /// The queue afterwards.
    pub queue: QueueView,
    /// The signal registry afterwards.
    pub ctx: Seq<EventState>,
    /// Whether the request resolved into a guard (the buffer is taken).
    pub resolves: bool,
    /// The error surfaced, if any. Never set when `resolves` is.
    pub error: Option<Error>,
}

/// One step of the command stage: the request holds the grant and waits for
/// its command signal. `has_buf` says whether the buffer is still in place.
pub open spec fn step_command(
    p: PendingView,
    q: QueueView,
    has_buf: bool,
    ctx: Seq<EventState>,
) -> PollStep {
    let id = p.req_id->Some_0;
    if q.holder != Some(id) || !has_buf {
        // The grant was severed behind this request's back: surfaced as a
        // lock-acquisition failure.
        PollStep {
            pending: PendingView { resolved: true, ..p },
            queue: q,
            ctx: ctx,
            resolves: false,
            error: Some(Error::ChannelClosed),
        }
    } else {
        match p.command {
            None => PollStep {
                pending: PendingView { resolved: true, ..p },
                queue: q.freed().advanced(),
                ctx: ctx,
                resolves: false,
                error: Some(Error::MissingCommandSignal),
            },
            Some(c) => if ctx[c].broken {
                PollStep {
                    pending: PendingView { resolved: true, ..p },
                    queue: q.freed().advanced(),
                    ctx: ctx,
                    resolves: false,
                    error: Some(Error::SignalQueryFailure),
                }
            } else if !ctx[c].complete {
                PollStep {
                    pending: p,
                    queue: q,
                    ctx: ctx.update(c, EventState { callback: true, ..ctx[c] }),
                    resolves: false,
                    error: None,
                }
            } else {
                PollStep {
                    pending: PendingView { resolved: true, ..p },
                    queue: q,
                    ctx: ctx,
                    resolves: true,
                    error: None,
                }
            },
        }
    }
}

/// One step of the qutex stage: drive the queue forward, then check whether
/// this request has been granted. On grant the trigger signal is completed
/// and the command stage is entered within the same step.
pub open spec fn step_qutex(
    p: PendingView,
    q: QueueView,
    has_buf: bool,
    ctx: Seq<EventState>,
) -> PollStep {
    let id = p.req_id->Some_0;
    let q1 = q.advanced();
    if q1.holder == Some(id) {
        let p1 = PendingView { stage: Stage::Command, ..p };
        let ctx1 = ctx.update(p.trigger, EventState { complete: true, ..ctx[p.trigger] });
        step_command(p1, q1, has_buf, ctx1)
    } else if q1.waiters.contains(id) {
        PollStep { pending: p, queue: q1, ctx: ctx, resolves: false, error: None }
    } else {
        // Neither granted nor waiting: the notification channel is gone.
        PollStep {
            pending: PendingView { resolved: true, ..p },
            queue: q1,
            ctx: ctx,
            resolves: false,
            error: Some(Error::ChannelClosed),
        }
    }
}

/// One step of the marker stage: wait for the input signal if one was
/// supplied; once it is complete (or absent) the request enters the queue
/// and the qutex stage proceeds within the same step.
pub open spec fn step_marker(
    p: PendingView,
    q: QueueView,
    has_buf: bool,
    ctx: Seq<EventState>,
) -> PollStep {
    match p.wait {
        Some(w) if ctx[w].broken => PollStep {
            pending: PendingView { resolved: true, ..p },
            queue: q,
            ctx: ctx,
            resolves: false,
            error: Some(Error::SignalQueryFailure),
        },
        Some(w) if !ctx[w].complete => PollStep {
            pending: p,
            queue: q,
            ctx: ctx.update(w, EventState { callback: true, ..ctx[w] }),
            resolves: false,
            error: None,
        },
        _ => {
            let p1 = PendingView { stage: Stage::Qutex, req_id: Some(q.next), ..p };
            step_qutex(p1, q.enqueued(), has_buf, ctx)
        },
    }
}

/// The full transition of one poll call, whatever the current stage.
pub open spec fn poll_step(
    p: PendingView,
    q: QueueView,
    has_buf: bool,
    ctx: Seq<EventState>,
) -> PollStep {
    if p.resolved {
        PollStep {
            pending: p,
            queue: q,
            ctx: ctx,
            resolves: false,
            error: Some(Error::AlreadyResolved),
        }
    } else {
        match p.stage {
            Stage::Marker => step_marker(p, q, has_buf, ctx),
            Stage::Qutex => step_qutex(p, q, has_buf, ctx),
            Stage::Command => step_command(p, q, has_buf, ctx),
        }
    }
}

/// The mathematical state of an [`RwVec`].
pub struct RwVecView<T> {
    /// The exclusion queue.
    pub queue: QueueView,
    /// The guarded buffer, absent while a guard holds it.
    pub buf: Option<Seq<T>>,
    /// The buffer length as last observed by the lock; exact whenever the
    /// buffer is in place.
    pub len: usize,
}

impl<T> RwVecView<T> {
    /// The queue is well-formed, the buffer is only ever absent while a
    /// grant is held, and the recorded length is exact while it is present.
    pub open spec fn wf(self) -> bool {
        &&& self.queue.wf()
        &&& (self.buf is None ==> self.queue.holder is Some)
        &&& match self.buf {
            Some(s) => s.len() == self.len as int,
            None => true,
        }
    }
}

/// A sequential buffer guarded by a FIFO exclusion queue. Exclusive access
/// to the contents is granted only through resolved access requests.
pub struct RwVec<T> {
    queue: ExclusionQueue,
    data: Option<Vec<T>>,
    len: usize,
}

impl<T> View for RwVec<T> {
    type V = RwVecView<T>;

    closed spec fn view(&self) -> RwVecView<T> {
        RwVecView {
            queue: self.queue@,
            buf: match self.data {
                Some(v) => Some(v@),
                None => None,
            },
            len: self.len,
        }
    }
}

impl<T> RwVec<T> {
    /// Creates and returns a new `RwVec` over an empty buffer.
    pub fn new() -> (rw: RwVec<T>)
        ensures
            rw@.queue == (QueueView {
                waiters: Seq::<u64>::empty(),
                holder: None::<u64>,
                next: 0u64,
            }),
            rw@.buf == Some(Seq::<T>::empty()),
            rw@.len == 0,
            rw@.wf(),
    {
        let rw = RwVec { queue: ExclusionQueue::new(), data: Some(Vec::new()), len: 0 };
        proof {
            assert(rw@.buf->Some_0 =~= Seq::<T>::empty());
        }
        rw
    }

    /// Wraps an existing buffer.
    pub fn from_vec(v: Vec<T>) -> (rw: RwVec<T>)
        ensures
            rw@.queue == (QueueView {
                waiters: Seq::<u64>::empty(),
                holder: None::<u64>,
                next: 0u64,
            }),
            rw@.buf == Some(v@),
            rw@.len == v@.len(),
            rw@.wf(),
    {
        let len = v.len();
        RwVec { queue: ExclusionQueue::new(), data: Some(v), len }
    }

    /// Issues a new access request for this buffer, to be driven by
    /// [`PendingRwGuard::poll`]. Never blocks and always succeeds. A
    /// request without an input signal is appended to the tail of the
    /// queue right here, so queue positions follow the order requests are
    /// issued in; one with an input signal does not occupy a queue slot
    /// until that signal completes.
    pub fn lock_pending_event(
        &mut self,
        ctx: &mut Context,
        wait_event: Option<Event>,
    ) -> (p: PendingRwGuard)
        requires
            wait_event matches Some(w) ==> 0 <= w.id() < old(ctx)@.len(),
            wait_event is None ==> old(self)@.queue.can_enqueue(),
        ensures
            final(ctx)@ == old(ctx)@.push(
                EventState { complete: false, user: true, broken: false, callback: false },
            ),
            final(self)@.buf == old(self)@.buf,
            final(self)@.len == old(self)@.len,
            wait_event matches Some(w) ==> final(self)@.queue == old(self)@.queue && p@ == (
            PendingView {
                resolved: false,
                stage: Stage::Marker,
                req_id: None::<u64>,
                wait: Some(w.id()),
                trigger: old(ctx)@.len() as int,
                command: None::<int>,
                len: old(self)@.len,
            }),
            wait_event is None ==> final(self)@.queue == old(self)@.queue.enqueued() && p@ == (
            PendingView {
                resolved: false,
                stage: Stage::Qutex,
                req_id: Some(old(self)@.queue.next),
                wait: None::<int>,
                trigger: old(ctx)@.len() as int,
                command: None::<int>,
                len: old(self)@.len,
            }),
            pending_wf(p@, final(ctx)@),
            old(self)@.wf() ==> final(self)@.wf(),
    {
        let mut p = PendingRwGuard::new(ctx, wait_event, self.len);
        if p.wait_event.is_none() {
            // No input dependency: the marker stage is already satisfied,
            // so the request takes its FIFO position immediately.
            let id = self.queue.enqueue();
            p.req_id = Some(id);
            p.stage = Stage::Qutex;
        }
        p
    }

    /// Drives the exclusion queue forward one step (idempotent probing).
    pub fn process_queue(&mut self)
        ensures
            final(self)@.queue == old(self)@.queue.advanced(),
            final(self)@.buf == old(self)@.buf,
            final(self)@.len == old(self)@.len,
            old(self)@.wf() ==> final(self)@.wf(),
    {
        self.queue.advance();
    }

    /// Marks the resource free without going through a guard. Calling this
    /// while no grant is held is a logic error and is reported as such.
    pub fn unlock(&mut self) -> (r: Result<(), Error>)
        ensures
            old(self)@.queue.holder is Some ==> r == Ok::<(), Error>(())
                && final(self)@.queue == old(self)@.queue.freed(),
            old(self)@.queue.holder is None ==> r == Err::<(), Error>(Error::ReleaseWithoutHold)
                && final(self)@.queue == old(self)@.queue,
            final(self)@.buf == old(self)@.buf,
            final(self)@.len == old(self)@.len,
    {
        self.queue.release()
    }

    /// A read-only view of the exclusion queue.
    pub fn queue(&self) -> (q: &ExclusionQueue)
        ensures
            q@ == self@.queue,
    {
        &self.queue
    }

    /// The buffer length as last observed by the lock.
    pub fn len(&self) -> (n: usize)
        ensures
            n == self@.len,
    {
        self.len
    }

    /// Whether the buffer is currently in place (no live guard).
    pub fn has_buf(&self) -> (b: bool)
        ensures
            b == (self@.buf is Some),
    {
        self.data.is_some()
    }
}

/// Grants access to the guarded buffer like a mutex guard. Exactly one
/// guard can exist per [`RwVec`] at a time, structurally: the guard owns the
/// buffer, taken out of the lock at resolution and handed back on release.
pub struct RwGuard<T> {
    vec: Vec<T>,
}

impl<T> View for RwGuard<T> {
    type V = Seq<T>;

    closed spec fn view(&self) -> Seq<T> {
        self.vec@
    }
}

impl<T> RwGuard<T> {
    /// Read access to the guarded buffer.
    pub fn as_vec(&self) -> (v: &Vec<T>)
        ensures
            v@ == self@,
    {
        &self.vec
    }

    /// Write access to the guarded buffer.
    pub fn as_mut_vec(&mut self) -> (v: &mut Vec<T>)
        ensures
            (*v)@ == old(self)@,
            final(self)@ == (*final(v))@,
    {
        &mut self.vec
    }

    /// Hands the buffer back and releases the exclusion slot, then drives
    /// the queue so the next waiter (if any) is granted immediately. This
    /// is the model of dropping the guard, and must be called on every exit
    /// path.
    pub fn release(self, rw: &mut RwVec<T>)
        requires
            old(rw)@.buf is None,
            old(rw)@.queue.holder is Some,
        ensures
            final(rw)@.queue == old(rw)@.queue.freed().advanced(),
            final(rw)@.buf == Some(self@),
            final(rw)@.len == self@.len(),
            old(rw)@.wf() ==> final(rw)@.wf(),
    {
        rw.len = self.vec.len();
        rw.data = Some(self.vec);
        let _ = rw.queue.release();
        rw.queue.advance();
    }
}

/// An access request being driven to resolution: waits on an optional
/// input signal, then on the exclusion queue, then on a trailing command
/// signal, and finally yields an [`RwGuard`].
pub struct PendingRwGuard {
    resolved: bool,
    stage: Stage,
    req_id: Option<u64>,
    wait_event: Option<Event>,
    trigger_event: Event,
    command_event: Option<Event>,
    len: usize,
}

impl View for PendingRwGuard {
    type V = PendingView;

    closed spec fn view(&self) -> PendingView {
        PendingView {
            resolved: self.resolved,
            stage: self.stage,
            req_id: self.req_id,
            wait: match self.wait_event {
                Some(e) => Some(e.id()),
                None => None,
            },
            trigger: self.trigger_event.id(),
            command: match self.command_event {
                Some(e) => Some(e.id()),
                None => None,
            },
            len: self.len,
        }
    }
}

impl PendingRwGuard {
    /// Builds a fresh request in the marker stage: not yet queued, with a
    /// newly created host-triggerable trigger event and no command event.
    fn new(ctx: &mut Context, wait_event: Option<Event>, len: usize) -> (p: PendingRwGuard)
        requires
            wait_event matches Some(w) ==> 0 <= w.id() < old(ctx)@.len(),
        ensures
            final(ctx)@ == old(ctx)@.push(
                EventState { complete: false, user: true, broken: false, callback: false },
            ),
            p@ == (PendingView {
                resolved: false,
                stage: Stage::Marker,
                req_id: None::<u64>,
                wait: match wait_event {
                    Some(w) => Some(w.id()),
                    None => None::<int>,
                },
                trigger: old(ctx)@.len() as int,
                command: None::<int>,
                len: len,
            }),
            pending_wf(p@, final(ctx)@),
    {
        let trigger_event = Event::user(ctx);
        PendingRwGuard {
            resolved: false,
            stage: Stage::Marker,
            req_id: None,
            wait_event,
            trigger_event,
            command_event: None,
            len,
        }
    }

    /// Sets the command completion event. Must happen before the command
    /// stage is reached, or resolution fails with a configuration error.
    pub fn set_command_event(&mut self, command_event: Event)
        ensures
            final(self)@ == (PendingView { command: Some(command_event.id()), ..old(self)@ }),
    {
        self.command_event = Some(command_event);
    }

    /// A handle on the event which triggers once the input marker is
    /// complete and the queue grant has been won.
    pub fn trigger_event(&self) -> (ev: &Event)
        ensures
            ev.id() == self@.trigger,
    {
        &self.trigger_event
    }

    /// The buffer length observed when the request was issued.
    pub fn len(&self) -> (n: usize)
        ensures
            n == self@.len,
    {
        self.len
    }

    /// The stage the request currently stands in.
    pub fn stage(&self) -> (s: Stage)
        ensures
            s == self@.stage,
    {
        self.stage
    }

    /// Whether the request has reached terminal resolution.
    pub fn is_resolved(&self) -> (b: bool)
        ensures
            b == self@.resolved,
    {
        self.resolved
    }

    /// Makes as much progress as possible in one re-entrant call: exactly
    /// the transition [`poll_step`] describes. Returns `Ready` with the
    /// access guard on terminal resolution, `NotReady` after registering
    /// for a wakeup, or the error [`poll_step`] surfaces.
    pub fn poll<T>(&mut self, rw: &mut RwVec<T>, ctx: &mut Context) -> (r: Result<
        PollState<RwGuard<T>>,
        Error,
    >)
        requires
            pending_wf(old(self)@, old(ctx)@),
            !old(self)@.resolved && old(self)@.stage is Marker ==> old(
                rw,
            )@.queue.can_enqueue(),
        ensures
            ({
                let s = poll_step(old(self)@, old(rw)@.queue, old(rw)@.buf is Some, old(ctx)@);
                &&& final(self)@ == s.pending
                &&& final(rw)@.queue == s.queue
                &&& final(ctx)@ == s.ctx
                &&& final(rw)@.len == old(rw)@.len
                &&& (s.resolves ==> final(rw)@.buf is None && (r matches Ok(
                    PollState::Ready(g),
                ) && g@ == old(rw)@.buf->Some_0))
                &&& (!s.resolves ==> final(rw)@.buf == old(rw)@.buf)
                &&& (s.error matches Some(e) ==> r == Err::<PollState<RwGuard<T>>, Error>(e))
                &&& (s.error is None && !s.resolves ==> r == Ok::<PollState<RwGuard<T>>, Error>(
                    PollState::NotReady,
                ))
                &&& pending_wf(final(self)@, final(ctx)@)
                &&& (old(rw)@.wf() ==> final(rw)@.wf())
            }),
    {
        if self.resolved {
            Err(Error::AlreadyResolved)
        } else {
            match self.stage {
                Stage::Marker => self.poll_marker(rw, ctx),
                Stage::Qutex => self.poll_qutex(rw, ctx),
                Stage::Command => self.poll_command(rw, ctx),
            }
        }
    }

    /// Polls the input marker event until its requisite work has completed,
    /// then enters the queue and polls it.
    fn poll_marker<T>(&mut self, rw: &mut RwVec<T>, ctx: &mut Context) -> (r: Result<
        PollState<RwGuard<T>>,
        Error,
    >)
        requires
            pending_wf(old(self)@, old(ctx)@),
            !old(self)@.resolved,
            old(self)@.stage is Marker,
            old(rw)@.queue.can_enqueue(),
        ensures
            ({
                let s = step_marker(old(self)@, old(rw)@.queue, old(rw)@.buf is Some, old(ctx)@);
                &&& final(self)@ == s.pending
                &&& final(rw)@.queue == s.queue
                &&& final(ctx)@ == s.ctx
                &&& final(rw)@.len == old(rw)@.len
                &&& (s.resolves ==> final(rw)@.buf is None && (r matches Ok(
                    PollState::Ready(g),
                ) && g@ == old(rw)@.buf->Some_0))
                &&& (!s.resolves ==> final(rw)@.buf == old(rw)@.buf)
                &&& (s.error matches Some(e) ==> r == Err::<PollState<RwGuard<T>>, Error>(e))
                &&& (s.error is None && !s.resolves ==> r == Ok::<PollState<RwGuard<T>>, Error>(
                    PollState::NotReady,
                ))
                &&& pending_wf(final(self)@, final(ctx)@)
                &&& (old(rw)@.wf() ==> final(rw)@.wf())
            }),
    {
        // Check completion of the wait event, if one exists:
        if let Some(wait_event) = self.wait_event {
            match wait_event.is_complete(ctx) {
                Err(e) => {
                    self.resolved = true;
                    return Err(e);
                },
                Ok(false) => {
                    wait_event.set_unpark_callback(ctx);
                    return Ok(PollState::NotReady);
                },
                Ok(true) => {},
            }
        }
        // The input dependency is satisfied: enter the queue.
        let id = rw.queue.enqueue();
        self.req_id = Some(id);
        self.stage = Stage::Qutex;
        self.poll_qutex(rw, ctx)
    }

    /// Drives the queue forward, then checks the grant notification; on
    /// grant, completes the trigger event and polls the command stage.
    fn poll_qutex<T>(&mut self, rw: &mut RwVec<T>, ctx: &mut Context) -> (r: Result<
        PollState<RwGuard<T>>,
        Error,
    >)
        requires
            pending_wf(old(self)@, old(ctx)@),
            !old(self)@.resolved,
            old(self)@.stage is Qutex,
        ensures
            ({
                let s = step_qutex(old(self)@, old(rw)@.queue, old(rw)@.buf is Some, old(ctx)@);
                &&& final(self)@ == s.pending
                &&& final(rw)@.queue == s.queue
                &&& final(ctx)@ == s.ctx
                &&& final(rw)@.len == old(rw)@.len
                &&& (s.resolves ==> final(rw)@.buf is None && (r matches Ok(
                    PollState::Ready(g),
                ) && g@ == old(rw)@.buf->Some_0))
                &&& (!s.resolves ==> final(rw)@.buf == old(rw)@.buf)
                &&& (s.error matches Some(e) ==> r == Err::<PollState<RwGuard<T>>, Error>(e))
                &&& (s.error is None && !s.resolves ==> r == Ok::<PollState<RwGuard<T>>, Error>(
                    PollState::NotReady,
                ))
                &&& pending_wf(final(self)@, final(ctx)@)
                &&& (old(rw)@.wf() ==> final(rw)@.wf())
            }),
    {
        // Move the queue along:
        rw.queue.advance();
        let id = self.req_id.unwrap();
        // Check for the grant notification:
        let granted = match rw.queue.holder() {
            Some(h) => h == id,
            None => false,
        };
        if granted {
            // This request was popped from the front of the queue and now
            // holds exclusive access. Let dependent device work begin:
            match self.trigger_event.set_complete(ctx) {
                Ok(()) => {},
                Err(e) => {
                    // The trigger event is host-triggerable by
                    // construction, so this cannot be reached.
                    return Err(e);
                },
            }
            self.stage = Stage::Command;
            self.poll_command(rw, ctx)
        } else if rw.queue.contains(id) {
            Ok(PollState::NotReady)
        } else {
            self.resolved = true;
            Err(Error::ChannelClosed)
        }
    }

    /// Polls the command event until it is complete, then resolves into an
    /// `RwGuard` which can be safely accessed immediately.
    fn poll_command<T>(&mut self, rw: &mut RwVec<T>, ctx: &mut Context) -> (r: Result<
        PollState<RwGuard<T>>,
        Error,
    >)
        requires
            pending_wf(old(self)@, old(ctx)@),
            !old(self)@.resolved,
            old(self)@.stage is Command,
        ensures
            ({
                let s = step_command(old(self)@, old(rw)@.queue, old(rw)@.buf is Some, old(ctx)@);
                &&& final(self)@ == s.pending
                &&& final(rw)@.queue == s.queue
                &&& final(ctx)@ == s.ctx
                &&& final(rw)@.len == old(rw)@.len
                &&& (s.resolves ==> final(rw)@.buf is None && (r matches Ok(
                    PollState::Ready(g),
                ) && g@ == old(rw)@.buf->Some_0))
                &&& (!s.resolves ==> final(rw)@.buf == old(rw)@.buf)
                &&& (s.error matches Some(e) ==> r == Err::<PollState<RwGuard<T>>, Error>(e))
                &&& (s.error is None && !s.resolves ==> r == Ok::<PollState<RwGuard<T>>, Error>(
                    PollState::NotReady,
                ))
                &&& pending_wf(final(self)@, final(ctx)@)
                &&& (old(rw)@.wf() ==> final(rw)@.wf())
            }),
    {
        let id = self.req_id.unwrap();
        let held = match rw.queue.holder() {
            Some(h) => h == id,
            None => false,
        };
        if !held || rw.data.is_none() {
            // The grant link was severed behind this request's back.
            self.resolved = true;
            return Err(Error::ChannelClosed);
        }
        match self.command_event {
            None => {
                // A failed resolution must not leave the slot held.
                self.resolved = true;
                let _ = rw.queue.release();
                rw.queue.advance();
                Err(Error::MissingCommandSignal)
            },
            Some(command_event) => {
                match command_event.is_complete(ctx) {
                    Err(e) => {
                        self.resolved = true;
                        let _ = rw.queue.release();
                        rw.queue.advance();
                        Err(e)
                    },
                    Ok(false) => {
                        command_event.set_unpark_callback(ctx);
                        Ok(PollState::NotReady)
                    },
                    Ok(true) => {
                        let vec = rw.data.take().unwrap();
                        self.resolved = true;
                        Ok(PollState::Ready(RwGuard { vec }))
                    },
                }
            },
        }
    }

    /// Abandons the request: the model of dropping it before resolution.
    /// If the request already won the grant, the slot is released and the
    /// queue advanced so the next waiter is granted; if it was still
    /// waiting, it withdraws from the queue; otherwise nothing is held and
    /// nothing needs releasing.
    pub fn cancel<T>(self, rw: &mut RwVec<T>)
        ensures
            final(rw)@.buf == old(rw)@.buf,
            final(rw)@.len == old(rw)@.len,
            ({
                let q = old(rw)@.queue;
                if self@.resolved || self@.req_id is None {
                    final(rw)@.queue == q
                } else if q.holder == Some(self@.req_id->Some_0) {
                    final(rw)@.queue == q.freed().advanced()
                } else {
                    final(rw)@.queue == q.withdrawn(self@.req_id->Some_0)
                }
            }),
            old(rw)@.wf() ==> final(rw)@.queue.wf(),
            old(rw)@.wf() && old(rw)@.buf is Some ==> final(rw)@.wf(),
    {
        if self.resolved {
            return;
        }
        let id = match self.req_id {
            Some(id) => id,
            None => {
                return;
            },
        };
        let held = match rw.queue.holder() {
            Some(h) => h == id,
            None => false,
        };
        if held {
            let _ = rw.queue.release();
            rw.queue.advance();
        } else {
            rw.queue.withdraw(id);
        }
    }

    /// Drives the request to terminal resolution in one call, returning
    /// the guard on success and surfacing the same error a poll would. In
    /// this sequential model every possible step of progress happens
    /// inside a single poll, so the precondition asks only that the
    /// request terminates now — with a guard or with an error — rather
    /// than parking forever on a signal nothing here can complete.
    pub fn wait<T>(self, rw: &mut RwVec<T>, ctx: &mut Context) -> (r: Result<RwGuard<T>, Error>)
        requires
            pending_wf(self@, old(ctx)@),
            !self@.resolved && self@.stage is Marker ==> old(rw)@.queue.can_enqueue(),
            poll_step(self@, old(rw)@.queue, old(rw)@.buf is Some, old(ctx)@).resolves || poll_step(
                self@,
                old(rw)@.queue,
                old(rw)@.buf is Some,
                old(ctx)@,
            ).error is Some,
        ensures
            ({
                let s = poll_step(self@, old(rw)@.queue, old(rw)@.buf is Some, old(ctx)@);
                &&& final(rw)@.queue == s.queue
                &&& final(ctx)@ == s.ctx
                &&& final(rw)@.len == old(rw)@.len
                &&& (s.resolves ==> final(rw)@.buf is None && (r matches Ok(g) && g@ == old(
                    rw,
                )@.buf->Some_0))
                &&& (!s.resolves ==> final(rw)@.buf == old(rw)@.buf)
                &&& (s.error matches Some(e) ==> r == Err::<RwGuard<T>, Error>(e))
                &&& (old(rw)@.wf() ==> final(rw)@.wf())
            }),
    {
        let mut pending = self;
        match pending.poll(rw, ctx) {
            Ok(PollState::Ready(guard)) => Ok(guard),
            Ok(PollState::NotReady) => {
                // Excluded by the precondition: the step neither resolved
                // nor surfaced an error.
                Err(Error::ChannelClosed)
            },
            Err(e) => Err(e),
        }
    }
}

/// Mutual exclusion: while a guard is live (the buffer is absent from the
/// lock), no poll of any request over the same queue can resolve, whatever
/// its state; a second guard is impossible.
pub proof fn lemma_mutual_exclusion(p: PendingView, q: QueueView, ctx: Seq<EventState>)
    ensures
        !poll_step(p, q, false, ctx).resolves,
{
}

/// A request blocked on its input signal stays blocked indefinitely: as
/// long as the signal is neither complete nor faulted, a poll step reports
/// no resolution and no error, registers the wakeup, and changes nothing
/// else — the request stays in the marker stage and consumes no queue
/// slot. The state after the step satisfies these hypotheses again, so by
/// induction every number of further polls behaves the same until the
/// signal completes (or faults) out of band.
pub proof fn lemma_marker_blocked_indefinitely(
    p: PendingView,
    q: QueueView,
    has_buf: bool,
    ctx: Seq<EventState>,
)
    requires
        !p.resolved,
        p.stage is Marker,
        p.wait is Some,
        0 <= p.wait->Some_0 < ctx.len(),
        !ctx[p.wait->Some_0].broken,
        !ctx[p.wait->Some_0].complete,
    ensures
        ({
            let s = poll_step(p, q, has_buf, ctx);
            &&& s.pending == p
            &&& s.queue == q
            &&& !s.resolves
            &&& s.error is None
            &&& s.ctx == ctx.update(
                p.wait->Some_0,
                EventState { callback: true, ..ctx[p.wait->Some_0] },
            )
            &&& !s.ctx[p.wait->Some_0].broken
            &&& !s.ctx[p.wait->Some_0].complete
        }),
{
}

/// Trigger causality: a coherent request's trigger signal is complete
/// exactly when the qutex stage has been passed, and is never complete
/// during the marker stage.
pub proof fn lemma_trigger_causality(p: PendingView, ctx: Seq<EventState>)
    requires
        pending_wf(p, ctx),
    ensures
        ctx[p.trigger].complete <==> p.stage is Command,
        p.stage is Marker ==> !ctx[p.trigger].complete,
{
}

} // verus!

