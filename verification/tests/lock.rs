//! The pending-access state machine end to end: resolution, fairness,
//! cancellation, and every error path.

use ocl::error::Error;
use ocl::event::{Context, Event};
use ocl::rw_vec::{PollState, RwGuard, RwVec, Stage};

fn ready(r: Result<PollState<RwGuard<u8>>, Error>) -> RwGuard<u8> {
    match r {
        Ok(PollState::Ready(g)) => g,
        Ok(PollState::NotReady) => panic!("expected resolution, got NotReady"),
        Err(e) => panic!("expected resolution, got error {:?}", e),
    }
}

fn not_ready(r: Result<PollState<RwGuard<u8>>, Error>) {
    match r {
        Ok(PollState::NotReady) => {}
        Ok(PollState::Ready(_)) => panic!("expected NotReady, got Ready"),
        Err(e) => panic!("expected NotReady, got error {:?}", e),
    }
}

fn fails_with(r: Result<PollState<RwGuard<u8>>, Error>, expected: Error) {
    match r {
        Err(e) => assert_eq!(e, expected),
        Ok(PollState::NotReady) => panic!("expected {:?}, got NotReady", expected),
        Ok(PollState::Ready(_)) => panic!("expected {:?}, got Ready", expected),
    }
}

#[test]
fn request_resolves_and_guard_releases() {
    let mut ctx = Context::new();
    let mut rw = RwVec::from_vec(vec![1u8, 2, 3]);
    assert_eq!(rw.len(), 3);

    let mut p = rw.lock_pending_event(&mut ctx, None);
    assert_eq!(p.len(), 3);
    // No input signal: the request took its queue position at creation.
    assert_eq!(p.stage(), Stage::Qutex);
    assert_eq!(rw.queue().waiter_count(), 1);

    let cmd = Event::user(&mut ctx);
    cmd.set_complete(&mut ctx).unwrap();
    p.set_command_event(cmd);

    let mut g = ready(p.poll(&mut rw, &mut ctx));
    assert!(!rw.has_buf());
    assert_eq!(g.as_vec().as_slice(), &[1, 2, 3]);
    g.as_mut_vec().push(4);

    g.release(&mut rw);
    assert!(rw.has_buf());
    assert_eq!(rw.len(), 4);
    assert_eq!(rw.queue().holder(), None);
}

#[test]
fn fifo_three_requests_resolve_in_creation_order() {
    // Three requests issued in order, no wait-signals, every command
    // signal already complete; the later two are polled before the first.
    // Resolution must still come in creation order.
    let mut ctx = Context::new();
    let mut rw = RwVec::from_vec(vec![0u8]);

    let mut r1 = rw.lock_pending_event(&mut ctx, None);
    let mut r2 = rw.lock_pending_event(&mut ctx, None);
    let mut r3 = rw.lock_pending_event(&mut ctx, None);
    assert_eq!(rw.queue().waiter_count(), 3);
    let c1 = Event::user(&mut ctx);
    let c2 = Event::user(&mut ctx);
    let c3 = Event::user(&mut ctx);
    c1.set_complete(&mut ctx).unwrap();
    c2.set_complete(&mut ctx).unwrap();
    c3.set_complete(&mut ctx).unwrap();
    r1.set_command_event(c1);
    r2.set_command_event(c2);
    r3.set_command_event(c3);

    // The later requests are fully ready, yet polling them first must not
    // let them jump ahead of r1.
    not_ready(r2.poll(&mut rw, &mut ctx));
    not_ready(r3.poll(&mut rw, &mut ctx));
    not_ready(r3.poll(&mut rw, &mut ctx));

    let g1 = ready(r1.poll(&mut rw, &mut ctx));
    not_ready(r3.poll(&mut rw, &mut ctx));
    g1.release(&mut rw);

    not_ready(r3.poll(&mut rw, &mut ctx));
    let g2 = ready(r2.poll(&mut rw, &mut ctx));
    g2.release(&mut rw);

    let g3 = ready(r3.poll(&mut rw, &mut ctx));
    g3.release(&mut rw);
}

#[test]
fn pending_wait_signal_consumes_no_queue_slot() {
    // A request whose wait-signal never completes stays NotReady and never
    // enters the queue.
    let mut ctx = Context::new();
    let mut rw = RwVec::from_vec(vec![0u8]);
    let wait = Event::external(&mut ctx);
    let mut p = rw.lock_pending_event(&mut ctx, Some(wait));

    for _ in 0..3 {
        not_ready(p.poll(&mut rw, &mut ctx));
        assert_eq!(p.stage(), Stage::Marker);
        assert_eq!(rw.queue().waiter_count(), 0);
        assert_eq!(rw.queue().holder(), None);
    }
    // The request suspended by registering a wakeup with the signal.
    assert!(ctx.get(wait.index()).callback);
}

#[test]
fn wait_signal_completion_lets_the_request_proceed() {
    let mut ctx = Context::new();
    let mut rw = RwVec::from_vec(vec![9u8]);
    let wait = Event::external(&mut ctx);
    let mut p = rw.lock_pending_event(&mut ctx, Some(wait));
    let cmd = Event::user(&mut ctx);
    cmd.set_complete(&mut ctx).unwrap();
    p.set_command_event(cmd);

    not_ready(p.poll(&mut rw, &mut ctx));
    ctx.device_complete(&wait);
    let g = ready(p.poll(&mut rw, &mut ctx));
    assert_eq!(g.as_vec().as_slice(), &[9]);
    g.release(&mut rw);
}

#[test]
fn dropping_a_granted_pending_unblocks_the_next_waiter() {
    // R1 wins the grant but is dropped before resolving; the next queued
    // request must be granted within one advance (cancel performs it).
    let mut ctx = Context::new();
    let mut rw = RwVec::from_vec(vec![0u8]);

    let mut r1 = rw.lock_pending_event(&mut ctx, None);
    let mut r2 = rw.lock_pending_event(&mut ctx, None);
    let c1 = Event::user(&mut ctx);
    let c2 = Event::user(&mut ctx);
    r1.set_command_event(c1);
    r2.set_command_event(c2);

    not_ready(r1.poll(&mut rw, &mut ctx)); // granted, command pending
    not_ready(r2.poll(&mut rw, &mut ctx)); // queued behind r1
    assert_eq!(rw.queue().holder(), Some(0));

    r1.cancel(&mut rw);
    assert_eq!(rw.queue().holder(), Some(1));

    c2.set_complete(&mut ctx).unwrap();
    let g2 = ready(r2.poll(&mut rw, &mut ctx));
    g2.release(&mut rw);
}

#[test]
fn cancelling_a_waiting_pending_withdraws_it() {
    let mut ctx = Context::new();
    let mut rw = RwVec::from_vec(vec![0u8]);
    let mut r1 = rw.lock_pending_event(&mut ctx, None);
    let mut r2 = rw.lock_pending_event(&mut ctx, None);
    let c1 = Event::user(&mut ctx);
    r1.set_command_event(c1);

    not_ready(r1.poll(&mut rw, &mut ctx)); // holds the grant
    not_ready(r2.poll(&mut rw, &mut ctx)); // waiting
    assert_eq!(rw.queue().waiter_count(), 1);

    r2.cancel(&mut rw);
    assert_eq!(rw.queue().waiter_count(), 0);
    assert_eq!(rw.queue().holder(), Some(0));
}

#[test]
fn cancelling_an_unqueued_pending_changes_nothing() {
    let mut ctx = Context::new();
    let mut rw = RwVec::from_vec(vec![0u8]);
    let wait = Event::external(&mut ctx);
    let mut p = rw.lock_pending_event(&mut ctx, Some(wait));
    not_ready(p.poll(&mut rw, &mut ctx)); // still in the marker stage
    p.cancel(&mut rw);
    assert_eq!(rw.queue().waiter_count(), 0);
    assert_eq!(rw.queue().holder(), None);
    assert!(rw.has_buf());
}

#[test]
fn mutual_exclusion_while_a_guard_is_live() {
    let mut ctx = Context::new();
    let mut rw = RwVec::from_vec(vec![0u8]);

    let mut r1 = rw.lock_pending_event(&mut ctx, None);
    let c1 = Event::user(&mut ctx);
    c1.set_complete(&mut ctx).unwrap();
    r1.set_command_event(c1);
    let g1 = ready(r1.poll(&mut rw, &mut ctx));

    // A second, fully ready request cannot resolve while g1 lives.
    let mut r2 = rw.lock_pending_event(&mut ctx, None);
    let c2 = Event::user(&mut ctx);
    c2.set_complete(&mut ctx).unwrap();
    r2.set_command_event(c2);
    not_ready(r2.poll(&mut rw, &mut ctx));
    not_ready(r2.poll(&mut rw, &mut ctx));

    g1.release(&mut rw);
    let g2 = ready(r2.poll(&mut rw, &mut ctx));
    g2.release(&mut rw);
}

#[test]
fn trigger_fires_exactly_at_the_grant() {
    let mut ctx = Context::new();
    let mut rw = RwVec::from_vec(vec![0u8]);
    let wait = Event::external(&mut ctx);
    let mut p = rw.lock_pending_event(&mut ctx, Some(wait));
    let trigger = *p.trigger_event();
    let cmd = Event::user(&mut ctx);
    p.set_command_event(cmd);

    // Never complete during the marker stage.
    assert_eq!(trigger.is_complete(&ctx), Ok(false));
    not_ready(p.poll(&mut rw, &mut ctx));
    assert_eq!(trigger.is_complete(&ctx), Ok(false));

    // The grant is won in this poll: the trigger completes even though the
    // command stage still suspends.
    ctx.device_complete(&wait);
    not_ready(p.poll(&mut rw, &mut ctx));
    assert_eq!(p.stage(), Stage::Command);
    assert_eq!(trigger.is_complete(&ctx), Ok(true));
}

#[test]
fn polling_after_resolution_is_a_distinct_error() {
    let mut ctx = Context::new();
    let mut rw = RwVec::from_vec(vec![0u8]);
    let mut p = rw.lock_pending_event(&mut ctx, None);
    let cmd = Event::user(&mut ctx);
    cmd.set_complete(&mut ctx).unwrap();
    p.set_command_event(cmd);
    let g = ready(p.poll(&mut rw, &mut ctx));
    assert!(p.is_resolved());
    fails_with(p.poll(&mut rw, &mut ctx), Error::AlreadyResolved);
    g.release(&mut rw);
}

#[test]
fn missing_command_signal_fails_and_releases_the_slot() {
    let mut ctx = Context::new();
    let mut rw = RwVec::from_vec(vec![0u8]);
    let mut r1 = rw.lock_pending_event(&mut ctx, None);
    let mut r2 = rw.lock_pending_event(&mut ctx, None);
    let c2 = Event::user(&mut ctx);
    c2.set_complete(&mut ctx).unwrap();
    r2.set_command_event(c2);

    // r1 wins the grant and reaches the command stage with no command
    // signal attached: an immediate configuration error, and the slot is
    // released again before it propagates — straight to r2, which was
    // already queued behind it.
    fails_with(r1.poll(&mut rw, &mut ctx), Error::MissingCommandSignal);
    assert!(r1.is_resolved());
    assert_eq!(rw.queue().holder(), Some(1));
    assert!(rw.has_buf());

    // Forward progress is preserved for other requests.
    let g2 = ready(r2.poll(&mut rw, &mut ctx));
    g2.release(&mut rw);
}

#[test]
fn query_failure_on_the_wait_signal_surfaces() {
    let mut ctx = Context::new();
    let mut rw = RwVec::from_vec(vec![0u8]);
    let wait = Event::external(&mut ctx);
    ctx.poison(&wait);
    let mut p = rw.lock_pending_event(&mut ctx, Some(wait));
    fails_with(p.poll(&mut rw, &mut ctx), Error::SignalQueryFailure);
    assert!(p.is_resolved());
    // The request never reached the queue; the buffer is untouched.
    assert_eq!(rw.queue().waiter_count(), 0);
    assert!(rw.has_buf());
}

#[test]
fn query_failure_on_the_command_signal_releases_the_slot() {
    let mut ctx = Context::new();
    let mut rw = RwVec::from_vec(vec![0u8]);
    let mut r1 = rw.lock_pending_event(&mut ctx, None);
    let mut r2 = rw.lock_pending_event(&mut ctx, None);
    let c1 = Event::user(&mut ctx);
    let c2 = Event::user(&mut ctx);
    ctx.poison(&c1);
    c2.set_complete(&mut ctx).unwrap();
    r1.set_command_event(c1);
    r2.set_command_event(c2);

    fails_with(r1.poll(&mut rw, &mut ctx), Error::SignalQueryFailure);
    assert!(rw.has_buf());
    // The slot was released before the error propagated: one poll of the
    // next waiter resolves it.
    let g2 = ready(r2.poll(&mut rw, &mut ctx));
    g2.release(&mut rw);
}

#[test]
fn severed_grant_surfaces_as_channel_closed() {
    let mut ctx = Context::new();
    let mut rw = RwVec::from_vec(vec![0u8]);
    let mut p = rw.lock_pending_event(&mut ctx, None);
    let cmd = Event::user(&mut ctx);
    p.set_command_event(cmd);
    not_ready(p.poll(&mut rw, &mut ctx)); // granted, command pending
    // Someone releases the lock behind the request's back.
    assert_eq!(rw.unlock(), Ok(()));
    fails_with(p.poll(&mut rw, &mut ctx), Error::ChannelClosed);
}

#[test]
fn release_without_hold_is_reported() {
    let mut rw = RwVec::<u8>::new();
    assert_eq!(rw.unlock(), Err(Error::ReleaseWithoutHold));
}

#[test]
fn wait_resolves_a_ready_request_in_one_call() {
    let mut ctx = Context::new();
    let mut rw = RwVec::from_vec(vec![5u8, 6]);
    let mut p = rw.lock_pending_event(&mut ctx, None);
    let cmd = Event::user(&mut ctx);
    cmd.set_complete(&mut ctx).unwrap();
    p.set_command_event(cmd);
    let g = p.wait(&mut rw, &mut ctx).unwrap();
    assert_eq!(g.as_vec().as_slice(), &[5, 6]);
    g.release(&mut rw);
}

#[test]
fn process_queue_probes_idempotently() {
    let mut ctx = Context::new();
    let mut rw = RwVec::from_vec(vec![0u8]);
    let mut r1 = rw.lock_pending_event(&mut ctx, None);
    let mut r2 = rw.lock_pending_event(&mut ctx, None);
    let c1 = Event::user(&mut ctx);
    let c2 = Event::user(&mut ctx);
    c2.set_complete(&mut ctx).unwrap();
    r1.set_command_event(c1);
    r2.set_command_event(c2);

    not_ready(r1.poll(&mut rw, &mut ctx)); // r1 holds, command pending
    not_ready(r2.poll(&mut rw, &mut ctx)); // r2 queued

    // The slot is released behind r1's back; driving the queue forward
    // grants r2, and doing so again changes nothing.
    rw.unlock().unwrap();
    rw.process_queue();
    assert_eq!(rw.queue().holder(), Some(1));
    rw.process_queue();
    assert_eq!(rw.queue().holder(), Some(1));
    assert_eq!(rw.queue().waiter_count(), 0);

    fails_with(r1.poll(&mut rw, &mut ctx), Error::ChannelClosed);
    let g2 = ready(r2.poll(&mut rw, &mut ctx));
    g2.release(&mut rw);
}

#[test]
fn request_captures_the_observed_buffer_length() {
    let mut ctx = Context::new();
    let mut rw = RwVec::from_vec(vec![1u8, 2]);
    let mut r1 = rw.lock_pending_event(&mut ctx, None);
    assert_eq!(r1.len(), 2);
    let c1 = Event::user(&mut ctx);
    c1.set_complete(&mut ctx).unwrap();
    r1.set_command_event(c1);
    let mut g = ready(r1.poll(&mut rw, &mut ctx));
    g.as_mut_vec().push(3);

    // While the guard is out, a new request sees the length the lock last
    // observed; once the guard returns, the length is exact again.
    let r2 = rw.lock_pending_event(&mut ctx, None);
    assert_eq!(r2.len(), 2);
    g.release(&mut rw);
    assert_eq!(rw.len(), 3);
    let r3 = rw.lock_pending_event(&mut ctx, None);
    assert_eq!(r3.len(), 3);
    r2.cancel(&mut rw);
    r3.cancel(&mut rw);
}

#[test]
fn wait_surfaces_the_error_a_poll_would() {
    // A request whose drive would end in an error: wait returns that same
    // error instead of a guard.
    let mut ctx = Context::new();
    let mut rw = RwVec::from_vec(vec![0u8]);
    let r1 = rw.lock_pending_event(&mut ctx, None);
    match r1.wait(&mut rw, &mut ctx) {
        Err(e) => assert_eq!(e, Error::MissingCommandSignal),
        Ok(_) => panic!("expected an error from wait"),
    }
    // The failed resolution released the slot and left the buffer alone.
    assert_eq!(rw.queue().holder(), None);
    assert!(rw.has_buf());
}
