//! Error kinds surfaced by the lock and by the signal registry.

use vstd::prelude::*;

verus! {

/// Everything that can go wrong while driving a pending access request,
/// querying a completion signal, or manipulating the exclusion queue.
///
/// None of these are retried internally; each is surfaced to the caller.
#[derive(Clone, Copy, Debug, PartialEq, Eq, Structural)]
pub enum Error {
    /// Querying an external completion state failed: the underlying device
    /// channel is presumed broken.
    SignalQueryFailure,
    /// The command stage was reached with no command signal attached: a
    /// caller contract violation, fatal to that request.
    MissingCommandSignal,
    /// Progress was requested after terminal resolution: fatal to that call
    /// only.
    AlreadyResolved,
    /// The grant notification was severed without firing (the request is
    /// neither queued nor the holder): surfaced as a lock-acquisition
    /// failure.
    ChannelClosed,
    /// Release was called while the resource was not held: a logic error
    /// indicating corrupted invariants at the caller.
    ReleaseWithoutHold,
    /// A completion signal that is not host-triggerable was asked to force
    /// itself complete.
    SignalNotTriggerable,
}

} // verus!
