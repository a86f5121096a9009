//! The decisions of the offload bridge, stated as functions from outcome to
//! outcome. A worker thread acquires a resource, runs the unit of work, and
//! sends what `complete` computes into the completion channel; the future
//! side polls the channel and returns what `resolve_poll` computes. The
//! thread and channel plumbing that produces these inputs lives outside the
//! verified core and hands every outcome, whatever it is, to these functions.

use crate::error::AsyncError;
use vstd::prelude::*;

verus! {

/// What is done to a resource's open transaction once the caller's closure
/// has returned: commit its effects or roll them back.
#[derive(Clone, Copy, Debug, PartialEq, Eq, Structural)]
pub enum TxAction {
    Commit,
    Rollback,
}

/// The action taken on a transaction whose body returned `r`.
pub open spec fn spec_transaction_action<R, E>(r: Result<R, E>) -> TxAction {
    match r {
        Ok(_) => TxAction::Commit,
        Err(_) => TxAction::Rollback,
    }
}

/// A transaction commits exactly when the caller's closure returns `Ok`,
/// and rolls back exactly when it returns `Err`.
pub fn transaction_action<R, E>(r: &Result<R, E>) -> (action: TxAction)
    ensures
        action == spec_transaction_action(*r),
        action is Commit <==> *r is Ok,
{
    match r {
        Ok(_) => TxAction::Commit,
        Err(_) => TxAction::Rollback,
    }
}

/// One worker-side step of a dispatched unit of work: either the pool
/// handed out a resource and the unit ran to a domain result, or the pool
/// failed before any work could run.
pub type UnitStep<R, E> = Result<Result<R, E>, r2d2::Error>;

/// The value the worker sends into the completion channel for a step.
pub open spec fn spec_complete<R, E>(step: UnitStep<R, E>) -> Result<R, AsyncError<E>> {
    match step {
        Ok(Ok(v)) => Ok(v),
        Ok(Err(e)) => Err(AsyncError::Execute(e)),
        Err(p) => Err(AsyncError::Timeout(p)),
    }
}

/// Maps a worker-side step to the value sent into the completion channel:
/// a domain success is passed through unchanged, a domain failure becomes
/// `Execute`, and an acquisition failure becomes `Timeout`. No step is
/// swallowed and no step is retried.
pub fn complete<R, E>(step: UnitStep<R, E>) -> (sent: Result<R, AsyncError<E>>)
    ensures
        sent == spec_complete(step),
{
    match step {
        Ok(Ok(v)) => Ok(v),
        Ok(Err(e)) => Err(AsyncError::Execute(e)),
        Err(p) => Err(AsyncError::Timeout(p)),
    }
}

/// What one poll of the completion channel's consumer half observed.
pub enum ChannelPoll<T> {
    /// The producer has neither sent nor been dropped yet.
    Pending,
    /// The producer sent this value.
    Received(T),
    /// The producer was dropped without sending.
    Dropped,
}

/// What one poll of the offload future returns to the async scheduler.
pub enum PollOutcome<T> {
    /// Stay suspended; the channel will wake the task later.
    Pending,
    /// The future resolves, once, to this value.
    Ready(T),
}

/// The poll result of the offload future, given what the channel poll
/// observed.
pub open spec fn spec_resolve_poll<R, E>(
    observed: ChannelPoll<Result<R, AsyncError<E>>>,
) -> PollOutcome<Result<R, AsyncError<E>>> {
    match observed {
        ChannelPoll::Pending => PollOutcome::Pending,
        ChannelPoll::Received(sent) => PollOutcome::Ready(sent),
        ChannelPoll::Dropped => PollOutcome::Ready(Err(AsyncError::Canceled)),
    }
}

/// Maps what the channel poll observed to what the offload future returns:
/// a sent value resolves the future to exactly that value, an abandoned
/// channel resolves it to `Canceled`, and only a still-silent channel
/// leaves it pending.
pub fn resolve_poll<R, E>(
    observed: ChannelPoll<Result<R, AsyncError<E>>>,
) -> (polled: PollOutcome<Result<R, AsyncError<E>>>)
    ensures
        polled == spec_resolve_poll(observed),
        polled is Pending <==> observed is Pending,
{
    match observed {
        ChannelPoll::Pending => PollOutcome::Pending,
        ChannelPoll::Received(sent) => PollOutcome::Ready(sent),
        ChannelPoll::Dropped => PollOutcome::Ready(Err(AsyncError::Canceled)),
    }
}

/// Once the channel has settled — the producer sent or was dropped — the
/// future resolves, and to exactly one value, determined by what the
/// channel carried; while the channel is silent the future stays pending.
/// That `spec_resolve_poll` is a function of the observation alone is what
/// makes the resolution unique: two polls of a settled channel cannot be
/// mapped to two different `Ready` values.
pub proof fn lemma_resolves_once<R, E>(observed: ChannelPoll<Result<R, AsyncError<E>>>)
    ensures
        observed is Pending <==> spec_resolve_poll(observed) is Pending,
        !(observed is Pending) ==> spec_resolve_poll(observed) is Ready,
{
}

/// A unit of work that returns `Ok(v)` reaches the caller as `Ready(Ok(v))`,
/// the value unchanged: sent by the worker as `Ok(v)` and resolved by the
/// future as exactly that.
pub proof fn lemma_ok_delivered_unchanged<R, E>(v: R)
    ensures
        spec_resolve_poll(ChannelPoll::Received(spec_complete::<R, E>(Ok(Ok(v)))))
            == PollOutcome::<Result<R, AsyncError<E>>>::Ready(Ok(v)),
{
}

/// A unit of work that returns `Err(e)` reaches the caller as
/// `Ready(Err(Execute(e)))`, the domain error unchanged inside the tag.
pub proof fn lemma_err_delivered_as_execute<R, E>(e: E)
    ensures
        spec_resolve_poll(ChannelPoll::Received(spec_complete::<R, E>(Ok(Err(e)))))
            == PollOutcome::<Result<R, AsyncError<E>>>::Ready(Err(AsyncError::Execute(e))),
{
}

/// A step on which the pool failed to produce a resource reaches the caller
/// as `Timeout`, never as `Execute`: an acquisition failure — a rejecting
/// on-acquire hook included — is always distinguishable from a failure of
/// the work itself.
pub proof fn lemma_acquisition_failure_is_timeout<R, E>(p: r2d2::Error)
    ensures
        spec_complete::<R, E>(Err(p)) == Err::<R, AsyncError<E>>(AsyncError::Timeout(p)),
        !(spec_complete::<R, E>(Err(p))->Err_0 is Execute),
        spec_resolve_poll(ChannelPoll::Received(spec_complete::<R, E>(Err(p))))
            == PollOutcome::<Result<R, AsyncError<E>>>::Ready(Err(AsyncError::Timeout(p))),
{
}

/// A producer dropped without sending — a worker that panicked, a pool that
/// shut down — reaches the caller as `Canceled`, never as a domain failure.
pub proof fn lemma_abandonment_is_canceled<R, E>()
    ensures
        spec_resolve_poll(ChannelPoll::<Result<R, AsyncError<E>>>::Dropped)
            == PollOutcome::<Result<R, AsyncError<E>>>::Ready(Err(AsyncError::Canceled)),
{
}

} // verus!
