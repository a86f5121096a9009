//! Configuration of the resource pool: a record of optional settings filled
//! in by set-once-or-overwrite setters, and the plan that `open` derives
//! from it — exactly the explicitly set fields are applied to the backing
//! pool, and a lifecycle-hook adapter is installed exactly when at least
//! one hook was registered. The hook closures themselves are opaque
//! callables held outside the verified core; what is verified here is which
//! settings reach the pool and what the adapter answers when a hook is
//! absent.

use core::time::Duration;
use vstd::prelude::*;

verus! {

/// Accumulates the optional pool settings. A field left `None` was never
/// set and the backing pool's own default applies; `pool_min_idle` and
/// `pool_max_lifetime` distinguish "never set" (outer `None`) from
/// "explicitly set to none" (inner `None`).
pub struct Builder {
    pub pool_max_size: Option<u32>,
    pub pool_min_idle: Option<Option<u32>>,
    pub pool_max_lifetime: Option<Option<Duration>>,
}

/// The settings that `open` applies to the backing pool, together with
/// whether a lifecycle-hook adapter must be installed.
pub struct PoolPlan {
    pub max_size: Option<u32>,
    pub min_idle: Option<Option<u32>>,
    pub max_lifetime: Option<Option<Duration>>,
    pub install_hook_adapter: bool,
}

/// The builder `b` with its maximum pool size set to `n`.
pub open spec fn spec_with_max_size(b: Builder, n: u32) -> Builder {
    Builder { pool_max_size: Some(n), ..b }
}

/// The builder `b` with its minimum idle count set to `n`.
pub open spec fn spec_with_min_idle(b: Builder, n: Option<u32>) -> Builder {
    Builder { pool_min_idle: Some(n), ..b }
}

/// The builder `b` with its maximum resource lifetime set to `d`.
pub open spec fn spec_with_max_lifetime(b: Builder, d: Option<Duration>) -> Builder {
    Builder { pool_max_lifetime: Some(d), ..b }
}

/// Each setter overwrites: setting a field twice leaves the builder as if
/// only the second write had happened.
pub proof fn lemma_last_write_wins(
    b: Builder,
    first_size: u32,
    second_size: u32,
    first_idle: Option<u32>,
    second_idle: Option<u32>,
    first_lifetime: Option<Duration>,
    second_lifetime: Option<Duration>,
)
    ensures
        spec_with_max_size(spec_with_max_size(b, first_size), second_size)
            == spec_with_max_size(b, second_size),
        spec_with_min_idle(spec_with_min_idle(b, first_idle), second_idle)
            == spec_with_min_idle(b, second_idle),
        spec_with_max_lifetime(spec_with_max_lifetime(b, first_lifetime), second_lifetime)
            == spec_with_max_lifetime(b, second_lifetime),
{
}

impl Builder {
    /// A builder with nothing set: every pool setting falls back to the
    /// backing pool's default and no hook adapter is installed.
    pub fn new() -> (b: Builder)
        ensures
            b.pool_max_size is None,
            b.pool_min_idle is None,
            b.pool_max_lifetime is None,
    {
        Builder { pool_max_size: None, pool_min_idle: None, pool_max_lifetime: None }
    }

    /// Sets the pool's maximum size; a later call overwrites an earlier
    /// one, and the other settings are untouched.
    pub fn pool_max_size(&mut self, max_size: u32)
        ensures
            *final(self) == spec_with_max_size(*old(self), max_size),
            final(self).pool_max_size == Some(max_size),
            final(self).pool_min_idle == old(self).pool_min_idle,
            final(self).pool_max_lifetime == old(self).pool_max_lifetime,
    {
        self.pool_max_size = Some(max_size);
    }

    /// Sets the pool's minimum idle count; a later call overwrites an
    /// earlier one, and the other settings are untouched.
    pub fn pool_min_idle(&mut self, min_idle: Option<u32>)
        ensures
            *final(self) == spec_with_min_idle(*old(self), min_idle),
            final(self).pool_min_idle == Some(min_idle),
            final(self).pool_max_size == old(self).pool_max_size,
            final(self).pool_max_lifetime == old(self).pool_max_lifetime,
    {
        self.pool_min_idle = Some(min_idle);
    }

    /// Sets the pool's maximum resource lifetime; a later call overwrites
    /// an earlier one, and the other settings are untouched.
    pub fn pool_max_lifetime(&mut self, max_lifetime: Option<Duration>)
        ensures
            *final(self) == spec_with_max_lifetime(*old(self), max_lifetime),
            final(self).pool_max_lifetime == Some(max_lifetime),
            final(self).pool_max_size == old(self).pool_max_size,
            final(self).pool_min_idle == old(self).pool_min_idle,
    {
        self.pool_max_lifetime = Some(max_lifetime);
    }

    /// The plan that `open` follows for this builder: each setting is
    /// applied exactly as it stands here — set fields with their last
    /// written value, unset fields left to the pool's defaults — and the
    /// lifecycle-hook adapter is installed exactly when an on-acquire or
    /// an on-release hook was registered.
    pub fn open_plan(&self, has_acquire_hook: bool, has_release_hook: bool) -> (plan: PoolPlan)
        ensures
            plan.max_size == self.pool_max_size,
            plan.min_idle == self.pool_min_idle,
            plan.max_lifetime == self.pool_max_lifetime,
            plan.install_hook_adapter == (has_acquire_hook || has_release_hook),
    {
        PoolPlan {
            max_size: self.pool_max_size,
            min_idle: self.pool_min_idle,
            max_lifetime: self.pool_max_lifetime,
            install_hook_adapter: has_acquire_hook || has_release_hook,
        }
    }
}

/// What the lifecycle-hook adapter answers when a resource is handed out:
/// the registered on-acquire hook's own verdict where one was called, and
/// acceptance where none was registered. A hook that rejects therefore
/// turns the hand-out into an acquisition failure, and an absent hook
/// never rejects a resource.
pub fn acquire_hook_verdict<E>(outcome: Option<Result<(), E>>) -> (verdict: Result<(), E>)
    ensures
        outcome is None ==> verdict == Ok::<(), E>(()),
        outcome matches Some(r) ==> verdict == r,
{
    match outcome {
        None => Ok(()),
        Some(r) => r,
    }
}

} // verus!
