//! The unified error taxonomy of the bridge: one tagged union that tells a
//! caller whether a resource could not be acquired, the work itself failed,
//! or the worker abandoned the completion channel without sending.

use vstd::prelude::*;

verus! {

/// Declares `r2d2::Error`, the pool's acquisition error, so that values of
/// it can be carried through the bridge untouched; nothing inside it is
/// read here.
#[verifier::external_type_specification]
#[verifier::external_body]
pub struct ExPoolError(r2d2::Error);

/// Declares `futures_channel::oneshot::Canceled`, the completion channel's
/// abandonment witness — the producer half was dropped without sending —
/// so that the bridge can convert it into its own error taxonomy.
#[verifier::external_type_specification]
#[verifier::external_body]
pub struct ExCanceled(futures_channel::oneshot::Canceled);

/// Why a dispatched unit of work did not produce a value.
pub enum AsyncError<E> {
    /// The resource pool could not produce a resource before giving up.
    Timeout(r2d2::Error),
    /// The unit of work ran against a live resource and returned this
    /// domain error.
    Execute(E),
    /// The completion channel's producer was dropped without sending:
    /// the worker died or the pool shut down before a result existed.
    Canceled,
}

impl<E> AsyncError<E> {
    /// A fixed message for each variant, so that a log line can tell pool
    /// exhaustion from a domain failure from abandonment. The three
    /// messages are pairwise distinct (`lemma_messages_distinct`).
    pub fn describe(&self) -> (msg: &'static str)
        ensures
            *self is Timeout ==> msg@ == timeout_message(),
            *self is Execute ==> msg@ == execute_message(),
            *self is Canceled ==> msg@ == canceled_message(),
    {
        match self {
            AsyncError::Timeout(_) => "timed out acquiring a pooled resource",
            AsyncError::Execute(_) => "the operation failed against a live resource",
            AsyncError::Canceled => "Canceled error",
        }
    }
}

/// The message reported for an acquisition failure.
pub open spec fn timeout_message() -> Seq<char> {
    "timed out acquiring a pooled resource"@
}

/// The message reported for a domain failure.
pub open spec fn execute_message() -> Seq<char> {
    "the operation failed against a live resource"@
}

/// The message reported for an abandoned completion channel.
pub open spec fn canceled_message() -> Seq<char> {
    "Canceled error"@
}

/// The three variants render three different messages: a reader of a log
/// can always tell which kind of failure occurred.
pub proof fn lemma_messages_distinct()
    ensures
        timeout_message() != execute_message(),
        timeout_message() != canceled_message(),
        execute_message() != canceled_message(),
{
    reveal_strlit("timed out acquiring a pooled resource");
    reveal_strlit("the operation failed against a live resource");
    reveal_strlit("Canceled error");
    assert(timeout_message().len() == 37);
    assert(execute_message().len() == 44);
    assert(canceled_message().len() == 14);
}

impl<E> From<futures_channel::oneshot::Canceled> for AsyncError<E> {
    /// Abandonment of the completion channel is reported as `Canceled`.
    fn from(c: futures_channel::oneshot::Canceled) -> (r: AsyncError<E>)
        ensures
            r is Canceled,
    {
        AsyncError::Canceled
    }
}

impl<E> vstd::std_specs::convert::FromSpecImpl<futures_channel::oneshot::Canceled> for AsyncError<E> {
    open spec fn obeys_from_spec() -> bool {
        true
    }

    open spec fn from_spec(c: futures_channel::oneshot::Canceled) -> AsyncError<E> {
        AsyncError::Canceled
    }
}

} // verus!
