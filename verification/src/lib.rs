//! Bridge for running blocking, resource-bound units of work from an
//! asynchronous context: the pooled-resource acquisition outcome, the
//! worker-side completion mapping, the future-side poll mapping, and the
//! unified error taxonomy are all stated and verified here. The thread and
//! channel plumbing that carries the values lives outside the verified core.

mod bridge;
mod builder;
mod error;
mod query;

pub use bridge::ChannelPoll;
pub use bridge::PollOutcome;
pub use bridge::TxAction;
pub use bridge::UnitStep;
pub use bridge::complete;
pub use bridge::lemma_abandonment_is_canceled;
pub use bridge::lemma_acquisition_failure_is_timeout;
pub use bridge::lemma_err_delivered_as_execute;
pub use bridge::lemma_ok_delivered_unchanged;
pub use bridge::lemma_resolves_once;
pub use bridge::resolve_poll;
pub use bridge::spec_complete;
pub use bridge::spec_resolve_poll;
pub use bridge::spec_transaction_action;
pub use bridge::transaction_action;
pub use builder::Builder;
pub use builder::PoolPlan;
pub use builder::acquire_hook_verdict;
pub use builder::lemma_last_write_wins;
pub use builder::spec_with_max_lifetime;
pub use builder::spec_with_max_size;
pub use builder::spec_with_min_idle;
pub use error::AsyncError;
pub use error::canceled_message;
pub use error::execute_message;
pub use error::lemma_messages_distinct;
pub use error::timeout_message;
pub use query::lemma_no_rows_is_none;
pub use query::optional_outcome;
pub use query::resolve_optional;
pub use query::spec_resolve_optional;
