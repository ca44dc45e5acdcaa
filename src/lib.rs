//! A priority queue over a remote sorted-set store.
//!
//! The library holds the consumption and production protocol: which commands
//! a client sends to the store for each operation, how a reply becomes a typed
//! entry, how the blocking `pop` retries, and the state machine that turns
//! repeated pops into a stream. Talking to the store is left to the caller;
//! a model of what the store does with each command states what a client
//! achieves through it.
mod codec;
mod config;
mod error;
mod queue;
mod store;
mod stream;

pub use crate::codec::Codec;
pub use crate::config::{command_name, names_of, PopRule, QueueConfig};
pub use crate::error::{io_error_of, IOError, QueueError};
pub use crate::queue::{
    del_model, entry_of, next_pop_step, pop_model, text_args, timeout_secs, zadd_model,
    zcard_model, Arg,
    ArgModel, Command, CommandModel, PopStep, ProtocolModel, QueueEntry, QueueProtocol,
};
pub use crate::stream::{
    action_of, classify, connectivity_failures, emitted_seq, lemma_backoff_then_entry,
    lemma_failed_is_final, lemma_failure_ends_stream, lemma_timeouts_keep_polling, run_of, step_of,
    PopEvent,
    StreamAction, StreamMachine, StreamPhase, StreamRun, BACKOFF_MILLIS, POLL_TIMEOUT_SECS,
};
pub use crate::store::{
    all_text, first_with_members, has_members, is_next, lemma_clean_then_length,
    lemma_fan_in_provenance, lemma_pop_empty_queues, lemma_pops_follow_rule, lemma_push_then_pop, members, pop_step,
    store_step, text_of, StoreModel, StoreReply,
};
