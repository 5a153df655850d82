//! Clip-sharing domain library, centred on the view-count aggregation and
//! batched persistence engine: an in-memory counter store, a command channel,
//! a worker state machine with an idle-flush policy, and a transactional
//! flush protocol, together with the clip data model around them.

pub mod ask;
mod clip;
pub mod ctx;
pub mod field;
mod flush;
pub mod form;
mod messages;
pub mod model;
mod short_code;
mod store;
mod views;
mod worker;

pub use clip::Clip;
pub use field::{ClipError, Time};
pub use flush::{
    answers, lemma_cross_key_independence, stepped, FlushCycle, FlushPhase, StorageEvent,
    StorageOp,
};
pub use messages::{ChannelEvent, ViewMsg};
pub use short_code::ShortCode;
pub use store::{
    bumped, lemma_drain_atomicity, map_of, pending, sat_add, wf_entries, ViewStore,
};
pub use views::{Views, Worker};
pub use worker::{
    accumulated, lemma_accumulation, lemma_snapshot_carries_the_sums, process_msg, sum_views,
    worker_step, WorkerAction, IDLE_FLUSH_WAIT_MS,
};
