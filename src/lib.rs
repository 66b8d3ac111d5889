//! Scheduling and connection-delay resolution for a cross-chain packet relay path.
//!
//! The library keeps the pending relay batches of one channel direction in two FIFO queues,
//! decides how long a batch still has to wait before it may be submitted, and states the
//! guard under which the interactive relay commands may run. Every operation that talks to a
//! chain or sleeps is left to the caller, which hands the library plain readings and carries
//! out the action the library returns.
mod delay;
mod error;
mod height;
mod link;
mod odata;
mod queue;

pub use delay::{
    blocks_left_to_u32, blocks_wait_nanos, delay_step, lemma_time_wait_suffices, resolve_step,
    DelayResolver, DelayStep, ResolverState,
};
pub use error::LinkError;
pub use height::Height;
pub use link::{Link, RelayPath};
pub use odata::{
    blocks_remaining, time_remaining, ConnDelay, OperationalData, OperationalDataTarget,
};
pub use queue::{
    is_destination_bound, is_source_bound, lemma_enqueue_dequeue_fifo, lemma_pops_fifo_src_first,
    pop_model, pops_model, push_all_model, push_model, PathQueue,
};
