//! RemitFlow: a cross-border remittance escrow, modelled as a verified state
//! machine. Senders lock token funds for a recipient with an expiry. The
//! recipient can claim the funds; the sender can cancel and reclaim them after
//! expiry.

pub mod address;
pub mod table;
pub mod error;
pub mod types;
pub mod events;
pub mod naming_conventions;
pub mod normalize;
pub mod storage;
pub mod host;
pub mod accounting;
pub mod model;
pub mod contract;
pub mod fuzz;
pub mod laws;
pub mod guarantees;

use vstd::prelude::*;

verus! {

/// Largest token amount accepted for a single escrowed transfer.
pub const MAX_AMOUNT: i128 = 1_000_000_000_000_000_000;

/// Maximum allowed distance, in seconds, between now and a transfer's expiry.
pub const MAX_EXPIRY_WINDOW: u64 = 31_536_000;

/// Maximum number of transfers a single account may create.
pub const MAX_ACCOUNT_OPS: u32 = 10_000;

/// Global cap on the total escrowed amount.
pub const MAX_TOTAL_ESCROWED: i128 = MAX_AMOUNT;

/// Minimum cooldown in seconds between privileged administrative calls.
pub const PRIVILEGED_COOLDOWN: u64 = 300;

/// Maximum number of records returned by a paginated transfer query.
pub const MAX_PAGE_SIZE: u32 = 100;

/// Maximum number of operations allowed in a single batch call.
pub const MAX_BATCH_SIZE: u32 = 50;

/// Maximum number of transfer ids inspected by one expiry sweep batch. The
/// limit bounds both storage reads and token transfers of one invocation.
pub const MAX_SWEEP_BATCH_SIZE: u32 = 50;

} // verus!

verus! {

/// The RemitFlow remittance escrow contract: its stored state, and one
/// method per entrypoint. Each entrypoint takes the [`host::Host`] of the
/// invocation and appends to it the outside actions it requests.
pub struct RemitFlowContract {
    pub storage: storage::Storage,
}

impl View for RemitFlowContract {
    type V = storage::StorageModel;

    open spec fn view(&self) -> storage::StorageModel {
        self.storage@
    }
}

} // verus!
