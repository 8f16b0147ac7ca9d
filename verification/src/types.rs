//! Records and parameters of the escrow.

use vstd::prelude::*;

use crate::address::Address;
use crate::table::Duplicate;

verus! {

broadcast use vstd::array::group_array_axioms;

/// Parameters for creating a transfer as part of a batch.
#[derive(Clone, Copy, Debug, PartialEq, Eq)]
pub struct CreateTransferOperation {
    pub from: Address,
    pub recipient: Address,
    pub amount: i128,
    pub expiry: u64,
}

/// Parameters for claiming a transfer as part of a batch.
#[derive(Clone, Copy, Debug, PartialEq, Eq)]
pub struct ClaimTransferOperation {
    pub id: u64,
    pub recipient: Address,
}

/// Parameters for cancelling a transfer as part of a batch.
#[derive(Clone, Copy, Debug, PartialEq, Eq)]
pub struct CancelTransferOperation {
    pub id: u64,
    pub from: Address,
}

/// A state-changing operation accepted by the batch entrypoints.
#[derive(Clone, Copy, Debug, PartialEq, Eq)]
pub enum BatchOperation {
    Create(CreateTransferOperation),
    Claim(ClaimTransferOperation),
    Cancel(CancelTransferOperation),
}

impl BatchOperation {
    /// Whether two operations carry the same kind and parameters.
    pub fn same(&self, other: &BatchOperation) -> (r: bool)
        ensures
            r == (*self == *other),
    {
        match (self, other) {
            (BatchOperation::Create(a), BatchOperation::Create(b)) => {
                a.from.same(&b.from) && a.recipient.same(&b.recipient) && a.amount == b.amount
                    && a.expiry == b.expiry
            },
            (BatchOperation::Claim(a), BatchOperation::Claim(b)) => {
                a.id == b.id && a.recipient.same(&b.recipient)
            },
            (BatchOperation::Cancel(a), BatchOperation::Cancel(b)) => {
                a.id == b.id && a.from.same(&b.from)
            },
            _ => false,
        }
    }
}

/// Whether two operation lists are equal item by item.
pub fn same_operations(a: &Vec<BatchOperation>, b: &Vec<BatchOperation>) -> (r: bool)
    ensures
        r == (a@ == b@),
{
    if a.len() != b.len() {
        return false;
    }
    let mut i: usize = 0;
    while i < a.len()
        invariant
            a@.len() == b@.len(),
            0 <= i <= a@.len(),
            forall|j: int| 0 <= j < i ==> a@[j] == b@[j],
        decreases a@.len() - i,
    {
        if !a[i].same(&b[i]) {
            return false;
        }
        i = i + 1;
    }
    assert(a@ =~= b@);
    true
}

/// Result produced for each successfully executed batch operation.
#[derive(Clone, Copy, Debug, PartialEq, Eq, Structural)]
pub enum BatchOperationResult {
    Created(u64),
    Claimed,
    Cancelled,
}

/// A copy of a list of batch results.
pub fn copy_results(v: &Vec<BatchOperationResult>) -> (r: Vec<BatchOperationResult>)
    ensures
        r@ == v@,
{
    let mut r: Vec<BatchOperationResult> = Vec::new();
    let mut i: usize = 0;
    while i < v.len()
        invariant
            0 <= i <= v@.len(),
            r@ == v@.take(i as int),
        decreases v@.len() - i,
    {
        r.push(v[i]);
        i = i + 1;
        assert(r@ =~= v@.take(i as int));
    }
    assert(v@.take(v@.len() as int) =~= v@);
    r
}

/// A copy of a list of batch operations.
pub fn copy_operations(v: &Vec<BatchOperation>) -> (r: Vec<BatchOperation>)
    ensures
        r@ == v@,
{
    let mut r: Vec<BatchOperation> = Vec::new();
    let mut i: usize = 0;
    while i < v.len()
        invariant
            0 <= i <= v@.len(),
            r@ == v@.take(i as int),
        decreases v@.len() - i,
    {
        r.push(v[i]);
        i = i + 1;
        assert(r@ =~= v@.take(i as int));
    }
    assert(v@.take(v@.len() as int) =~= v@);
    r
}

/// The stored record of a completed idempotent batch: the operations it was
/// given and the results they produced.
#[derive(Debug, PartialEq, Eq)]
pub struct BatchReceipt {
    pub operations: Vec<BatchOperation>,
    pub results: Vec<BatchOperationResult>,
}

/// The contents of a [`BatchReceipt`].
pub struct ReceiptModel {
    pub operations: Seq<BatchOperation>,
    pub results: Seq<BatchOperationResult>,
}

impl View for BatchReceipt {
    type V = ReceiptModel;

    open spec fn view(&self) -> ReceiptModel {
        ReceiptModel { operations: self.operations@, results: self.results@ }
    }
}

impl Duplicate for BatchReceipt {
    fn duplicate(&self) -> (r: Self) {
        BatchReceipt {
            operations: copy_operations(&self.operations),
            results: copy_results(&self.results),
        }
    }
}

/// Lifecycle status of a remittance transfer held in escrow.
#[derive(Clone, Copy, Debug, PartialEq, Eq, Structural)]
pub enum Status {
    /// Funds are locked in escrow awaiting the recipient's claim.
    Pending,
    /// The recipient has successfully claimed the funds.
    Claimed,
    /// The sender cancelled the transfer (or it expired) and reclaimed funds.
    Cancelled,
}

/// A single remittance transfer record stored in escrow.
#[derive(Clone, Copy, Debug, PartialEq, Eq)]
pub struct Transfer {
    /// Unique sequential identifier for this transfer.
    pub id: u64,
    /// Address that funded and owns the transfer.
    pub from: Address,
    /// Address entitled to claim the funds.
    pub recipient: Address,
    /// Amount of the token held in escrow.
    pub amount: i128,
    /// Ledger timestamp after which the transfer can be cancelled.
    pub expiry: u64,
    /// Current lifecycle status of the transfer.
    pub status: Status,
}

impl View for Transfer {
    type V = Transfer;

    open spec fn view(&self) -> Transfer {
        *self
    }
}

impl Duplicate for Transfer {
    fn duplicate(&self) -> (r: Self) {
        *self
    }
}

/// Lifecycle status of a savings goal.
#[derive(Clone, Copy, Debug, PartialEq, Eq, Structural)]
pub enum GoalStatus {
    /// The goal is open and accepting deposits/withdrawals.
    Active,
    /// The goal reached or exceeded its target amount.
    Completed,
    /// The owner cancelled the goal; any balance has been refunded.
    Cancelled,
}

/// A single savings goal record tracking an owner's progress toward a
/// target amount by a deadline.
#[derive(Clone, Copy, Debug, PartialEq, Eq)]
pub struct SavingsGoal {
    /// Unique sequential identifier for this goal.
    pub id: u64,
    /// Address that created and controls this goal.
    pub owner: Address,
    /// Token amount the owner is saving toward.
    pub target_amount: i128,
    /// Token amount currently deposited toward the target.
    pub current_amount: i128,
    /// Ledger timestamp by which the owner intends to reach the target.
    pub deadline: u64,
    /// Ledger timestamp at which the goal was created.
    pub created_at: u64,
    /// Current lifecycle status of the goal.
    pub status: GoalStatus,
}

/// Configured resource and operation limits for the contract.
#[derive(Clone, Copy, Debug, PartialEq, Eq, Structural)]
pub struct ConfiguredLimits {
    /// Largest token amount accepted for a single escrowed transfer.
    pub max_amount: i128,
    /// Maximum allowed distance, in seconds, between now and a transfer's expiry.
    pub max_expiry_window: u64,
    /// Global cap on the total escrowed amount.
    pub max_total_escrowed: i128,
    /// Maximum number of records returned by a paginated transfer query.
    pub max_page_size: u32,
}

/// Outcome of a versioned caller-registry update.
#[derive(Clone, Copy, Debug, PartialEq, Eq, Structural)]
pub struct CallerUpdateResult {
    /// Whether this call changed the registry.
    pub changed: bool,
    /// Whether this call replayed an update that was already applied.
    pub duplicate: bool,
    /// The registry version after the call.
    pub version: u64,
}

/// Whether two wasm artifact hashes are equal.
pub fn same_artifact(a: &[u8; 32], b: &[u8; 32]) -> (r: bool)
    ensures
        r == (*a == *b),
{
    let mut i: usize = 0;
    while i < 32
        invariant
            0 <= i <= 32,
            forall|j: int| 0 <= j < i ==> a[j] == b[j],
        decreases 32 - i,
    {
        if a[i] != b[i] {
            return false;
        }
        i = i + 1;
    }
    assert(*a =~= *b);
    true
}

} // verus!
