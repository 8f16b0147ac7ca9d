//! Properties of the escrow that hold across entrypoints and across
//! sequences of calls.

use vstd::prelude::*;

use crate::accounting::{
    conservation_check, conserved, funded, funding_check, invariant_check, release_check, released,
};
use crate::address::Address;
use crate::host::{Effect, HostModel};
use crate::model::{
    accept_admin_step, add_caller_step, batch_operations_idempotent_step, batch_operations_step,
    cancel_transfer_step, claim_transfer_step, create_transfer_step, initialize_step,
    operation_step, operations_step, remove_caller_step, stored_from, transfers_page, set_paused_step,
    set_upgrade_baseline_step, sweep_expired_batch_step, sweep_expired_step, sweep_from, sweepable,
    with_released_transfer,
    transfer_admin_step, update_caller_versioned_step, upgrade_step, Step,
};
use crate::storage::{empty_storage, StorageModel};
use crate::types::{BatchOperation, Status};

verus! {

/// A state-changing call of the contract, with its arguments.
pub enum Invocation {
    Initialize { admin: Address, token: Address },
    SetUpgradeBaseline { artifact: [u8; 32] },
    Upgrade { expected: [u8; 32], replacement: [u8; 32], version: u32 },
    Pause,
    Unpause,
    CreateTransfer { from: Address, recipient: Address, amount: i128, expiry: u64 },
    ClaimTransfer { id: u64, recipient: Address },
    CancelTransfer { id: u64, from: Address },
    SweepExpired { id: u64 },
    AddCaller { caller: Address },
    RemoveCaller { caller: Address },
    UpdateCallerVersioned { caller: Address, allowed: bool, version: u64 },
    TransferAdmin { new_admin: Address },
    AcceptAdmin,
    SweepExpiredBatch { start_id: u64, limit: u32 },
    BatchOperations { operations: Seq<BatchOperation> },
    BatchOperationsIdempotent { batch_id: u64, operations: Seq<BatchOperation> },
}

/// The state a step leaves when it succeeds (`None` when it fails), and the
/// host after it.
pub open spec fn outcome<T>(st: Step<T>) -> (Option<StorageModel>, HostModel) {
    (
        match st.result {
            Ok((s2, _)) => Some(s2),
            Err(_) => None,
        },
        st.host,
    )
}

/// What invocation `inv` does from storage `s` and host `h`.
pub open spec fn invoke(s: StorageModel, h: HostModel, inv: Invocation) -> (
    Option<StorageModel>,
    HostModel,
) {
    match inv {
        Invocation::Initialize { admin, token } => outcome(initialize_step(s, h, admin, token)),
        Invocation::SetUpgradeBaseline { artifact } => outcome(
            set_upgrade_baseline_step(s, h, artifact),
        ),
        Invocation::Upgrade { expected, replacement, version } => outcome(
            upgrade_step(s, h, expected, replacement, version),
        ),
        Invocation::Pause => outcome(set_paused_step(s, h, true)),
        Invocation::Unpause => outcome(set_paused_step(s, h, false)),
        Invocation::CreateTransfer { from, recipient, amount, expiry } => outcome(
            create_transfer_step(s, h, from, recipient, amount, expiry),
        ),
        Invocation::ClaimTransfer { id, recipient } => outcome(
            claim_transfer_step(s, h, id, recipient),
        ),
        Invocation::CancelTransfer { id, from } => outcome(cancel_transfer_step(s, h, id, from)),
        Invocation::SweepExpired { id } => outcome(sweep_expired_step(s, h, id)),
        Invocation::AddCaller { caller } => outcome(add_caller_step(s, h, caller)),
        Invocation::RemoveCaller { caller } => outcome(remove_caller_step(s, h, caller)),
        Invocation::UpdateCallerVersioned { caller, allowed, version } => outcome(
            update_caller_versioned_step(s, h, caller, allowed, version),
        ),
        Invocation::TransferAdmin { new_admin } => outcome(transfer_admin_step(s, h, new_admin)),
        Invocation::AcceptAdmin => outcome(accept_admin_step(s, h)),
        Invocation::SweepExpiredBatch { start_id, limit } => outcome(
            sweep_expired_batch_step(s, h, start_id, limit),
        ),
        Invocation::BatchOperations { operations } => outcome(
            batch_operations_step(s, h, operations),
        ),
        Invocation::BatchOperationsIdempotent { batch_id, operations } => outcome(
            batch_operations_idempotent_step(s, h, batch_id, operations),
        ),
    }
}

/// Conservation of the escrow totals: the lifetime funded total equals the
/// pending total plus the released total.
pub open spec fn conservation_ok(s: StorageModel) -> bool {
    conservation_check(s) is Ok
}

proof fn lemma_sweep_from_props(
    s: StorageModel,
    h: HostModel,
    token: Address,
    id: int,
    last: int,
    n: int,
    swept: Seq<u64>,
)
    ensures
        ({
            let (s2, h2, r) = sweep_from(s, h, token, id, last, n, swept);
            &&& r matches Ok(sw2) ==> sw2.len() >= swept.len() && (sw2.len() == swept.len() ==> s2
                == s && h2 == h)
            &&& s2.counter == s.counter && s2.token == s.token
        }),
    decreases last - id + 1,
{
    if id > last || n <= 0 || id < 0 || id > u64::MAX {
    } else {
        let k = id as u64;
        if sweepable(s, k, h.timestamp) && release_check(s, s.transfers[k].amount) is Ok {
            let t = s.transfers[k];
            let s2 = with_released_transfer(s, t, Status::Cancelled);
            let h2 = h.pay(token, h.contract, t.from, t.amount).emit(
                crate::events::cancelled(k, t.from, t.amount),
            );
            lemma_sweep_from_props(s2, h2, token, id + 1, last, n - 1, swept.push(k));
        } else {
            lemma_sweep_from_props(s, h, token, id + 1, last, n - 1, swept);
        }
    }
}

proof fn lemma_operations_keep_supply(s: StorageModel, h: HostModel, ops: Seq<BatchOperation>)
    requires
        conservation_ok(s),
    ensures
        operations_step(s, h, ops).result matches Ok((s2, _)) ==> conservation_ok(s2),
    decreases ops.len(),
{
    if ops.len() > 0 {
        let first = operation_step(s, h, ops[0]);
        match first.result {
            Ok((s1, _)) => {
                lemma_operations_keep_supply(s1, first.host, ops.drop_first());
            },
            Err(_) => {},
        }
    }
}

proof fn lemma_sweep_batch_keeps_supply(s: StorageModel, h: HostModel, start_id: u64, limit: u32)
    requires
        conservation_ok(s),
    ensures
        sweep_expired_batch_step(s, h, start_id, limit).result matches Ok((s2, _)) ==> conservation_ok(
            s2,
        ),
{
    if s.token is Some {
        let first = if start_id < 1 {
            1
        } else {
            start_id as int
        };
        let n = if limit < crate::MAX_SWEEP_BATCH_SIZE {
            limit as int
        } else {
            crate::MAX_SWEEP_BATCH_SIZE as int
        };
        lemma_sweep_from_props(s, h, s.token->0, first, s.counter as int, n, Seq::empty());
    }
}

proof fn lemma_lifecycle_evolves(s: StorageModel, h: HostModel, inv: Invocation)
    requires
        well_formed(s),
        inv is CreateTransfer || inv is ClaimTransfer || inv is CancelTransfer || inv is SweepExpired,
    ensures
        invoke(s, h, inv).0 matches Some(s2) ==> well_formed(s2) && transfers_evolve(s, s2),
{
    match inv {
        Invocation::CreateTransfer { from, recipient, amount, expiry } => {
            lemma_operation_evolves(
                s,
                h,
                BatchOperation::Create(
                    crate::types::CreateTransferOperation { from, recipient, amount, expiry },
                ),
            );
        },
        Invocation::ClaimTransfer { id, recipient } => {
            lemma_operation_evolves(
                s,
                h,
                BatchOperation::Claim(crate::types::ClaimTransferOperation { id, recipient }),
            );
        },
        Invocation::CancelTransfer { id, from } => {
            lemma_operation_evolves(
                s,
                h,
                BatchOperation::Cancel(crate::types::CancelTransferOperation { id, from }),
            );
        },
        _ => {},
    }
}

/// Every call that succeeds keeps the escrow totals conserved, given that
/// they were before: the lifetime funded total equals the pending total plus
/// the released total. (A call that fails leaves storage as it was.) That
/// the contract's token balance covers the pending total is required of the
/// host by the `RequireSolvency` action of each call that moves funds.
#[verifier::rlimit(60)]
pub proof fn lemma_supply_invariant_preserved(s: StorageModel, h: HostModel, inv: Invocation)
    requires
        conservation_ok(s),
    ensures
        invoke(s, h, inv).0 matches Some(s2) ==> conservation_ok(s2),
{
    match inv {
        Invocation::SweepExpiredBatch { start_id, limit } => {
            lemma_sweep_batch_keeps_supply(s, h, start_id, limit);
        },
        Invocation::BatchOperations { operations } => {
            lemma_operations_keep_supply(s, h, operations);
        },
        Invocation::BatchOperationsIdempotent { batch_id, operations } => {
            lemma_operations_keep_supply(s, h, operations);
        },
        _ => {},
    }
}

/// Whether `h` has asked the host to check that the contract's measured
/// token balance covers `pending`.
pub open spec fn requires_solvency(h: HostModel, pending: i128) -> bool {
    h.effects.contains(Effect::RequireSolvency { pending })
}

proof fn lemma_pushed_solvency(h: HostModel, pending: i128, e: crate::events::ContractEvent)
    ensures
        requires_solvency(h.require_solvency(pending).emit(e), pending),
{
    let effects = h.require_solvency(pending).emit(e).effects;
    assert(effects[h.effects.len() as int] == Effect::RequireSolvency { pending });
}

proof fn lemma_operation_requires_solvency(s: StorageModel, h: HostModel, op: BatchOperation)
    ensures
        operation_step(s, h, op).result matches Ok((s2, _)) ==> requires_solvency(
            operation_step(s, h, op).host,
            s2.total_escrowed,
        ),
{
    match op {
        BatchOperation::Create(p) => {
            let st = create_transfer_step(s, h, p.from, p.recipient, p.amount, p.expiry);
            if st.result is Ok {
                let s2 = st.result->Ok_0.0;
                let id = (s.counter + 1) as u64;
                let h2 = h.auth(p.from).pay(s.token->0, p.from, h.contract, p.amount);
                lemma_pushed_solvency(
                    h2,
                    s2.total_escrowed,
                    crate::events::created(id, p.from, p.recipient, p.amount, p.expiry),
                );
            }
        },
        BatchOperation::Claim(p) => {
            lemma_release_requires_solvency(s, h, p.id, p.recipient, true);
        },
        BatchOperation::Cancel(p) => {
            lemma_release_requires_solvency(s, h, p.id, p.from, false);
        },
    }
}

proof fn lemma_release_requires_solvency(s: StorageModel, h: HostModel, id: u64, who: Address, claim: bool)
    ensures
        claim ==> (claim_transfer_step(s, h, id, who).result matches Ok((s2, _)) ==> requires_solvency(
            claim_transfer_step(s, h, id, who).host,
            s2.total_escrowed,
        )),
        !claim ==> (cancel_transfer_step(s, h, id, who).result matches Ok((s2, _))
            ==> requires_solvency(cancel_transfer_step(s, h, id, who).host, s2.total_escrowed)),
        sweep_expired_step(s, h, id).result matches Ok((s2, _)) ==> requires_solvency(
            sweep_expired_step(s, h, id).host,
            s2.total_escrowed,
        ),
{
    if s.transfers.contains_key(id) && s.token is Some {
        let t = s.transfers[id];
        let s2 = with_released_transfer(s, t, if claim {
            Status::Claimed
        } else {
            Status::Cancelled
        });
        let payee = if claim {
            t.recipient
        } else {
            t.from
        };
        let e = if claim {
            crate::events::claimed(id, payee, t.amount)
        } else {
            crate::events::cancelled(id, payee, t.amount)
        };
        lemma_pushed_solvency(
            h.auth(who).pay(s.token->0, h.contract, payee, t.amount),
            s2.total_escrowed,
            e,
        );
        let s3 = with_released_transfer(s, t, Status::Cancelled);
        lemma_pushed_solvency(
            h.pay(s.token->0, h.contract, t.from, t.amount),
            s3.total_escrowed,
            crate::events::cancelled(id, t.from, t.amount),
        );
    }
}

proof fn lemma_operations_require_solvency(s: StorageModel, h: HostModel, ops: Seq<BatchOperation>)
    ensures
        operations_step(s, h, ops).result matches Ok((s2, _)) ==> ops.len() > 0 ==> requires_solvency(
            operations_step(s, h, ops).host,
            s2.total_escrowed,
        ),
    decreases ops.len(),
{
    if ops.len() > 0 {
        let first = operation_step(s, h, ops[0]);
        lemma_operation_requires_solvency(s, h, ops[0]);
        match first.result {
            Ok((s1, _)) => {
                lemma_operations_require_solvency(s1, first.host, ops.drop_first());
                if ops.len() == 1 {
                    assert(ops.drop_first().len() == 0);
                }
            },
            Err(_) => {},
        }
    }
}

proof fn lemma_sweep_batch_requires_solvency(s: StorageModel, h: HostModel, start_id: u64, limit: u32)
    ensures
        sweep_expired_batch_step(s, h, start_id, limit).result matches Ok((s2, _))
            ==> s2.total_escrowed != s.total_escrowed ==> requires_solvency(
            sweep_expired_batch_step(s, h, start_id, limit).host,
            s2.total_escrowed,
        ),
{
    if s.token is Some {
        let first = if start_id < 1 {
            1
        } else {
            start_id as int
        };
        let n = if limit < crate::MAX_SWEEP_BATCH_SIZE {
            limit as int
        } else {
            crate::MAX_SWEEP_BATCH_SIZE as int
        };
        lemma_sweep_from_props(s, h, s.token->0, first, s.counter as int, n, Seq::empty());
        let (s2, h2, r) = sweep_from(s, h, s.token->0, first, s.counter as int, n, Seq::empty());
        let h3 = h2.require_solvency(s2.total_escrowed);
        assert(h3.effects[h2.effects.len() as int] == Effect::RequireSolvency {
            pending: s2.total_escrowed,
        });
    }
}

/// Every successful call other than initialization that changes the pending
/// total asks the host, after its token transfers, to check that the
/// contract's measured token balance covers the pending total it leaves.
#[verifier::rlimit(60)]
pub proof fn lemma_pending_changes_require_solvency(s: StorageModel, h: HostModel, inv: Invocation)
    requires
        !(inv is Initialize),
    ensures
        invoke(s, h, inv).0 matches Some(s2) ==> s2.total_escrowed != s.total_escrowed
            ==> requires_solvency(invoke(s, h, inv).1, s2.total_escrowed),
{
    match inv {
        Invocation::CreateTransfer { from, recipient, amount, expiry } => {
            lemma_operation_requires_solvency(
                s,
                h,
                BatchOperation::Create(
                    crate::types::CreateTransferOperation { from, recipient, amount, expiry },
                ),
            );
        },
        Invocation::ClaimTransfer { id, recipient } => {
            lemma_release_requires_solvency(s, h, id, recipient, true);
        },
        Invocation::CancelTransfer { id, from } => {
            lemma_release_requires_solvency(s, h, id, from, false);
        },
        Invocation::SweepExpired { id } => {
            lemma_release_requires_solvency(s, h, id, h.contract, false);
        },
        Invocation::SweepExpiredBatch { start_id, limit } => {
            lemma_sweep_batch_requires_solvency(s, h, start_id, limit);
        },
        Invocation::BatchOperations { operations } => {
            lemma_operations_require_solvency(s, h, operations);
        },
        Invocation::BatchOperationsIdempotent { batch_id, operations } => {
            lemma_operations_require_solvency(s, h, operations);
        },
        _ => {},
    }
}

/// A freshly deployed contract has conserved totals, and any non-negative
/// balance covers its pending total.
pub proof fn lemma_supply_invariant_initially(balance: i128)
    requires
        balance >= 0,
    ensures
        conservation_ok(empty_storage()),
        invariant_check(empty_storage(), balance) is Ok,
{
}

/// Every stored transfer sits under its own id, which was issued by the
/// counter; before initialization there is no token and no transfer.
pub open spec fn well_formed(s: StorageModel) -> bool {
    &&& forall|k: u64| #[trigger]
        s.transfers.contains_key(k) ==> 1 <= k <= s.counter && s.transfers[k].id == k
    &&& s.admin is None ==> s.token is None && s.counter == 0
}

/// From `s` to `s2`, no transfer disappears, the parties, amount and expiry
/// of each stay, and a transfer in a terminal status stays exactly as it was.
pub open spec fn transfers_evolve(s: StorageModel, s2: StorageModel) -> bool {
    forall|k: u64| #[trigger]
        s.transfers.contains_key(k) ==> {
            let t = s.transfers[k];
            let t2 = s2.transfers[k];
            &&& s2.transfers.contains_key(k)
            &&& t2.id == t.id && t2.from == t.from && t2.recipient == t.recipient
            &&& t2.amount == t.amount && t2.expiry == t.expiry
            &&& t.status != Status::Pending ==> t2 == t
        }
}

proof fn lemma_sweep_from_evolves(
    s: StorageModel,
    h: HostModel,
    token: Address,
    id: int,
    last: int,
    n: int,
    swept: Seq<u64>,
)
    requires
        well_formed(s),
    ensures
        ({
            let s2 = sweep_from(s, h, token, id, last, n, swept).0;
            well_formed(s2) && transfers_evolve(s, s2) && s2.admin == s.admin
        }),
    decreases last - id + 1,
{
    if id > last || n <= 0 || id < 0 || id > u64::MAX {
    } else {
        let k = id as u64;
        if sweepable(s, k, h.timestamp) && release_check(s, s.transfers[k].amount) is Ok {
            let t = s.transfers[k];
            let s2 = with_released_transfer(s, t, Status::Cancelled);
            let h2 = h.pay(token, h.contract, t.from, t.amount).emit(
                crate::events::cancelled(k, t.from, t.amount),
            );
            lemma_sweep_from_evolves(s2, h2, token, id + 1, last, n - 1, swept.push(k));
            let s3 = sweep_from(s2, h2, token, id + 1, last, n - 1, swept.push(k)).0;
            assert forall|j: u64| #[trigger] s.transfers.contains_key(j) implies s2.transfers.contains_key(j)
                && s3.transfers[j].id == s.transfers[j].id && s3.transfers[j].from == s.transfers[j].from
                && s3.transfers[j].recipient == s.transfers[j].recipient
                && s3.transfers[j].amount == s.transfers[j].amount
                && s3.transfers[j].expiry == s.transfers[j].expiry
                && (s.transfers[j].status != Status::Pending ==> s3.transfers[j] == s.transfers[j]) by {
                assert(s2.transfers.contains_key(j));
            }
        } else {
            lemma_sweep_from_evolves(s, h, token, id + 1, last, n - 1, swept);
        }
    }
}

proof fn lemma_operation_evolves(s: StorageModel, h: HostModel, op: BatchOperation)
    requires
        well_formed(s),
    ensures
        operation_step(s, h, op).result matches Ok((s2, _)) ==> well_formed(s2) && transfers_evolve(
            s,
            s2,
        ) && s2.admin == s.admin,
{
    match op {
        BatchOperation::Create(p) => {
            let st = create_transfer_step(s, h, p.from, p.recipient, p.amount, p.expiry);
            if st.result is Ok {
                let s2 = st.result->Ok_0.0;
                assert forall|k: u64| #[trigger] s.transfers.contains_key(k) implies s2.transfers.contains_key(k)
                    && s2.transfers[k] == s.transfers[k] by {
                    assert(k <= s.counter);
                }
            }
        },
        BatchOperation::Claim(p) => {},
        BatchOperation::Cancel(p) => {},
    }
}

proof fn lemma_operations_evolve(s: StorageModel, h: HostModel, ops: Seq<BatchOperation>)
    requires
        well_formed(s),
    ensures
        operations_step(s, h, ops).result matches Ok((s2, _)) ==> well_formed(s2)
            && transfers_evolve(s, s2) && s2.admin == s.admin,
    decreases ops.len(),
{
    if ops.len() > 0 {
        let first = operation_step(s, h, ops[0]);
        lemma_operation_evolves(s, h, ops[0]);
        match first.result {
            Ok((s1, _)) => {
                lemma_operations_evolve(s1, first.host, ops.drop_first());
                let rest = operations_step(s1, first.host, ops.drop_first());
                if rest.result is Ok {
                    let s2 = rest.result->Ok_0.0;
                    assert forall|k: u64| #[trigger] s.transfers.contains_key(k) implies s1.transfers.contains_key(k) by {}
                }
            },
            Err(_) => {},
        }
    }
}

proof fn lemma_sweep_batch_evolves(s: StorageModel, h: HostModel, start_id: u64, limit: u32)
    requires
        well_formed(s),
    ensures
        sweep_expired_batch_step(s, h, start_id, limit).result matches Ok((s2, _)) ==> well_formed(
            s2,
        ) && transfers_evolve(s, s2),
{
    if s.token is Some {
        let first = if start_id < 1 {
            1
        } else {
            start_id as int
        };
        let n = if limit < crate::MAX_SWEEP_BATCH_SIZE {
            limit as int
        } else {
            crate::MAX_SWEEP_BATCH_SIZE as int
        };
        lemma_sweep_from_evolves(s, h, s.token->0, first, s.counter as int, n, Seq::empty());
        lemma_sweep_from_props(s, h, s.token->0, first, s.counter as int, n, Seq::empty());
    }
}

proof fn lemma_sweep_batch_keeps_records(s: StorageModel, h: HostModel, start_id: u64, limit: u32)
    requires
        records_valid(s, h.contract),
    ensures
        sweep_expired_batch_step(s, h, start_id, limit).result matches Ok((s2, _)) ==> records_valid(
            s2,
            h.contract,
        ),
{
    if s.token is Some {
        let first = if start_id < 1 {
            1
        } else {
            start_id as int
        };
        let n = if limit < crate::MAX_SWEEP_BATCH_SIZE {
            limit as int
        } else {
            crate::MAX_SWEEP_BATCH_SIZE as int
        };
        lemma_sweep_from_keeps_records(s, h, s.token->0, first, s.counter as int, n, Seq::empty());
    }
}

/// Successful calls keep storage well formed, never drop a transfer, never
/// change a transfer's parties, amount or expiry, and never touch a transfer
/// that has reached a terminal status (claimed or cancelled).
#[verifier::rlimit(60)]
pub proof fn lemma_terminal_transfers_final(s: StorageModel, h: HostModel, inv: Invocation)
    requires
        well_formed(s),
    ensures
        invoke(s, h, inv).0 matches Some(s2) ==> well_formed(s2) && transfers_evolve(s, s2),
{
    match inv {
        Invocation::CreateTransfer { .. } | Invocation::ClaimTransfer { .. }
        | Invocation::CancelTransfer { .. } | Invocation::SweepExpired { .. } => {
            lemma_lifecycle_evolves(s, h, inv);
        },
        Invocation::SweepExpiredBatch { start_id, limit } => {
            lemma_sweep_batch_evolves(s, h, start_id, limit);
        },
        Invocation::BatchOperations { operations } => {
            lemma_operations_evolve(s, h, operations);
        },
        Invocation::BatchOperationsIdempotent { batch_id, operations } => {
            lemma_operations_evolve(s, h, operations);
        },
        _ => {},
    }
}

/// A freshly deployed contract is well formed.
pub proof fn lemma_well_formed_initially()
    ensures
        well_formed(empty_storage()),
{
}

/// Every stored transfer moves a positive amount, at most `MAX_AMOUNT`,
/// between two distinct parties other than the contract at `contract`; the
/// administrator, its nominee, the token and every allowed caller are other
/// than the contract; and the pending total stays within the escrow cap.
pub open spec fn records_valid(s: StorageModel, contract: Address) -> bool {
    &&& forall|k: u64| #[trigger]
        s.transfers.contains_key(k) ==> {
            let t = s.transfers[k];
            &&& 0 < t.amount <= crate::MAX_AMOUNT
            &&& t.from != contract && t.recipient != contract && t.from != t.recipient
        }
    &&& forall|c: Address| #[trigger] s.allowed_callers.contains_key(c) ==> c != contract
    &&& s.admin matches Some(a) ==> a != contract
    &&& s.pending_admin matches Some(p) ==> p != contract
    &&& s.token matches Some(t) ==> t != contract
    &&& s.total_escrowed <= crate::MAX_TOTAL_ESCROWED
}

proof fn lemma_sweep_from_keeps_records(
    s: StorageModel,
    h: HostModel,
    token: Address,
    id: int,
    last: int,
    n: int,
    swept: Seq<u64>,
)
    requires
        records_valid(s, h.contract),
    ensures
        records_valid(sweep_from(s, h, token, id, last, n, swept).0, h.contract),
    decreases last - id + 1,
{
    if id > last || n <= 0 || id < 0 || id > u64::MAX {
    } else {
        let k = id as u64;
        if sweepable(s, k, h.timestamp) && release_check(s, s.transfers[k].amount) is Ok {
            let t = s.transfers[k];
            let s2 = with_released_transfer(s, t, Status::Cancelled);
            let h2 = h.pay(token, h.contract, t.from, t.amount).emit(
                crate::events::cancelled(k, t.from, t.amount),
            );
            assert(records_valid(s2, h2.contract));
            lemma_sweep_from_keeps_records(s2, h2, token, id + 1, last, n - 1, swept.push(k));
        } else {
            lemma_sweep_from_keeps_records(s, h, token, id + 1, last, n - 1, swept);
        }
    }
}

proof fn lemma_operation_keeps_records(s: StorageModel, h: HostModel, op: BatchOperation)
    requires
        records_valid(s, h.contract),
    ensures
        operation_step(s, h, op).host.contract == h.contract,
        operation_step(s, h, op).result matches Ok((s2, _)) ==> records_valid(s2, h.contract),
{
}

proof fn lemma_operations_keep_records(s: StorageModel, h: HostModel, ops: Seq<BatchOperation>)
    requires
        records_valid(s, h.contract),
    ensures
        operations_step(s, h, ops).result matches Ok((s2, _)) ==> records_valid(s2, h.contract),
    decreases ops.len(),
{
    if ops.len() > 0 {
        let first = operation_step(s, h, ops[0]);
        lemma_operation_keeps_records(s, h, ops[0]);
        match first.result {
            Ok((s1, _)) => {
                lemma_operations_keep_records(s1, first.host, ops.drop_first());
            },
            Err(_) => {},
        }
    }
}

/// Successful calls keep [`records_valid`]: the contract never becomes a
/// party to a transfer, never holds the administrator, nominee, token or
/// allowed-caller role, every stored amount stays positive and within
/// `MAX_AMOUNT`, and the pending total never exceeds `MAX_TOTAL_ESCROWED`.
#[verifier::rlimit(60)]
pub proof fn lemma_records_stay_valid(s: StorageModel, h: HostModel, inv: Invocation)
    requires
        records_valid(s, h.contract),
    ensures
        invoke(s, h, inv).0 matches Some(s2) ==> records_valid(s2, h.contract),
{
    match inv {
        Invocation::SweepExpiredBatch { start_id, limit } => {
            lemma_sweep_batch_keeps_records(s, h, start_id, limit);
        },
        Invocation::BatchOperations { operations } => {
            lemma_operations_keep_records(s, h, operations);
        },
        Invocation::BatchOperationsIdempotent { batch_id, operations } => {
            lemma_operations_keep_records(s, h, operations);
        },
        Invocation::CreateTransfer { from, recipient, amount, expiry } => {
            lemma_operation_keeps_records(
                s,
                h,
                BatchOperation::Create(
                    crate::types::CreateTransferOperation { from, recipient, amount, expiry },
                ),
            );
        },
        Invocation::ClaimTransfer { id, recipient } => {
            lemma_operation_keeps_records(
                s,
                h,
                BatchOperation::Claim(crate::types::ClaimTransferOperation { id, recipient }),
            );
        },
        Invocation::CancelTransfer { id, from } => {
            lemma_operation_keeps_records(
                s,
                h,
                BatchOperation::Cancel(crate::types::CancelTransferOperation { id, from }),
            );
        },
        Invocation::SweepExpired { id } => {
            lemma_sweep_expired_keeps_records(s, h, id);
        },
        _ => {},
    }
}

proof fn lemma_sweep_expired_keeps_records(s: StorageModel, h: HostModel, id: u64)
    requires
        records_valid(s, h.contract),
    ensures
        sweep_expired_step(s, h, id).result matches Ok((s2, _)) ==> records_valid(s2, h.contract),
{
}

/// A freshly deployed contract has valid records.
pub proof fn lemma_records_valid_initially(contract: Address)
    ensures
        records_valid(empty_storage(), contract),
{
}

/// A transfer that is no longer pending can be neither claimed, nor
/// cancelled, nor swept.
pub proof fn lemma_terminal_transfer_cannot_be_released(
    s: StorageModel,
    h: HostModel,
    id: u64,
    who: Address,
)
    requires
        s.transfers.contains_key(id),
        s.transfers[id].status != Status::Pending,
    ensures
        claim_transfer_step(s, h, id, who).result is Err,
        cancel_transfer_step(s, h, id, who).result is Err,
        sweep_expired_step(s, h, id).result is Err,
{
}

/// At any one ledger time, a transfer that its recipient can claim can be
/// neither cancelled nor swept, and the other way round: claims are possible
/// up to the expiry, refunds only after it.
pub proof fn lemma_claim_and_refund_windows_disjoint(
    s: StorageModel,
    h: HostModel,
    id: u64,
    recipient: Address,
    from: Address,
)
    ensures
        claim_transfer_step(s, h, id, recipient).result is Ok ==> cancel_transfer_step(
            s,
            h,
            id,
            from,
        ).result is Err && sweep_expired_step(s, h, id).result is Err,
{
}

/// While the contract is paused, no transfer can be created.
pub proof fn lemma_paused_rejects_creation(
    s: StorageModel,
    h: HostModel,
    from: Address,
    recipient: Address,
    amount: i128,
    expiry: u64,
)
    requires
        s.paused,
    ensures
        create_transfer_step(s, h, from, recipient, amount, expiry).result is Err,
{
}

/// A created transfer receives the next counter value as its id, is stored
/// pending with the given parties, amount and expiry, and its amount is
/// added to the pending and funded totals.
pub proof fn lemma_created_transfer_is_recorded(
    s: StorageModel,
    h: HostModel,
    from: Address,
    recipient: Address,
    amount: i128,
    expiry: u64,
)
    ensures
        create_transfer_step(s, h, from, recipient, amount, expiry).result matches Ok((s2, id)) ==> {
            &&& id == s.counter + 1
            &&& s2.counter == id
            &&& s2.transfers.contains_key(id)
            &&& s2.transfers[id] == (crate::types::Transfer {
                id,
                from,
                recipient,
                amount,
                expiry,
                status: Status::Pending,
            })
            &&& s2.total_escrowed == s.total_escrowed + amount
            &&& s2.total_funded == s.total_funded + amount
            &&& s2.total_released == s.total_released
        },
{
}

/// Recording a release of an amount just funded restores the pending total;
/// funding and releasing each keep the lifetime totals balanced.
pub proof fn lemma_release_undoes_funding(s: StorageModel, amount: i128)
    requires
        funding_check(s, amount) is Ok,
    ensures
        release_check(funded(s, amount), amount) is Ok ==> released(
            funded(s, amount),
            amount,
        ).total_escrowed == s.total_escrowed,
        conserved(s) ==> conserved(funded(s, amount)),
        conserved(s) && release_check(s, amount) is Ok ==> conserved(released(s, amount)),
{
}

/// Retrying a successful idempotent batch with the same id and the same
/// operations returns the same results and changes nothing, requesting no
/// outside action; reusing the id with other operations fails with
/// `BatchIdConflict`, also changing nothing.
pub proof fn lemma_idempotent_batch_replay(
    s: StorageModel,
    h: HostModel,
    h2: HostModel,
    batch_id: u64,
    ops: Seq<BatchOperation>,
    other_ops: Seq<BatchOperation>,
)
    requires
        batch_operations_idempotent_step(s, h, batch_id, ops).result is Ok,
    ensures
        ({
            let (s1, results) = batch_operations_idempotent_step(s, h, batch_id, ops).result->Ok_0;
            &&& batch_operations_idempotent_step(s1, h2, batch_id, ops).result == Ok::<
                (StorageModel, Seq<crate::types::BatchOperationResult>),
                crate::error::Error,
            >((s1, results))
            &&& batch_operations_idempotent_step(s1, h2, batch_id, ops).host == h2
            &&& other_ops != ops ==> batch_operations_idempotent_step(
                s1,
                h2,
                batch_id,
                other_ops,
            ).result == Err::<
                (StorageModel, Seq<crate::types::BatchOperationResult>),
                crate::error::Error,
            >(crate::error::Error::BatchIdConflict)
        }),
{
}

/// After a versioned caller update succeeds, replaying the exact same
/// `(caller, allowed, version)` changes nothing and reports a duplicate at
/// the current registry version; only the admin's authorization is requested.
/// An update that changed the registry leaves `caller` allowed exactly when
/// `allowed`, at registry version `version`.
pub proof fn lemma_caller_update_replay(
    s: StorageModel,
    h: HostModel,
    h2: HostModel,
    caller: Address,
    allowed: bool,
    version: u64,
)
    requires
        update_caller_versioned_step(s, h, caller, allowed, version).result is Ok,
        h2.contract == h.contract,
    ensures
        ({
            let (s1, res) = update_caller_versioned_step(s, h, caller, allowed, version).result->Ok_0;
            let again = update_caller_versioned_step(s1, h2, caller, allowed, version);
            &&& again.result == Ok::<(StorageModel, crate::types::CallerUpdateResult), crate::error::Error>(
                (
                    s1,
                    crate::types::CallerUpdateResult {
                        changed: false,
                        duplicate: true,
                        version: s1.caller_registry_version,
                    },
                ),
            )
            &&& again.host == h2.auth(s1.admin->0)
            &&& res.changed ==> s1.caller_allowed(caller) == allowed
                && s1.caller_registry_version == version
        }),
{
}

/// A nomination followed, after the cooldown, by the nominee's acceptance
/// hands the administrator role to the nominee and clears the nomination.
pub proof fn lemma_admin_handover(s: StorageModel, h: HostModel, h2: HostModel, new_admin: Address)
    requires
        transfer_admin_step(s, h, new_admin).result is Ok,
        h2.timestamp >= h.timestamp + crate::PRIVILEGED_COOLDOWN,
    ensures
        ({
            let s1 = transfer_admin_step(s, h, new_admin).result->Ok_0.0;
            let st = accept_admin_step(s1, h2);
            &&& st.result is Ok
            &&& st.result->Ok_0.0.admin == Some(new_admin)
            &&& st.result->Ok_0.0.pending_admin is None
            &&& st.host == h2.auth(new_admin).emit(
                crate::events::admin_transfer_completed(s.admin->0, new_admin),
            )
        }),
{
}

/// A successful upgrade advances the release number by exactly one and
/// records the replacement artifact; the baseline is release zero.
pub proof fn lemma_upgrade_sequence(
    s: StorageModel,
    h: HostModel,
    baseline: [u8; 32],
    expected: [u8; 32],
    replacement: [u8; 32],
    version: u32,
)
    ensures
        set_upgrade_baseline_step(s, h, baseline).result matches Ok((s1, _)) ==> s1.upgrade_version
            == 0 && s1.upgrade_artifact_hash == Some(baseline),
        upgrade_step(s, h, expected, replacement, version).result matches Ok((s1, _)) ==> {
            &&& s1.upgrade_version == s.upgrade_version + 1
            &&& s1.upgrade_artifact_hash == Some(replacement)
            &&& s.upgrade_artifact_hash == Some(expected)
            &&& expected != replacement
        },
{
}

/// Whether `inv` is one of the administrative calls held to the cooldown.
pub open spec fn is_privileged(inv: Invocation) -> bool {
    match inv {
        Invocation::Upgrade { .. } | Invocation::Pause | Invocation::Unpause
        | Invocation::AddCaller { .. } | Invocation::RemoveCaller { .. } | Invocation::TransferAdmin {
            ..
        } | Invocation::AcceptAdmin => true,
        _ => false,
    }
}

/// A successful privileged call records its time; any privileged call less
/// than `PRIVILEGED_COOLDOWN` seconds after a recorded one (at a non-zero
/// time) fails, requesting nothing.
pub proof fn lemma_privileged_cooldown(s: StorageModel, h: HostModel, inv: Invocation)
    requires
        is_privileged(inv),
    ensures
        invoke(s, h, inv).0 matches Some(s2) ==> s2.last_privileged_call == h.timestamp,
        s.last_privileged_call > 0 && h.timestamp >= s.last_privileged_call && h.timestamp
            - s.last_privileged_call < crate::PRIVILEGED_COOLDOWN ==> invoke(s, h, inv) == (
        None::<StorageModel>, h),
{
}

proof fn lemma_stored_from_props(s: StorageModel, id: int, last: int, n: int)
    requires
        well_formed(s),
    ensures
        ({
            let page = stored_from(s, id, last, n);
            &&& n >= 0 ==> page.len() <= n
            &&& n < 0 ==> page.len() == 0
            &&& forall|i: int|
                0 <= i < page.len() ==> id <= (#[trigger] page[i]).id <= last
                    && s.transfers.contains_key(page[i].id) && s.transfers[page[i].id] == page[i]
            &&& forall|i: int, j: int|
                0 <= i < j < page.len() ==> (#[trigger] page[i]).id < (#[trigger] page[j]).id
        }),
    decreases last - id + 1,
{
    if id > last || n <= 0 {
    } else if s.transfers.contains_key(id as u64) && 0 <= id <= u64::MAX {
        lemma_stored_from_props(s, id + 1, last, n - 1);
        let rest = stored_from(s, id + 1, last, n - 1);
        let page = stored_from(s, id, last, n);
        assert(page == seq![s.transfers[id as u64]] + rest);
        assert forall|i: int| 0 <= i < page.len() implies id <= (#[trigger] page[i]).id <= last
            && s.transfers.contains_key(page[i].id) && s.transfers[page[i].id] == page[i] by {
            if i > 0 {
                assert(page[i] == rest[i - 1]);
            }
        }
        assert forall|i: int, j: int|
            0 <= i < j < page.len() implies (#[trigger] page[i]).id < (#[trigger] page[j]).id by {
            assert(page[j] == rest[j - 1]);
            if i > 0 {
                assert(page[i] == rest[i - 1]);
            }
        }
    } else {
        lemma_stored_from_props(s, id + 1, last, n);
    }
}

/// A page of transfers holds at most `min(limit, MAX_PAGE_SIZE)` records,
/// each a stored transfer whose id lies between `max(start_id, 1)` and the
/// counter, in strictly ascending id order.
pub proof fn lemma_transfers_page_bounds(s: StorageModel, start_id: u64, limit: u32)
    requires
        well_formed(s),
    ensures
        ({
            let page = transfers_page(s, start_id, limit);
            &&& page.len() <= limit
            &&& page.len() <= crate::MAX_PAGE_SIZE
            &&& forall|i: int|
                0 <= i < page.len() ==> start_id <= (#[trigger] page[i]).id && 1 <= page[i].id
                    <= s.counter && s.transfers.contains_key(page[i].id) && s.transfers[page[i].id]
                    == page[i]
            &&& forall|i: int, j: int|
                0 <= i < j < page.len() ==> (#[trigger] page[i]).id < (#[trigger] page[j]).id
        }),
{
    let first = if start_id < 1 {
        1
    } else {
        start_id as int
    };
    let size = if limit < crate::MAX_PAGE_SIZE {
        limit as int
    } else {
        crate::MAX_PAGE_SIZE as int
    };
    lemma_stored_from_props(s, first, s.counter as int, size);
}

/// No transfer with an id in the range a sweep from `id` inspects is both
/// pending and expired at `now`.
pub open spec fn cleared(s: StorageModel, id: int, last: int, n: int, now: u64) -> bool {
    forall|j: u64|
        id <= j <= last && j < id + n && #[trigger] s.transfers.contains_key(j) ==> !(
        s.transfers[j].status == Status::Pending && now > s.transfers[j].expiry)
}

proof fn lemma_sweep_cleared_is_noop(
    s: StorageModel,
    h: HostModel,
    token: Address,
    id: int,
    last: int,
    n: int,
    swept: Seq<u64>,
)
    requires
        cleared(s, id, last, n, h.timestamp),
    ensures
        sweep_from(s, h, token, id, last, n, swept) == (s, h, Ok::<Seq<u64>, crate::error::Error>(swept)),
    decreases last - id + 1,
{
    if id > last || n <= 0 || id < 0 || id > u64::MAX {
    } else {
        let k = id as u64;
        assert(!sweepable(s, k, h.timestamp));
        lemma_sweep_cleared_is_noop(s, h, token, id + 1, last, n - 1, swept);
    }
}

/// Every stored transfer sits under its own id.
pub open spec fn keyed_by_id(s: StorageModel) -> bool {
    forall|k: u64| #[trigger] s.transfers.contains_key(k) ==> s.transfers[k].id == k
}

proof fn lemma_sweep_clears(
    s: StorageModel,
    h: HostModel,
    token: Address,
    id: int,
    last: int,
    n: int,
    swept: Seq<u64>,
)
    requires
        keyed_by_id(s),
        id >= 0,
    ensures
        ({
            let (s1, _, r) = sweep_from(s, h, token, id, last, n, swept);
            r is Ok ==> {
                &&& cleared(s1, id, last, n, h.timestamp)
                &&& forall|k: u64|
                    k < id ==> (#[trigger] s1.transfers.contains_key(k) == s.transfers.contains_key(k))
                        && s1.transfers[k] == s.transfers[k]
            }
        }),
    decreases last - id + 1,
{
    if id > last || n <= 0 || id < 0 || id > u64::MAX {
    } else {
        let k = id as u64;
        if sweepable(s, k, h.timestamp) && release_check(s, s.transfers[k].amount) is Ok {
            let t = s.transfers[k];
            let s2 = with_released_transfer(s, t, Status::Cancelled);
            let h2 = h.pay(token, h.contract, t.from, t.amount).emit(
                crate::events::cancelled(k, t.from, t.amount),
            );
            assert(keyed_by_id(s2));
            lemma_sweep_clears(s2, h2, token, id + 1, last, n - 1, swept.push(k));
        } else {
            lemma_sweep_clears(s, h, token, id + 1, last, n - 1, swept);
        }
    }
}

/// Repeating an expiry sweep over the same range at the same ledger time,
/// after it succeeded, sweeps nothing and changes nothing.
pub proof fn lemma_sweep_batch_repeat_is_noop(
    s: StorageModel,
    h: HostModel,
    h2: HostModel,
    start_id: u64,
    limit: u32,
)
    requires
        keyed_by_id(s),
        sweep_expired_batch_step(s, h, start_id, limit).result is Ok,
        h2.timestamp == h.timestamp,
    ensures
        ({
            let s1 = sweep_expired_batch_step(s, h, start_id, limit).result->Ok_0.0;
            &&& sweep_expired_batch_step(s1, h2, start_id, limit).result == Ok::<
                (StorageModel, Seq<u64>),
                crate::error::Error,
            >((s1, Seq::empty()))
            &&& sweep_expired_batch_step(s1, h2, start_id, limit).host == h2
        }),
{
    let first = if start_id < 1 {
        1
    } else {
        start_id as int
    };
    let n = if limit < crate::MAX_SWEEP_BATCH_SIZE {
        limit as int
    } else {
        crate::MAX_SWEEP_BATCH_SIZE as int
    };
    let token = s.token->0;
    lemma_sweep_clears(s, h, token, first, s.counter as int, n, Seq::empty());
    lemma_sweep_from_props(s, h, token, first, s.counter as int, n, Seq::empty());
    let s1 = sweep_from(s, h, token, first, s.counter as int, n, Seq::empty()).0;
    lemma_sweep_cleared_is_noop(s1, h2, token, first, s.counter as int, n, Seq::empty());
}

} // verus!
