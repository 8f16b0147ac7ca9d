//! What each entrypoint does, stated over the contents of storage and of the
//! host: the error it returns, or the state it leaves and the value it
//! returns, together with the outside actions it requests.

use vstd::prelude::*;

use crate::accounting::{conservation_check, funded, funding_check, release_check, released};
use crate::address::Address;
use crate::error::Error;
use crate::events;
use crate::host::HostModel;
use crate::storage::{CallerUpdateKey, StorageModel};
use crate::types::{
    BatchOperation, BatchOperationResult, CallerUpdateResult, ReceiptModel, Status, Transfer,
};
use crate::{
    MAX_ACCOUNT_OPS, MAX_AMOUNT, MAX_BATCH_SIZE, MAX_EXPIRY_WINDOW, MAX_PAGE_SIZE,
    MAX_SWEEP_BATCH_SIZE, PRIVILEGED_COOLDOWN,
};

verus! {

/// What an invocation does: the host after it (the actions requested, in
/// order, up to the point of return), and either the error it returns or the
/// state it leaves together with the value it returns. When the invocation
/// returns an error, storage is left as it was.
pub struct Step<T> {
    pub result: Result<(StorageModel, T), Error>,
    pub host: HostModel,
}

pub open spec fn fail<T>(e: Error, h: HostModel) -> Step<T> {
    Step { result: Err(e), host: h }
}

pub open spec fn done<T>(s: StorageModel, t: T, h: HostModel) -> Step<T> {
    Step { result: Ok((s, t)), host: h }
}

/// `step` describes a call that returned `r`, took storage from `before` to
/// `after` and left the host at `host`.
pub open spec fn performs<T>(
    step: Step<T>,
    r: Result<T, Error>,
    before: StorageModel,
    after: StorageModel,
    host: HostModel,
) -> bool {
    &&& host == step.host
    &&& match step.result {
        Ok((s, t)) => r == Ok::<T, Error>(t) && after == s,
        Err(e) => r == Err::<T, Error>(e) && after == before,
    }
}

/// Like [`performs`], but saying nothing of storage when `r` is an error.
pub open spec fn performs_partially<T>(
    step: Step<T>,
    r: Result<T, Error>,
    after: StorageModel,
    host: HostModel,
) -> bool {
    &&& host == step.host
    &&& match step.result {
        Ok((s, t)) => r == Ok::<T, Error>(t) && after == s,
        Err(e) => r == Err::<T, Error>(e),
    }
}

/// A result carrying a vector, read as one carrying its contents.
pub open spec fn seq_result<T>(r: Result<Vec<T>, Error>) -> Result<Seq<T>, Error> {
    match r {
        Ok(v) => Ok(v@),
        Err(e) => Err(e),
    }
}

/// `overall` is what `rest` does, preceded by operations that produced
/// `done_results`.
pub open spec fn continues_with(
    overall: Step<Seq<BatchOperationResult>>,
    rest: Step<Seq<BatchOperationResult>>,
    done_results: Seq<BatchOperationResult>,
) -> bool {
    &&& overall.host == rest.host
    &&& match rest.result {
        Ok((s2, rs)) => overall.result == Ok::<(StorageModel, Seq<BatchOperationResult>), Error>(
            (s2, done_results + rs),
        ),
        Err(e) => overall.result == Err::<(StorageModel, Seq<BatchOperationResult>), Error>(e),
    }
}

/// `now - last`, or zero when `last` is later.
pub open spec fn elapsed(now: u64, last: u64) -> int {
    if now >= last {
        now - last
    } else {
        0
    }
}

/// Privileged calls are rejected within the cooldown after the last one.
pub open spec fn cooldown_check(s: StorageModel, now: u64) -> Result<(), Error> {
    if s.last_privileged_call > 0 && elapsed(now, s.last_privileged_call) < PRIVILEGED_COOLDOWN {
        Err(Error::CooldownNotElapsed)
    } else {
        Ok(())
    }
}

/// The state after a privileged call at `now`.
pub open spec fn privileged_at(s: StorageModel, now: u64) -> StorageModel {
    StorageModel { last_privileged_call: now, ..s }
}

pub open spec fn initialize_step(
    s: StorageModel,
    h: HostModel,
    admin: Address,
    token: Address,
) -> Step<()> {
    if s.admin is Some {
        fail(Error::AlreadyInitialized, h)
    } else if admin == h.contract || token == h.contract {
        fail(Error::InvalidAddress, h)
    } else {
        let s2 = StorageModel {
            admin: Some(admin),
            token: Some(token),
            counter: 0,
            total_escrowed: 0,
            total_funded: 0,
            total_released: 0,
            initialized_at: Some(h.timestamp),
            ..s
        };
        done(s2, (), h.auth(admin).emit(events::init(admin, token)))
    }
}

pub open spec fn set_upgrade_baseline_step(
    s: StorageModel,
    h: HostModel,
    artifact: [u8; 32],
) -> Step<()> {
    if s.upgrade_artifact_hash is Some {
        fail(Error::UpgradeBaselineAlreadySet, h)
    } else if s.admin is None {
        fail(Error::NotInitialized, h)
    } else {
        let admin = s.admin->0;
        let s2 = StorageModel { upgrade_artifact_hash: Some(artifact), upgrade_version: 0, ..s };
        done(s2, (), h.auth(admin).emit(events::upgrade_baseline_set(admin, artifact)))
    }
}

pub open spec fn upgrade_step(
    s: StorageModel,
    h: HostModel,
    expected: [u8; 32],
    replacement: [u8; 32],
    version: u32,
) -> Step<()> {
    if cooldown_check(s, h.timestamp) is Err {
        fail(Error::CooldownNotElapsed, h)
    } else if s.admin is None {
        fail(Error::NotInitialized, h)
    } else {
        let admin = s.admin->0;
        let h1 = h.auth(admin);
        if s.upgrade_artifact_hash is None || s.upgrade_artifact_hash->0 != expected {
            fail(Error::UpgradeArtifactMismatch, h1)
        } else if s.upgrade_artifact_hash->0 == replacement {
            fail(Error::UpgradeArtifactUnchanged, h1)
        } else if s.upgrade_version == u32::MAX || version != s.upgrade_version + 1 {
            fail(Error::UpgradeVersionInvalid, h1)
        } else {
            let s2 = StorageModel {
                upgrade_artifact_hash: Some(replacement),
                upgrade_version: version,
                last_privileged_call: h.timestamp,
                ..s
            };
            done(
                s2,
                (),
                h1.emit(events::upgrade_applied(admin, version, replacement)).update_wasm(
                    replacement,
                ),
            )
        }
    }
}

/// Shared shape of the admin-only pause switches.
pub open spec fn set_paused_step(s: StorageModel, h: HostModel, paused: bool) -> Step<()> {
    if cooldown_check(s, h.timestamp) is Err {
        fail(Error::CooldownNotElapsed, h)
    } else if s.admin is None {
        fail(Error::NotInitialized, h)
    } else {
        let admin = s.admin->0;
        let s2 = StorageModel { paused, last_privileged_call: h.timestamp, ..s };
        let e = if paused {
            events::paused(admin)
        } else {
            events::unpaused(admin)
        };
        done(s2, (), h.auth(admin).emit(e))
    }
}

/// The state after recording a new pending transfer `id`.
pub open spec fn with_new_transfer(
    s: StorageModel,
    id: u64,
    from: Address,
    recipient: Address,
    amount: i128,
    expiry: u64,
) -> StorageModel {
    let t = Transfer { id, from, recipient, amount, expiry, status: Status::Pending };
    let s1 = funded(StorageModel { transfers: s.transfers.insert(id, t), counter: id, ..s }, amount);
    StorageModel {
        account_op_counts: s1.account_op_counts.insert(
            from,
            if s.op_count(from) < u32::MAX {
                (s.op_count(from) + 1) as u32
            } else {
                u32::MAX
            },
        ),
        ..s1
    }
}

pub open spec fn create_transfer_step(
    s: StorageModel,
    h: HostModel,
    from: Address,
    recipient: Address,
    amount: i128,
    expiry: u64,
) -> Step<u64> {
    if s.token is None {
        fail(Error::NotInitialized, h)
    } else if from == h.contract || recipient == h.contract {
        fail(Error::InvalidAddress, h)
    } else if s.paused {
        fail(Error::ContractPaused, h)
    } else if !s.caller_allowed(from) {
        fail(Error::CallerNotAllowed, h)
    } else if amount <= 0 {
        fail(Error::InvalidAmount, h)
    } else if s.op_count(from) >= MAX_ACCOUNT_OPS {
        fail(Error::AccountLimitReached, h)
    } else if amount > MAX_AMOUNT {
        fail(Error::AmountTooLarge, h)
    } else if funding_check(s, amount) is Err {
        fail(funding_check(s, amount)->Err_0, h)
    } else if expiry <= h.timestamp {
        fail(Error::InvalidExpiry, h)
    } else if expiry - h.timestamp > MAX_EXPIRY_WINDOW {
        fail(Error::ExpiryTooFar, h)
    } else if from == recipient {
        fail(Error::SameParty, h)
    } else {
        let h1 = h.auth(from);
        if s.counter == u64::MAX {
            fail(Error::CounterOverflow, h1)
        } else {
            let id = (s.counter + 1) as u64;
            let h2 = h1.pay(s.token->0, from, h.contract, amount);
            let s2 = with_new_transfer(s, id, from, recipient, amount, expiry);
            if conservation_check(s2) is Err {
                fail(conservation_check(s2)->Err_0, h2)
            } else {
                done(
                    s2,
                    id,
                    h2.require_solvency(s2.total_escrowed).emit(
                        events::created(id, from, recipient, amount, expiry),
                    ),
                )
            }
        }
    }
}

/// The state after moving pending transfer `t` to `status` and releasing
/// its amount.
pub open spec fn with_released_transfer(s: StorageModel, t: Transfer, status: Status) -> StorageModel {
    StorageModel {
        transfers: s.transfers.insert(t.id, Transfer { status, ..t }),
        ..released(s, t.amount)
    }
}

/// The release shared by claims, cancellations and sweeps: `t` (stored
/// under `id`) is paid out to `payee` and moved to `status`.
pub open spec fn release_step(
    s: StorageModel,
    h: HostModel,
    id: u64,
    t: Transfer,
    payee: Address,
    status: Status,
) -> Step<()> {
    if s.token is None {
        fail(Error::NotInitialized, h)
    } else if release_check(s, t.amount) is Err {
        fail(release_check(s, t.amount)->Err_0, h)
    } else {
        let h1 = h.pay(s.token->0, h.contract, payee, t.amount);
        let s2 = with_released_transfer(s, t, status);
        if conservation_check(s2) is Err {
            fail(conservation_check(s2)->Err_0, h1)
        } else {
            let h2 = h1.require_solvency(s2.total_escrowed);
            let e = if status == Status::Claimed {
                events::claimed(id, payee, t.amount)
            } else {
                events::cancelled(id, payee, t.amount)
            };
            done(s2, (), h2.emit(e))
        }
    }
}

pub open spec fn claim_transfer_step(s: StorageModel, h: HostModel, id: u64, recipient: Address) -> Step<()> {
    if recipient == h.contract {
        fail(Error::InvalidAddress, h)
    } else if !s.transfers.contains_key(id) {
        fail(Error::TransferNotFound, h)
    } else {
        let t = s.transfers[id];
        if t.recipient != recipient {
            fail(Error::Unauthorized, h)
        } else if t.status != Status::Pending {
            fail(Error::NotPending, h)
        } else if h.timestamp > t.expiry {
            fail(Error::Expired, h)
        } else {
            release_step(s, h.auth(recipient), id, t, recipient, Status::Claimed)
        }
    }
}

pub open spec fn cancel_transfer_step(s: StorageModel, h: HostModel, id: u64, from: Address) -> Step<()> {
    if from == h.contract {
        fail(Error::InvalidAddress, h)
    } else if !s.transfers.contains_key(id) {
        fail(Error::TransferNotFound, h)
    } else {
        let t = s.transfers[id];
        if t.from != from {
            fail(Error::Unauthorized, h)
        } else if t.status != Status::Pending {
            fail(Error::NotPending, h)
        } else if h.timestamp <= t.expiry {
            fail(Error::NotExpired, h)
        } else {
            release_step(s, h.auth(from), id, t, from, Status::Cancelled)
        }
    }
}

pub open spec fn sweep_expired_step(s: StorageModel, h: HostModel, id: u64) -> Step<()> {
    if !s.transfers.contains_key(id) {
        fail(Error::TransferNotFound, h)
    } else {
        let t = s.transfers[id];
        if t.status != Status::Pending {
            fail(Error::NotPending, h)
        } else if h.timestamp <= t.expiry {
            fail(Error::NotExpired, h)
        } else {
            release_step(s, h, id, t, t.from, Status::Cancelled)
        }
    }
}

/// The stored transfers with ids from `id` up to `last`, in ascending id
/// order, at most `n` of them.
pub open spec fn stored_from(s: StorageModel, id: int, last: int, n: int) -> Seq<Transfer>
    decreases last - id + 1,
{
    if id > last || n <= 0 {
        Seq::empty()
    } else if s.transfers.contains_key(id as u64) && 0 <= id <= u64::MAX {
        seq![s.transfers[id as u64]] + stored_from(s, id + 1, last, n - 1)
    } else {
        stored_from(s, id + 1, last, n)
    }
}

/// A page of stored transfers: ids from `max(start_id, 1)` up to the
/// counter, at most `min(limit, MAX_PAGE_SIZE)` records.
pub open spec fn transfers_page(s: StorageModel, start_id: u64, limit: u32) -> Seq<Transfer> {
    let first = if start_id < 1 {
        1
    } else {
        start_id as int
    };
    let size = if limit < MAX_PAGE_SIZE {
        limit as int
    } else {
        MAX_PAGE_SIZE as int
    };
    stored_from(s, first, s.counter as int, size)
}

/// Number of stored transfers with ids in `1..=n` that satisfy `f`.
pub open spec fn count_where(s: StorageModel, n: int, f: spec_fn(Transfer) -> bool) -> nat
    decreases n,
{
    if n <= 0 {
        0
    } else {
        count_where(s, n - 1, f) + if s.transfers.contains_key(n as u64) && f(
            s.transfers[n as u64],
        ) {
            1nat
        } else {
            0nat
        }
    }
}

/// Admin-only allowlist addition.
pub open spec fn add_caller_step(s: StorageModel, h: HostModel, caller: Address) -> Step<()> {
    if cooldown_check(s, h.timestamp) is Err {
        fail(Error::CooldownNotElapsed, h)
    } else if s.admin is None {
        fail(Error::NotInitialized, h)
    } else {
        let h1 = h.auth(s.admin->0);
        if caller == h.contract {
            fail(Error::InvalidAddress, h1)
        } else {
            let s2 = StorageModel {
                allowed_callers: s.allowed_callers.insert(caller, true),
                last_privileged_call: h.timestamp,
                ..s
            };
            done(s2, (), h1.emit(events::caller_added(caller)))
        }
    }
}

/// Admin-only allowlist removal.
pub open spec fn remove_caller_step(s: StorageModel, h: HostModel, caller: Address) -> Step<()> {
    if cooldown_check(s, h.timestamp) is Err {
        fail(Error::CooldownNotElapsed, h)
    } else if s.admin is None {
        fail(Error::NotInitialized, h)
    } else {
        let s2 = StorageModel {
            allowed_callers: s.allowed_callers.remove(caller),
            last_privileged_call: h.timestamp,
            ..s
        };
        done(s2, (), h.auth(s.admin->0).emit(events::caller_removed(caller)))
    }
}

pub open spec fn update_caller_versioned_step(
    s: StorageModel,
    h: HostModel,
    caller: Address,
    allowed: bool,
    version: u64,
) -> Step<CallerUpdateResult> {
    if s.admin is None {
        fail(Error::NotInitialized, h)
    } else {
        let admin = s.admin->0;
        let h1 = h.auth(admin);
        if caller == h.contract {
            fail(Error::InvalidAddress, h1)
        } else if s.update_applied(version, caller, allowed) {
            done(
                s,
                CallerUpdateResult {
                    changed: false,
                    duplicate: true,
                    version: s.caller_registry_version,
                },
                h1,
            )
        } else if cooldown_check(s, h.timestamp) is Err {
            fail(Error::CooldownNotElapsed, h1)
        } else if s.caller_registry_version == u64::MAX {
            fail(Error::CallerUpdateVersionOverflow, h1)
        } else if version != s.caller_registry_version + 1 {
            fail(Error::StaleCallerUpdate, h1)
        } else {
            let s2 = StorageModel {
                allowed_callers: if allowed {
                    s.allowed_callers.insert(caller, true)
                } else {
                    s.allowed_callers.remove(caller)
                },
                caller_registry_version: version,
                caller_updates: s.caller_updates.insert(
                    CallerUpdateKey { version, caller, allowed },
                    true,
                ),
                last_privileged_call: h.timestamp,
                ..s
            };
            done(
                s2,
                CallerUpdateResult { changed: true, duplicate: false, version },
                h1.emit(events::caller_registry_changed(version, admin, caller, allowed)),
            )
        }
    }
}

pub open spec fn transfer_admin_step(s: StorageModel, h: HostModel, new_admin: Address) -> Step<()> {
    if cooldown_check(s, h.timestamp) is Err {
        fail(Error::CooldownNotElapsed, h)
    } else if s.admin is None {
        fail(Error::NotInitialized, h)
    } else {
        let admin = s.admin->0;
        let h1 = h.auth(admin);
        if new_admin == h.contract {
            fail(Error::InvalidAddress, h1)
        } else {
            let s2 = StorageModel {
                pending_admin: Some(new_admin),
                last_privileged_call: h.timestamp,
                ..s
            };
            done(s2, (), h1.emit(events::admin_transfer_started(admin, new_admin)))
        }
    }
}

pub open spec fn accept_admin_step(s: StorageModel, h: HostModel) -> Step<()> {
    if cooldown_check(s, h.timestamp) is Err {
        fail(Error::CooldownNotElapsed, h)
    } else if s.pending_admin is None {
        fail(Error::NoPendingAdmin, h)
    } else {
        let pending = s.pending_admin->0;
        let h1 = h.auth(pending);
        if s.admin is None {
            fail(Error::NotInitialized, h1)
        } else {
            let s2 = StorageModel {
                admin: Some(pending),
                pending_admin: None,
                last_privileged_call: h.timestamp,
                ..s
            };
            done(s2, (), h1.emit(events::admin_transfer_completed(s.admin->0, pending)))
        }
    }
}

/// The state, host and outcome after the sweep has inspected ids from `id`
/// onwards, with `n` more ids allowed, having swept `swept` so far. Each
/// swept transfer passes through the checked release: its amount is paid
/// back to its sender, moved from the pending to the released total, and the
/// transfer is cancelled. A release that the accounting refuses stops the
/// sweep with that error.
pub open spec fn sweep_from(
    s: StorageModel,
    h: HostModel,
    token: Address,
    id: int,
    last: int,
    n: int,
    swept: Seq<u64>,
) -> (StorageModel, HostModel, Result<Seq<u64>, Error>)
    decreases last - id + 1,
{
    if id > last || n <= 0 || id < 0 || id > u64::MAX {
        (s, h, Ok(swept))
    } else {
        let k = id as u64;
        if sweepable(s, k, h.timestamp) {
            let t = s.transfers[k];
            if release_check(s, t.amount) is Err {
                (s, h, Err(release_check(s, t.amount)->Err_0))
            } else {
                let s2 = with_released_transfer(s, t, Status::Cancelled);
                let h2 = h.pay(token, h.contract, t.from, t.amount).emit(
                    events::cancelled(k, t.from, t.amount),
                );
                sweep_from(s2, h2, token, id + 1, last, n - 1, swept.push(k))
            }
        } else {
            sweep_from(s, h, token, id + 1, last, n - 1, swept)
        }
    }
}

/// Whether the transfer under `k` is pending and expired at `now`.
pub open spec fn sweepable(s: StorageModel, k: u64, now: u64) -> bool {
    s.transfers.contains_key(k) && s.transfers[k].status == Status::Pending && now
        > s.transfers[k].expiry
}

pub open spec fn sweep_expired_batch_step(
    s: StorageModel,
    h: HostModel,
    start_id: u64,
    limit: u32,
) -> Step<Seq<u64>> {
    if s.token is None {
        fail(Error::NotInitialized, h)
    } else {
        let first = if start_id < 1 {
            1
        } else {
            start_id as int
        };
        let n = if limit < MAX_SWEEP_BATCH_SIZE {
            limit as int
        } else {
            MAX_SWEEP_BATCH_SIZE as int
        };
        let (s2, h2, r) = sweep_from(s, h, s.token->0, first, s.counter as int, n, Seq::empty());
        match r {
            Err(e) => fail(e, h2),
            Ok(swept) => if swept.len() == 0 {
                done(s2, swept, h2)
            } else if conservation_check(s2) is Err {
                fail(conservation_check(s2)->Err_0, h2)
            } else {
                done(s2, swept, h2.require_solvency(s2.total_escrowed))
            },
        }
    }
}

/// What one batch operation does.
pub open spec fn operation_step(
    s: StorageModel,
    h: HostModel,
    op: BatchOperation,
) -> Step<BatchOperationResult> {
    match op {
        BatchOperation::Create(p) => {
            let st = create_transfer_step(s, h, p.from, p.recipient, p.amount, p.expiry);
            match st.result {
                Ok((s2, id)) => done(s2, BatchOperationResult::Created(id), st.host),
                Err(e) => fail(e, st.host),
            }
        },
        BatchOperation::Claim(p) => {
            let st = claim_transfer_step(s, h, p.id, p.recipient);
            match st.result {
                Ok((s2, _)) => done(s2, BatchOperationResult::Claimed, st.host),
                Err(e) => fail(e, st.host),
            }
        },
        BatchOperation::Cancel(p) => {
            let st = cancel_transfer_step(s, h, p.id, p.from);
            match st.result {
                Ok((s2, _)) => done(s2, BatchOperationResult::Cancelled, st.host),
                Err(e) => fail(e, st.host),
            }
        },
    }
}

/// The operations `ops` run in order, each on the state the previous one
/// left, stopping at the first error.
pub open spec fn operations_step(
    s: StorageModel,
    h: HostModel,
    ops: Seq<BatchOperation>,
) -> Step<Seq<BatchOperationResult>>
    decreases ops.len(),
{
    if ops.len() == 0 {
        done(s, Seq::empty(), h)
    } else {
        let first = operation_step(s, h, ops[0]);
        match first.result {
            Err(e) => fail(e, first.host),
            Ok((s1, r0)) => {
                let rest = operations_step(s1, first.host, ops.drop_first());
                match rest.result {
                    Err(e) => fail(e, rest.host),
                    Ok((s2, rs)) => done(s2, seq![r0] + rs, rest.host),
                }
            },
        }
    }
}

pub open spec fn batch_operations_step(
    s: StorageModel,
    h: HostModel,
    ops: Seq<BatchOperation>,
) -> Step<Seq<BatchOperationResult>> {
    if ops.len() > MAX_BATCH_SIZE {
        fail(Error::BatchTooLarge, h)
    } else {
        operations_step(s, h, ops)
    }
}

pub open spec fn batch_operations_idempotent_step(
    s: StorageModel,
    h: HostModel,
    batch_id: u64,
    ops: Seq<BatchOperation>,
) -> Step<Seq<BatchOperationResult>> {
    if batch_id == 0 {
        fail(Error::InvalidBatchId, h)
    } else if s.batch_receipts.contains_key(batch_id) {
        if s.batch_receipts[batch_id].operations != ops {
            fail(Error::BatchIdConflict, h)
        } else {
            done(s, s.batch_receipts[batch_id].results, h)
        }
    } else {
        let st = batch_operations_step(s, h, ops);
        match st.result {
            Err(e) => fail(e, st.host),
            Ok((s2, results)) => done(
                StorageModel {
                    batch_receipts: s2.batch_receipts.insert(
                        batch_id,
                        ReceiptModel { operations: ops, results },
                    ),
                    ..s2
                },
                results,
                st.host,
            ),
        }
    }
}

} // verus!
