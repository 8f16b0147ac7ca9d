//! The entrypoints of the escrow.

use vstd::prelude::*;

use crate::accounting::{EscrowAccounting, invariant_check};
use crate::address::Address;
use crate::error::Error;
use crate::events;
use crate::host::Host;
use crate::model::{
    cooldown_check, performs, performs_partially, initialize_step, set_upgrade_baseline_step,
    upgrade_step, set_paused_step, create_transfer_step, release_step, claim_transfer_step,
    cancel_transfer_step, sweep_expired_step, transfers_page, stored_from, count_where,
    add_caller_step, remove_caller_step, update_caller_versioned_step, transfer_admin_step,
    accept_admin_step, seq_result, sweep_from, sweepable, sweep_expired_batch_step, operation_step,
    fail, operations_step, batch_operations_step, batch_operations_idempotent_step, continues_with,
};
use crate::storage::{Storage, StorageModel};
use crate::types::{
    copy_results, same_artifact, same_operations, BatchOperation, BatchOperationResult, BatchReceipt,
    CallerUpdateResult, ConfiguredLimits, Status, Transfer,
};
use crate::RemitFlowContract;
use crate::normalize::{checked_increment, saturating_add_with_cap};
use crate::{MAX_ACCOUNT_OPS, MAX_AMOUNT, MAX_BATCH_SIZE, MAX_SWEEP_BATCH_SIZE, MAX_EXPIRY_WINDOW, MAX_PAGE_SIZE, MAX_TOTAL_ESCROWED, PRIVILEGED_COOLDOWN};

verus! {

/// Reject the contract's own address where an external party is required.
fn require_external_address(host: &Host, address: &Address) -> (r: Result<(), Error>)
    ensures
        r == (if *address == host.contract {
            Err::<(), Error>(Error::InvalidAddress)
        } else {
            Ok(())
        }),
{
    if address.same(&host.contract) {
        return Err(Error::InvalidAddress);
    }
    Ok(())
}

/// Reject a privileged call made within the cooldown after the last one.
fn require_cooldown(storage: &Storage, now: u64) -> (r: Result<(), Error>)
    ensures
        r == cooldown_check(storage@, now),
{
    let last = storage.get_last_privileged_call();
    if last > 0 {
        if now.saturating_sub(last) < PRIVILEGED_COOLDOWN {
            return Err(Error::CooldownNotElapsed);
        }
    }
    Ok(())
}

/// The administrator, or `NotInitialized`.
fn require_admin(storage: &Storage) -> (r: Result<Address, Error>)
    ensures
        r == (match storage@.admin {
            Some(a) => Ok::<Address, Error>(a),
            None => Err(Error::NotInitialized),
        }),
{
    match storage.get_admin() {
        Some(a) => Ok(a),
        None => Err(Error::NotInitialized),
    }
}

/// What a counting query selects transfers by.
enum Criterion {
    Sender(Address),
    Recipient(Address),
    InStatus(Status),
}

spec fn criterion_holds(c: Criterion, t: Transfer) -> bool {
    match c {
        Criterion::Sender(a) => t.from == a,
        Criterion::Recipient(a) => t.recipient == a,
        Criterion::InStatus(st) => t.status == st,
    }
}

impl Criterion {
    fn holds(&self, t: &Transfer) -> (r: bool)
        ensures
            r == criterion_holds(*self, *t),
    {
        match self {
            Criterion::Sender(a) => t.from.same(a),
            Criterion::Recipient(a) => t.recipient.same(a),
            Criterion::InStatus(st) => t.status == *st,
        }
    }
}

impl RemitFlowContract {
    /// A freshly deployed contract, with nothing stored.
    pub fn new() -> (r: RemitFlowContract)
        ensures
            r@ == crate::storage::empty_storage(),
    {
        RemitFlowContract { storage: Storage::new() }
    }

    /// Configure the administrator and the escrow token, once.
    pub fn initialize(&mut self, host: &mut Host, admin: Address, token: Address) -> (r: Result<
        (),
        Error,
    >)
        ensures
            performs(
                initialize_step(old(self)@, old(host)@, admin, token),
                r,
                old(self)@,
                final(self)@,
                final(host)@,
            ),
    {
        if self.storage.has_admin() {
            return Err(Error::AlreadyInitialized);
        }
        require_external_address(host, &admin)?;
        require_external_address(host, &token)?;
        host.require_auth(admin);
        self.storage.set_admin(&admin);
        self.storage.set_token(&token);
        self.storage.set_counter(0);
        self.storage.set_total_escrowed(0);
        self.storage.set_total_funded(0);
        self.storage.set_total_released(0);
        self.storage.set_initialized_at(host.timestamp);
        host.publish(events::init(admin, token));
        Ok(())
    }

    /// The administrator address.
    pub fn get_admin(&self) -> (r: Result<Address, Error>)
        ensures
            r == (match self@.admin {
                Some(a) => Ok::<Address, Error>(a),
                None => Err(Error::NotInitialized),
            }),
    {
        require_admin(&self.storage)
    }

    /// The escrow token address.
    pub fn get_token(&self) -> (r: Result<Address, Error>)
        ensures
            r == (match self@.token {
                Some(a) => Ok::<Address, Error>(a),
                None => Err(Error::NotInitialized),
            }),
    {
        match self.storage.get_token() {
            Some(a) => Ok(a),
            None => Err(Error::NotInitialized),
        }
    }

    /// The ledger timestamp of initialization.
    pub fn get_initialized_at(&self) -> (r: Result<u64, Error>)
        ensures
            r == (match self@.initialized_at {
                Some(t) => Ok::<u64, Error>(t),
                None => Err(Error::NotInitialized),
            }),
    {
        match self.storage.get_initialized_at() {
            Some(t) => Ok(t),
            None => Err(Error::NotInitialized),
        }
    }

    /// Record the currently deployed artifact before enabling replacements:
    /// a one-time, admin-authorized operation.
    pub fn set_upgrade_baseline(&mut self, host: &mut Host, artifact: [u8; 32]) -> (r: Result<
        (),
        Error,
    >)
        ensures
            performs(
                set_upgrade_baseline_step(old(self)@, old(host)@, artifact),
                r,
                old(self)@,
                final(self)@,
                final(host)@,
            ),
    {
        if self.storage.get_upgrade_artifact_hash().is_some() {
            return Err(Error::UpgradeBaselineAlreadySet);
        }
        let admin = require_admin(&self.storage)?;
        host.require_auth(admin);
        self.storage.set_upgrade_artifact_hash(&artifact);
        self.storage.set_upgrade_version(0);
        host.publish(events::upgrade_baseline_set(admin, artifact));
        Ok(())
    }

    /// Replace the contract wasm, only after checking the exact expected
    /// artifact and the next sequential release number.
    pub fn upgrade(
        &mut self,
        host: &mut Host,
        expected_artifact: [u8; 32],
        replacement_artifact: [u8; 32],
        version: u32,
    ) -> (r: Result<(), Error>)
        ensures
            performs(
                upgrade_step(old(self)@, old(host)@, expected_artifact, replacement_artifact, version),
                r,
                old(self)@,
                final(self)@,
                final(host)@,
            ),
    {
        require_cooldown(&self.storage, host.timestamp)?;
        let admin = require_admin(&self.storage)?;
        host.require_auth(admin);
        let current = match self.storage.get_upgrade_artifact_hash() {
            Some(c) => c,
            None => return Err(Error::UpgradeArtifactMismatch),
        };
        if !same_artifact(&current, &expected_artifact) {
            return Err(Error::UpgradeArtifactMismatch);
        }
        if same_artifact(&current, &replacement_artifact) {
            return Err(Error::UpgradeArtifactUnchanged);
        }
        let current_version = self.storage.get_upgrade_version();
        let next = match current_version.checked_add(1) {
            Some(n) => n,
            None => return Err(Error::UpgradeVersionInvalid),
        };
        if version != next {
            return Err(Error::UpgradeVersionInvalid);
        }
        self.storage.set_upgrade_artifact_hash(&replacement_artifact);
        self.storage.set_upgrade_version(version);
        self.storage.set_last_privileged_call(host.timestamp);
        host.publish(events::upgrade_applied(admin, version, replacement_artifact));
        host.update_current_contract_wasm(replacement_artifact);
        Ok(())
    }

    /// The hash of the recorded wasm artifact.
    pub fn get_upgrade_artifact(&self) -> (r: Result<[u8; 32], Error>)
        ensures
            r == (match self@.upgrade_artifact_hash {
                Some(a) => Ok::<[u8; 32], Error>(a),
                None => Err(Error::NotInitialized),
            }),
    {
        match self.storage.get_upgrade_artifact_hash() {
            Some(a) => Ok(a),
            None => Err(Error::NotInitialized),
        }
    }

    /// The release number of the recorded wasm artifact.
    pub fn get_upgrade_version(&self) -> (r: u32)
        ensures
            r == self@.upgrade_version,
    {
        self.storage.get_upgrade_version()
    }

    /// The id of the most recently created transfer (zero before any).
    pub fn counter(&self) -> (r: u64)
        ensures
            r == self@.counter,
    {
        self.storage.get_counter()
    }

    fn set_paused_flag(&mut self, host: &mut Host, paused: bool) -> (r: Result<(), Error>)
        ensures
            performs(
                set_paused_step(old(self)@, old(host)@, paused),
                r,
                old(self)@,
                final(self)@,
                final(host)@,
            ),
    {
        require_cooldown(&self.storage, host.timestamp)?;
        let admin = require_admin(&self.storage)?;
        host.require_auth(admin);
        self.storage.set_paused(paused);
        self.storage.set_last_privileged_call(host.timestamp);
        if paused {
            host.publish(events::paused(admin));
        } else {
            host.publish(events::unpaused(admin));
        }
        Ok(())
    }

    /// Stop the creation of new transfers (admin only).
    pub fn pause(&mut self, host: &mut Host) -> (r: Result<(), Error>)
        ensures
            performs(
                set_paused_step(old(self)@, old(host)@, true),
                r,
                old(self)@,
                final(self)@,
                final(host)@,
            ),
    {
        self.set_paused_flag(host, true)
    }

    /// Allow the creation of new transfers again (admin only).
    pub fn unpause(&mut self, host: &mut Host) -> (r: Result<(), Error>)
        ensures
            performs(
                set_paused_step(old(self)@, old(host)@, false),
                r,
                old(self)@,
                final(self)@,
                final(host)@,
            ),
    {
        self.set_paused_flag(host, false)
    }

    /// Whether new transfers are currently refused.
    pub fn is_paused(&self) -> (r: bool)
        ensures
            r == self@.paused,
    {
        self.storage.get_paused()
    }

    fn create_transfer_inner(
        &mut self,
        host: &mut Host,
        from: Address,
        recipient: Address,
        amount: i128,
        expiry: u64,
    ) -> (r: Result<u64, Error>)
        ensures
            performs_partially(
                create_transfer_step(old(self)@, old(host)@, from, recipient, amount, expiry),
                r,
                final(self)@,
                final(host)@,
            ),
    {
        let token = match self.storage.get_token() {
            Some(t) => t,
            None => return Err(Error::NotInitialized),
        };
        require_external_address(host, &from)?;
        require_external_address(host, &recipient)?;
        if self.storage.get_paused() {
            return Err(Error::ContractPaused);
        }
        if !self.storage.is_caller_allowed(&from) {
            return Err(Error::CallerNotAllowed);
        }
        if amount <= 0 {
            return Err(Error::InvalidAmount);
        }
        if self.storage.get_account_op_count(&from) >= MAX_ACCOUNT_OPS {
            return Err(Error::AccountLimitReached);
        }
        if amount > MAX_AMOUNT {
            return Err(Error::AmountTooLarge);
        }
        EscrowAccounting::validate_funding(&self.storage, amount)?;
        let now = host.timestamp;
        if expiry <= now {
            return Err(Error::InvalidExpiry);
        }
        if expiry - now > MAX_EXPIRY_WINDOW {
            return Err(Error::ExpiryTooFar);
        }
        if from.same(&recipient) {
            return Err(Error::SameParty);
        }
        host.require_auth(from);
        let id = match checked_increment(self.storage.get_counter()) {
            Some(i) => i,
            None => return Err(Error::CounterOverflow),
        };
        let contract = host.contract;
        host.transfer(token, from, contract, amount);
        let transfer = Transfer { id, from, recipient, amount, expiry, status: Status::Pending };
        self.storage.set_transfer(&transfer);
        self.storage.set_counter(id);
        EscrowAccounting::record_funding(&mut self.storage, amount)?;
        self.storage.increment_account_op_count(&from);
        EscrowAccounting::assert_conserved(&self.storage)?;
        host.require_solvency(self.storage.get_total_escrowed());
        host.publish(events::created(id, from, recipient, amount, expiry));
        Ok(id)
    }

    /// Lock `amount` of the escrow token from `from` for `recipient` until
    /// `expiry`; returns the new transfer id.
    pub fn create_transfer(
        &mut self,
        host: &mut Host,
        from: Address,
        recipient: Address,
        amount: i128,
        expiry: u64,
    ) -> (r: Result<u64, Error>)
        ensures
            performs(
                create_transfer_step(old(self)@, old(host)@, from, recipient, amount, expiry),
                r,
                old(self)@,
                final(self)@,
                final(host)@,
            ),
    {
        let saved = self.storage.snapshot();
        let r = self.create_transfer_inner(host, from, recipient, amount, expiry);
        if r.is_err() {
            self.storage = saved;
        }
        r
    }

    /// Pay out pending transfer `t`, stored under `id`, to `payee`, moving it
    /// to `status`.
    fn release(
        &mut self,
        host: &mut Host,
        id: u64,
        t: Transfer,
        payee: Address,
        status: Status,
    ) -> (r: Result<(), Error>)
        ensures
            performs_partially(
                release_step(old(self)@, old(host)@, id, t, payee, status),
                r,
                final(self)@,
                final(host)@,
            ),
    {
        let token = match self.storage.get_token() {
            Some(tk) => tk,
            None => return Err(Error::NotInitialized),
        };
        EscrowAccounting::validate_release(&self.storage, t.amount)?;
        let contract = host.contract;
        host.transfer(token, contract, payee, t.amount);
        let updated = Transfer { status, ..t };
        EscrowAccounting::record_release(&mut self.storage, t.amount)?;
        EscrowAccounting::assert_conserved(&self.storage)?;
        host.require_solvency(self.storage.get_total_escrowed());
        self.storage.set_transfer(&updated);
        if status == Status::Claimed {
            host.publish(events::claimed(id, payee, t.amount));
        } else {
            host.publish(events::cancelled(id, payee, t.amount));
        }
        Ok(())
    }

    fn claim_transfer_inner(&mut self, host: &mut Host, id: u64, recipient: Address) -> (r: Result<
        (),
        Error,
    >)
        ensures
            performs_partially(
                claim_transfer_step(old(self)@, old(host)@, id, recipient),
                r,
                final(self)@,
                final(host)@,
            ),
    {
        require_external_address(host, &recipient)?;
        let t = match self.storage.get_transfer(id) {
            Some(t) => t,
            None => return Err(Error::TransferNotFound),
        };
        if !t.recipient.same(&recipient) {
            return Err(Error::Unauthorized);
        }
        if t.status != Status::Pending {
            return Err(Error::NotPending);
        }
        if host.timestamp > t.expiry {
            return Err(Error::Expired);
        }
        host.require_auth(recipient);
        self.release(host, id, t, recipient, Status::Claimed)
    }

    /// The recipient takes the funds of pending transfer `id`, at the latest
    /// at its expiry.
    pub fn claim_transfer(&mut self, host: &mut Host, id: u64, recipient: Address) -> (r: Result<
        (),
        Error,
    >)
        ensures
            performs(
                claim_transfer_step(old(self)@, old(host)@, id, recipient),
                r,
                old(self)@,
                final(self)@,
                final(host)@,
            ),
    {
        let saved = self.storage.snapshot();
        let r = self.claim_transfer_inner(host, id, recipient);
        if r.is_err() {
            self.storage = saved;
        }
        r
    }

    fn cancel_transfer_inner(&mut self, host: &mut Host, id: u64, from: Address) -> (r: Result<
        (),
        Error,
    >)
        ensures
            performs_partially(
                cancel_transfer_step(old(self)@, old(host)@, id, from),
                r,
                final(self)@,
                final(host)@,
            ),
    {
        require_external_address(host, &from)?;
        let t = match self.storage.get_transfer(id) {
            Some(t) => t,
            None => return Err(Error::TransferNotFound),
        };
        if !t.from.same(&from) {
            return Err(Error::Unauthorized);
        }
        if t.status != Status::Pending {
            return Err(Error::NotPending);
        }
        if host.timestamp <= t.expiry {
            return Err(Error::NotExpired);
        }
        host.require_auth(from);
        self.release(host, id, t, from, Status::Cancelled)
    }

    /// The sender takes back the funds of pending transfer `id`, once it has
    /// expired.
    pub fn cancel_transfer(&mut self, host: &mut Host, id: u64, from: Address) -> (r: Result<
        (),
        Error,
    >)
        ensures
            performs(
                cancel_transfer_step(old(self)@, old(host)@, id, from),
                r,
                old(self)@,
                final(self)@,
                final(host)@,
            ),
    {
        let saved = self.storage.snapshot();
        let r = self.cancel_transfer_inner(host, id, from);
        if r.is_err() {
            self.storage = saved;
        }
        r
    }

    fn sweep_expired_inner(&mut self, host: &mut Host, id: u64) -> (r: Result<(), Error>)
        ensures
            performs_partially(
                sweep_expired_step(old(self)@, old(host)@, id),
                r,
                final(self)@,
                final(host)@,
            ),
    {
        let t = match self.storage.get_transfer(id) {
            Some(t) => t,
            None => return Err(Error::TransferNotFound),
        };
        if t.status != Status::Pending {
            return Err(Error::NotPending);
        }
        if host.timestamp <= t.expiry {
            return Err(Error::NotExpired);
        }
        self.release(host, id, t, t.from, Status::Cancelled)
    }

    /// Return the funds of expired pending transfer `id` to its sender.
    /// Anyone may call this.
    pub fn sweep_expired(&mut self, host: &mut Host, id: u64) -> (r: Result<(), Error>)
        ensures
            performs(
                sweep_expired_step(old(self)@, old(host)@, id),
                r,
                old(self)@,
                final(self)@,
                final(host)@,
            ),
    {
        let saved = self.storage.snapshot();
        let r = self.sweep_expired_inner(host, id);
        if r.is_err() {
            self.storage = saved;
        }
        r
    }

    /// The transfer stored under `id`.
    pub fn get_transfer(&self, id: u64) -> (r: Result<Transfer, Error>)
        ensures
            r == (if self@.transfers.contains_key(id) {
                Ok::<Transfer, Error>(self@.transfers[id])
            } else {
                Err(Error::TransferNotFound)
            }),
    {
        match self.storage.get_transfer(id) {
            Some(t) => Ok(t),
            None => Err(Error::TransferNotFound),
        }
    }

    /// Whether a transfer is stored under `id`.
    pub fn transfer_exists(&self, id: u64) -> (r: bool)
        ensures
            r == self@.transfers.contains_key(id),
    {
        self.storage.has_transfer(id)
    }

    /// The status of the transfer stored under `id`.
    pub fn get_status(&self, id: u64) -> (r: Result<Status, Error>)
        ensures
            r == (if self@.transfers.contains_key(id) {
                Ok::<Status, Error>(self@.transfers[id].status)
            } else {
                Err(Error::TransferNotFound)
            }),
    {
        match self.storage.get_transfer(id) {
            Some(t) => Ok(t.status),
            None => Err(Error::TransferNotFound),
        }
    }

    /// The stored transfers with ids from `max(start_id, 1)` up to the
    /// counter, in ascending id order, at most `min(limit, MAX_PAGE_SIZE)`.
    pub fn get_transfers_paged(&self, start_id: u64, limit: u32) -> (r: Vec<Transfer>)
        ensures
            r@ == transfers_page(self@, start_id, limit),
    {
        let last = self.storage.get_counter();
        let mut page: Vec<Transfer> = Vec::new();
        let mut id: u64 = if start_id < 1 {
            1
        } else {
            start_id
        };
        let page_size: u32 = if limit < MAX_PAGE_SIZE {
            limit
        } else {
            MAX_PAGE_SIZE
        };
        let ghost first = id as int;
        let ghost s = self@;
        proof {
            assert(page@ + stored_from(s, id as int, last as int, page_size - page@.len())
                =~= stored_from(s, first, last as int, page_size as int));
        }
        while id <= last && page.len() < page_size as usize
            invariant_except_break
                page@ + stored_from(s, id as int, last as int, page_size - page@.len())
                    == stored_from(s, first, last as int, page_size as int),
            invariant
                s == self@,
                last == s.counter,
                page@.len() <= page_size,
            ensures
                page@ == stored_from(s, first, last as int, page_size as int),
            decreases last - id + 1,
        {
            let ghost before = page@;
            let ghost n = page_size - page@.len();
            proof {
                assert(stored_from(s, id as int, last as int, n) == (if s.transfers.contains_key(id) {
                    seq![s.transfers[id]] + stored_from(s, id + 1, last as int, n - 1)
                } else {
                    stored_from(s, id + 1, last as int, n)
                }));
            }
            match self.storage.get_transfer(id) {
                Some(t) => {
                    page.push(t);
                    proof {
                        assert(page@ =~= before + seq![t]);
                        assert(page@ + stored_from(s, id + 1, last as int, page_size - page@.len())
                            =~= before + stored_from(s, id as int, last as int, n));
                    }
                },
                None => {},
            }
            match id.checked_add(1) {
                Some(next_id) => id = next_id,
                None => {
                    proof {
                        assert(stored_from(s, id + 1, last as int, page_size - page@.len())
                            =~= Seq::<Transfer>::empty());
                        assert(page@ =~= page@ + stored_from(
                            s,
                            id + 1,
                            last as int,
                            page_size - page@.len(),
                        ));
                    }
                    break;
                },
            }
        }
        page
    }

    /// Number of stored transfers with ids up to the counter that meet `c`.
    fn count_matching(&self, c: Criterion) -> (r: u64)
        requires
            self@.counter < u64::MAX,
        ensures
            r == count_where(self@, self@.counter as int, |t: Transfer| criterion_holds(c, t)),
    {
        let ghost f = |t: Transfer| criterion_holds(c, t);
        let last = self.storage.get_counter();
        let mut count: u64 = 0;
        let mut id: u64 = 1;
        while id <= last
            invariant
                1 <= id <= last + 1,
                f == (|t: Transfer| criterion_holds(c, t)),
                last == self@.counter,
                last < u64::MAX,
                count == count_where(self@, id - 1, f),
                count <= id - 1,
            decreases last - id + 1,
        {
            match self.storage.get_transfer(id) {
                Some(transfer) => {
                    if c.holds(&transfer) {
                        count = saturating_add_with_cap(count, 1, u64::MAX);
                    }
                },
                None => {},
            }
            proof {
                assert(count_where(self@, id as int, f) == count_where(self@, id - 1, f) + (
                if self@.transfers.contains_key(id) && f(self@.transfers[id]) {
                    1nat
                } else {
                    0nat
                }));
            }
            id += 1;
        }
        count
    }

    /// Number of stored transfers sent by `from`.
    pub fn count_for_sender(&self, from: Address) -> (r: u64)
        requires
            self@.counter < u64::MAX,
        ensures
            r == count_where(self@, self@.counter as int, |t: Transfer| t.from == from),
    {
        let r = self.count_matching(Criterion::Sender(from));
        proof {
            assert((|t: Transfer| criterion_holds(Criterion::Sender(from), t)) =~= (|t: Transfer|
                t.from == from));
        }
        r
    }

    /// Number of stored transfers addressed to `recipient`.
    pub fn count_for_recipient(&self, recipient: Address) -> (r: u64)
        requires
            self@.counter < u64::MAX,
        ensures
            r == count_where(self@, self@.counter as int, |t: Transfer| t.recipient == recipient),
    {
        let r = self.count_matching(Criterion::Recipient(recipient));
        proof {
            assert((|t: Transfer| criterion_holds(Criterion::Recipient(recipient), t)) =~= (|
                t: Transfer,
            | t.recipient == recipient));
        }
        r
    }

    /// Number of stored transfers in `status`.
    pub fn count_by_status(&self, status: Status) -> (r: u64)
        requires
            self@.counter < u64::MAX,
        ensures
            r == count_where(self@, self@.counter as int, |t: Transfer| t.status == status),
    {
        let r = self.count_matching(Criterion::InStatus(status));
        proof {
            assert((|t: Transfer| criterion_holds(Criterion::InStatus(status), t)) =~= (|t: Transfer|
                t.status == status));
        }
        r
    }

    /// The running total of pending escrowed amounts.
    pub fn total_escrowed(&self) -> (r: i128)
        ensures
            r == self@.total_escrowed,
    {
        self.storage.get_total_escrowed()
    }

    /// The cumulative amount funded into escrow.
    pub fn total_funded(&self) -> (r: i128)
        ensures
            r == self@.total_funded,
    {
        self.storage.get_total_funded()
    }

    /// The cumulative amount released by claims and refunds.
    pub fn total_released(&self) -> (r: i128)
        ensures
            r == self@.total_released,
    {
        self.storage.get_total_released()
    }

    /// Check conservation of the totals and that the contract's token balance
    /// (`host.balance`) covers the pending total.
    pub fn check_supply_invariant(&self, host: &Host) -> (r: Result<(), Error>)
        ensures
            r == (if self@.token is None {
                Err::<(), Error>(Error::NotInitialized)
            } else {
                invariant_check(self@, host.balance)
            }),
    {
        if self.storage.get_token().is_none() {
            return Err(Error::NotInitialized);
        }
        EscrowAccounting::assert_invariant(&self.storage, host.balance)
    }

    /// Whether transfer `id` is past its expiry at the host's timestamp.
    pub fn is_expired(&self, host: &Host, id: u64) -> (r: Result<bool, Error>)
        ensures
            r == (if self@.transfers.contains_key(id) {
                Ok::<bool, Error>(host.timestamp > self@.transfers[id].expiry)
            } else {
                Err(Error::TransferNotFound)
            }),
    {
        match self.storage.get_transfer(id) {
            Some(t) => Ok(host.timestamp > t.expiry),
            None => Err(Error::TransferNotFound),
        }
    }

    /// Add `caller` to the allowlist of senders (admin only).
    pub fn add_caller(&mut self, host: &mut Host, caller: Address) -> (r: Result<(), Error>)
        ensures
            performs(
                add_caller_step(old(self)@, old(host)@, caller),
                r,
                old(self)@,
                final(self)@,
                final(host)@,
            ),
    {
        require_cooldown(&self.storage, host.timestamp)?;
        let admin = require_admin(&self.storage)?;
        host.require_auth(admin);
        require_external_address(host, &caller)?;
        self.storage.set_caller_allowed(&caller, true);
        self.storage.set_last_privileged_call(host.timestamp);
        host.publish(events::caller_added(caller));
        Ok(())
    }

    /// Remove `caller` from the allowlist of senders (admin only).
    pub fn remove_caller(&mut self, host: &mut Host, caller: Address) -> (r: Result<(), Error>)
        ensures
            performs(
                remove_caller_step(old(self)@, old(host)@, caller),
                r,
                old(self)@,
                final(self)@,
                final(host)@,
            ),
    {
        require_cooldown(&self.storage, host.timestamp)?;
        let admin = require_admin(&self.storage)?;
        host.require_auth(admin);
        self.storage.set_caller_allowed(&caller, false);
        self.storage.set_last_privileged_call(host.timestamp);
        host.publish(events::caller_removed(caller));
        Ok(())
    }

    /// Whether `caller` may create transfers.
    pub fn is_caller_allowed(&self, caller: Address) -> (r: bool)
        ensures
            r == self@.caller_allowed(caller),
    {
        self.storage.is_caller_allowed(&caller)
    }

    /// Apply an admin-authorized caller update at the next registry version.
    /// Replaying the exact `(version, caller, allowed)` tuple changes nothing
    /// and publishes nothing; other stale updates are rejected.
    pub fn update_caller_versioned(
        &mut self,
        host: &mut Host,
        caller: Address,
        allowed: bool,
        version: u64,
    ) -> (r: Result<CallerUpdateResult, Error>)
        ensures
            performs(
                update_caller_versioned_step(old(self)@, old(host)@, caller, allowed, version),
                r,
                old(self)@,
                final(self)@,
                final(host)@,
            ),
    {
        let admin = require_admin(&self.storage)?;
        host.require_auth(admin);
        require_external_address(host, &caller)?;
        if self.storage.has_caller_update(version, &caller, allowed) {
            return Ok(
                CallerUpdateResult {
                    changed: false,
                    duplicate: true,
                    version: self.storage.get_caller_registry_version(),
                },
            );
        }
        require_cooldown(&self.storage, host.timestamp)?;
        let current = self.storage.get_caller_registry_version();
        let expected = match current.checked_add(1) {
            Some(e) => e,
            None => return Err(Error::CallerUpdateVersionOverflow),
        };
        if version != expected {
            return Err(Error::StaleCallerUpdate);
        }
        self.storage.set_caller_allowed(&caller, allowed);
        self.storage.set_caller_registry_version(version);
        self.storage.set_caller_update(version, &caller, allowed);
        self.storage.set_last_privileged_call(host.timestamp);
        host.publish(events::caller_registry_changed(version, admin, caller, allowed));
        Ok(CallerUpdateResult { changed: true, duplicate: false, version })
    }

    /// The version of the allowed-caller registry.
    pub fn caller_registry_version(&self) -> (r: u64)
        ensures
            r == self@.caller_registry_version,
    {
        self.storage.get_caller_registry_version()
    }

    /// Nominate `new_admin` as the next administrator (admin only). The
    /// nominee completes the handover with [`Self::accept_admin`].
    pub fn transfer_admin(&mut self, host: &mut Host, new_admin: Address) -> (r: Result<(), Error>)
        ensures
            performs(
                transfer_admin_step(old(self)@, old(host)@, new_admin),
                r,
                old(self)@,
                final(self)@,
                final(host)@,
            ),
    {
        require_cooldown(&self.storage, host.timestamp)?;
        let admin = require_admin(&self.storage)?;
        host.require_auth(admin);
        require_external_address(host, &new_admin)?;
        self.storage.set_pending_admin(&new_admin);
        self.storage.set_last_privileged_call(host.timestamp);
        host.publish(events::admin_transfer_started(admin, new_admin));
        Ok(())
    }

    /// The nominee takes over the administrator role.
    pub fn accept_admin(&mut self, host: &mut Host) -> (r: Result<(), Error>)
        ensures
            performs(
                accept_admin_step(old(self)@, old(host)@),
                r,
                old(self)@,
                final(self)@,
                final(host)@,
            ),
    {
        require_cooldown(&self.storage, host.timestamp)?;
        let pending = match self.storage.get_pending_admin() {
            Some(p) => p,
            None => return Err(Error::NoPendingAdmin),
        };
        host.require_auth(pending);
        let old_admin = require_admin(&self.storage)?;
        self.storage.set_admin(&pending);
        self.storage.clear_pending_admin();
        self.storage.set_last_privileged_call(host.timestamp);
        host.publish(events::admin_transfer_completed(old_admin, pending));
        Ok(())
    }

    /// The nominated administrator, if a handover is in progress.
    pub fn get_pending_admin(&self) -> (r: Option<Address>)
        ensures
            r == self@.pending_admin,
    {
        self.storage.get_pending_admin()
    }

    /// The configured limits of the contract.
    pub fn get_limits(&self) -> (r: ConfiguredLimits)
        ensures
            r == (ConfiguredLimits {
                max_amount: MAX_AMOUNT,
                max_expiry_window: MAX_EXPIRY_WINDOW,
                max_total_escrowed: MAX_TOTAL_ESCROWED,
                max_page_size: MAX_PAGE_SIZE,
            }),
    {
        ConfiguredLimits {
            max_amount: MAX_AMOUNT,
            max_expiry_window: MAX_EXPIRY_WINDOW,
            max_total_escrowed: MAX_TOTAL_ESCROWED,
            max_page_size: MAX_PAGE_SIZE,
        }
    }

    fn sweep_expired_batch_inner(&mut self, host: &mut Host, start_id: u64, limit: u32) -> (r:
        Result<Vec<u64>, Error>)
        ensures
            performs_partially(
                sweep_expired_batch_step(old(self)@, old(host)@, start_id, limit),
                seq_result(r),
                final(self)@,
                final(host)@,
            ),
    {
        let token = match self.storage.get_token() {
            Some(t) => t,
            None => return Err(Error::NotInitialized),
        };
        let mut swept: Vec<u64> = Vec::new();
        let mut id: u64 = if start_id < 1 {
            1
        } else {
            start_id
        };
        let mut inspected: u32 = 0;
        let max_inspected: u32 = if limit < MAX_SWEEP_BATCH_SIZE {
            limit
        } else {
            MAX_SWEEP_BATCH_SIZE
        };
        let last = self.storage.get_counter();
        let now = host.timestamp;
        let ghost s0 = self@;
        let ghost h0 = host@;
        let ghost first = id as int;
        let ghost target = sweep_from(s0, h0, token, first, last as int, max_inspected as int, Seq::empty());
        while id <= last && inspected < max_inspected
            invariant_except_break
                sweep_from(self@, host@, token, id as int, last as int, max_inspected - inspected, swept@)
                    == target,
            invariant
                inspected <= max_inspected,
                target == sweep_from(s0, h0, token, first, last as int, max_inspected as int, Seq::empty()),
                s0.token == Some(token),
                s0.counter == last,
                s0 == old(self)@,
                h0 == old(host)@,
                first == (if start_id < 1 {
                    1
                } else {
                    start_id as int
                }),
                max_inspected == (if limit < MAX_SWEEP_BATCH_SIZE {
                    limit
                } else {
                    MAX_SWEEP_BATCH_SIZE
                }),
                host.timestamp == now,
                host.contract == h0.contract,
                self@.token == Some(token),
                self@.counter == last,
            ensures
                (self@, host@, Ok::<Seq<u64>, Error>(swept@)) == target,
            decreases last - id + 1,
        {
            match self.storage.get_transfer(id) {
                Some(transfer) => {
                    if transfer.status == Status::Pending && now > transfer.expiry {
                        match EscrowAccounting::validate_release(&self.storage, transfer.amount) {
                            Ok(()) => {},
                            Err(e) => {
                                proof {
                                    assert(sweepable(self@, id, host.timestamp));
                                    assert(sweep_from(self@, host@, token, id as int, last as int, max_inspected - inspected, swept@)
                                        == (self@, host@, Err::<Seq<u64>, Error>(e)));
                                }
                                return Err(e);
                            },
                        }
                        let contract = host.contract;
                        host.transfer(token, contract, transfer.from, transfer.amount);
                        let updated = Transfer { status: Status::Cancelled, ..transfer };
                        match EscrowAccounting::record_release(&mut self.storage, transfer.amount) {
                            Ok(()) => {},
                            Err(e) => return Err(e),
                        }
                        self.storage.set_transfer(&updated);
                        host.publish(events::cancelled(id, transfer.from, transfer.amount));
                        swept.push(id);
                    }
                },
                None => {},
            }
            inspected += 1;
            match id.checked_add(1) {
                Some(next_id) => id = next_id,
                None => {
                    proof {
                        assert(sweep_from(self@, host@, token, id + 1, last as int, max_inspected - inspected, swept@)
                            == (self@, host@, Ok::<Seq<u64>, Error>(swept@)));
                    }
                    break;
                },
            }
        }
        if swept.len() > 0 {
            EscrowAccounting::assert_conserved(&self.storage)?;
            host.require_solvency(self.storage.get_total_escrowed());
        }
        Ok(swept)
    }

    /// Sweep expired pending transfers in an ascending, bounded id range.
    /// `start_id` is inclusive and `0` counts as `1`. At most
    /// `min(limit, MAX_SWEEP_BATCH_SIZE)` ids are inspected, including ids
    /// with no stored record or a terminal status. A transfer is swept when
    /// the ledger timestamp is strictly after its expiry: like
    /// [`Self::sweep_expired`], its release is checked, its funds return to
    /// its sender, and its amount moves from the pending to the released
    /// total. Anyone may call this. Returns the swept ids.
    pub fn sweep_expired_batch(&mut self, host: &mut Host, start_id: u64, limit: u32) -> (r: Result<
        Vec<u64>,
        Error,
    >)
        ensures
            performs(
                sweep_expired_batch_step(old(self)@, old(host)@, start_id, limit),
                seq_result(r),
                old(self)@,
                final(self)@,
                final(host)@,
            ),
    {
        let saved = self.storage.snapshot();
        let r = self.sweep_expired_batch_inner(host, start_id, limit);
        if r.is_err() {
            self.storage = saved;
        }
        r
    }

    fn execute_operation(&mut self, host: &mut Host, op: &BatchOperation) -> (r: Result<
        BatchOperationResult,
        Error,
    >)
        ensures
            performs_partially(operation_step(old(self)@, old(host)@, *op), r, final(self)@, final(host)@),
    {
        match op {
            BatchOperation::Create(p) => {
                let id = self.create_transfer_inner(host, p.from, p.recipient, p.amount, p.expiry)?;
                Ok(BatchOperationResult::Created(id))
            },
            BatchOperation::Claim(p) => {
                self.claim_transfer_inner(host, p.id, p.recipient)?;
                Ok(BatchOperationResult::Claimed)
            },
            BatchOperation::Cancel(p) => {
                self.cancel_transfer_inner(host, p.id, p.from)?;
                Ok(BatchOperationResult::Cancelled)
            },
        }
    }

    /// Run `operations` in order, stopping at the first error; one result per
    /// operation.
    fn execute_batch_operations(&mut self, host: &mut Host, operations: &Vec<BatchOperation>) -> (r:
        Result<Vec<BatchOperationResult>, Error>)
        ensures
            performs_partially(
                batch_operations_step(old(self)@, old(host)@, operations@),
                seq_result(r),
                final(self)@,
                final(host)@,
            ),
    {
        if operations.len() > MAX_BATCH_SIZE as usize {
            return Err(Error::BatchTooLarge);
        }
        let ghost overall = operations_step(self@, host@, operations@);
        let mut results: Vec<BatchOperationResult> = Vec::new();
        let mut i: usize = 0;
        proof {
            assert(operations@.skip(0) =~= operations@);
            let rest = operations_step(self@, host@, operations@.skip(0));
            match rest.result {
                Ok((s2, rs)) => {
                    assert(results@ + rs =~= rs);
                },
                Err(e) => {},
            }
        }
        while i < operations.len()
            invariant
                0 <= i <= operations@.len(),
                operations@.len() <= MAX_BATCH_SIZE,
                overall == operations_step(old(self)@, old(host)@, operations@),
                continues_with(overall, operations_step(self@, host@, operations@.skip(i as int)), results@),
            decreases operations@.len() - i,
        {
            let ghost s1 = self@;
            let ghost h1 = host@;
            let ghost before = results@;
            proof {
                assert(operations@.skip(i as int)[0] == operations@[i as int]);
                assert(operations@.skip(i as int).drop_first() =~= operations@.skip(i + 1));
            }
            let r0 = self.execute_operation(host, &operations[i]);
            match r0 {
                Ok(v) => {
                    results.push(v);
                    proof {
                        let rest = operations_step(self@, host@, operations@.skip(i + 1));
                        match rest.result {
                            Ok((s2, rs)) => {
                                assert(before + (seq![v] + rs) =~= results@ + rs);
                            },
                            Err(e) => {},
                        }
                    }
                },
                Err(e) => {
                    proof {
                        let rest = operations_step(s1, h1, operations@.skip(i as int));
                        assert(rest == fail::<Seq<BatchOperationResult>>(e, host@));
                    }
                    return Err(e);
                },
            }
            i = i + 1;
        }
        proof {
            assert(operations@.skip(i as int) =~= Seq::<BatchOperation>::empty());
            assert(results@ + Seq::<BatchOperationResult>::empty() =~= results@);
        }
        Ok(results)
    }

    /// Execute `operations` atomically: either all succeed, with one result
    /// per operation in order, or the first error is returned and nothing
    /// changes.
    pub fn batch_operations(&mut self, host: &mut Host, operations: Vec<BatchOperation>) -> (r:
        Result<Vec<BatchOperationResult>, Error>)
        ensures
            performs(
                batch_operations_step(old(self)@, old(host)@, operations@),
                seq_result(r),
                old(self)@,
                final(self)@,
                final(host)@,
            ),
    {
        let saved = self.storage.snapshot();
        let r = self.execute_batch_operations(host, &operations);
        if r.is_err() {
            self.storage = saved;
        }
        r
    }

    /// Execute an atomic batch under a durable idempotency key. A retry with
    /// the same `batch_id` and identical operations returns the original
    /// results without reapplying anything; reusing an id with different
    /// operations fails.
    pub fn batch_operations_idempotent(
        &mut self,
        host: &mut Host,
        batch_id: u64,
        operations: Vec<BatchOperation>,
    ) -> (r: Result<Vec<BatchOperationResult>, Error>)
        ensures
            performs(
                batch_operations_idempotent_step(old(self)@, old(host)@, batch_id, operations@),
                seq_result(r),
                old(self)@,
                final(self)@,
                final(host)@,
            ),
    {
        if batch_id == 0 {
            return Err(Error::InvalidBatchId);
        }
        match self.storage.get_batch_receipt(batch_id) {
            Some(receipt) => {
                if !same_operations(&receipt.operations, &operations) {
                    return Err(Error::BatchIdConflict);
                }
                return Ok(copy_results(&receipt.results));
            },
            None => {},
        }
        let saved = self.storage.snapshot();
        let results = match self.execute_batch_operations(host, &operations) {
            Ok(results) => results,
            Err(e) => {
                self.storage = saved;
                return Err(e);
            },
        };
        let stored = copy_results(&results);
        self.storage.set_batch_receipt(batch_id, BatchReceipt { operations, results: stored });
        Ok(results)
    }
}

} // verus!
