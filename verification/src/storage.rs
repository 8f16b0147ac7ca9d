//! The contract's stored state: singleton configuration values (instance
//! storage) and keyed records (persistent storage).

use vstd::prelude::*;

use crate::address::Address;
use crate::table::{Table, TableKey};
use crate::types::{BatchReceipt, ReceiptModel, Status, Transfer};

verus! {

/// Number of ledgers used as the threshold before bumping instance TTL.
pub const INSTANCE_BUMP_THRESHOLD: u32 = 518_400;
/// Number of ledgers the instance TTL is extended to when bumped.
pub const INSTANCE_BUMP_AMOUNT: u32 = 535_680;
/// Number of ledgers used as the threshold before bumping persistent TTL.
pub const PERSISTENT_BUMP_THRESHOLD: u32 = 518_400;
/// Number of ledgers the persistent TTL is extended to when bumped.
pub const PERSISTENT_BUMP_AMOUNT: u32 = 535_680;
/// The shorter TTL used by allowlist entries: membership is configuration,
/// refreshed when used, and a dormant address should not keep state alive.
pub const CALLER_BUMP_THRESHOLD: u32 = 259_200;
pub const CALLER_BUMP_AMOUNT: u32 = 276_480;
/// Account quotas are operational metadata with a smaller retention window.
pub const ACCOUNT_OP_BUMP_THRESHOLD: u32 = 86_400;
pub const ACCOUNT_OP_BUMP_AMOUNT: u32 = 95_040;
/// Terminal transfers are retained briefly for status/audit queries.
pub const TERMINAL_BUMP_THRESHOLD: u32 = 10_080;
pub const TERMINAL_BUMP_AMOUNT: u32 = 20_160;
/// Maximum number of terminal ids processed by one cleanup invocation.
pub const MAX_TERMINAL_CLEANUP: u32 = 20;

/// Keys of the values held in instance storage. Each variant name is part of
/// the on-chain key, so distinct variants never collide.
#[derive(Clone, Copy, Debug, PartialEq, Eq, Structural)]
pub enum InstanceKey {
    /// Administrator address.
    Admin,
    /// Nominated successor awaiting acceptance.
    PendingAdmin,
    /// Token contract address used for escrow transfers.
    Token,
    /// Monotonic counter for issued transfer ids.
    Counter,
    /// Paused flag gating new transfer creation.
    Paused,
    /// Running total of all currently pending escrowed amounts.
    TotalEscrowed,
    /// Cumulative amount accepted into escrow across the contract lifetime.
    TotalFunded,
    /// Cumulative amount released from escrow by claims and refunds.
    TotalReleased,
    /// Ledger timestamp at which initialize was called.
    InitializedAt,
    /// Timestamp of the most recent privileged administrative call.
    LastPrivilegedCall,
    /// Hash of the wasm artifact currently recorded as active.
    UpgradeArtifactHash,
    /// Monotonic release number for the active wasm artifact.
    UpgradeVersion,
    /// Monotonic version of the caller registry.
    CallerRegistryVersion,
}

/// Keys of the records held in persistent storage.
#[derive(Clone, Copy, Debug, PartialEq, Eq)]
pub enum PersistentKey {
    /// A single transfer record, keyed by its unique sequential id.
    Transfer(u64),
    /// Allowlist membership flag for a privileged caller address.
    AllowedCaller(Address),
    /// Per-account operation counter, keyed by account address.
    AccountOpCount(Address),
    /// Idempotency receipt for a completed batch invocation.
    Batch(u64),
    /// Replay marker for an exact versioned caller update.
    CallerUpdate(u64, Address, bool),
}

/// Storage retention policy for each persistent record class.
#[derive(Clone, Copy, Debug, PartialEq, Eq, Structural)]
pub enum PersistentTtlClass {
    ActiveTransfer,
    TerminalTransfer,
    CallerAllowlist,
    AccountOperations,
}

impl PersistentTtlClass {
    /// The `(threshold, extend_to)` ledger counts of the class.
    pub fn limits(self) -> (r: (u32, u32))
        ensures
            r == (match self {
                PersistentTtlClass::ActiveTransfer => (
                    PERSISTENT_BUMP_THRESHOLD,
                    PERSISTENT_BUMP_AMOUNT,
                ),
                PersistentTtlClass::TerminalTransfer => (
                    TERMINAL_BUMP_THRESHOLD,
                    TERMINAL_BUMP_AMOUNT,
                ),
                PersistentTtlClass::CallerAllowlist => (CALLER_BUMP_THRESHOLD, CALLER_BUMP_AMOUNT),
                PersistentTtlClass::AccountOperations => (
                    ACCOUNT_OP_BUMP_THRESHOLD,
                    ACCOUNT_OP_BUMP_AMOUNT,
                ),
            }),
    {
        match self {
            PersistentTtlClass::ActiveTransfer => (PERSISTENT_BUMP_THRESHOLD, PERSISTENT_BUMP_AMOUNT),
            PersistentTtlClass::TerminalTransfer => (TERMINAL_BUMP_THRESHOLD, TERMINAL_BUMP_AMOUNT),
            PersistentTtlClass::CallerAllowlist => (CALLER_BUMP_THRESHOLD, CALLER_BUMP_AMOUNT),
            PersistentTtlClass::AccountOperations => (
                ACCOUNT_OP_BUMP_THRESHOLD,
                ACCOUNT_OP_BUMP_AMOUNT,
            ),
        }
    }

    /// The retention class of a stored transfer: pending transfers are kept
    /// long, terminal ones briefly.
    pub fn of_transfer(transfer: &Transfer) -> (r: PersistentTtlClass)
        ensures
            r == (if transfer.status == Status::Pending {
                PersistentTtlClass::ActiveTransfer
            } else {
                PersistentTtlClass::TerminalTransfer
            }),
    {
        if transfer.status == Status::Pending {
            PersistentTtlClass::ActiveTransfer
        } else {
            PersistentTtlClass::TerminalTransfer
        }
    }
}

/// The key of a replay marker for a versioned caller update.
#[derive(Clone, Copy, Debug, PartialEq, Eq)]
pub struct CallerUpdateKey {
    pub version: u64,
    pub caller: Address,
    pub allowed: bool,
}

impl TableKey for CallerUpdateKey {
    fn key_eq(&self, other: &Self) -> (r: bool) {
        self.version == other.version && self.caller.same(&other.caller) && self.allowed
            == other.allowed
    }
}

/// The contents of [`Storage`].
#[verifier::ext_equal]
pub struct StorageModel {
    pub admin: Option<Address>,
    pub pending_admin: Option<Address>,
    pub token: Option<Address>,
    pub initialized_at: Option<u64>,
    pub counter: u64,
    pub paused: bool,
    pub total_escrowed: i128,
    pub total_funded: i128,
    pub total_released: i128,
    pub last_privileged_call: u64,
    pub upgrade_artifact_hash: Option<[u8; 32]>,
    pub upgrade_version: u32,
    pub caller_registry_version: u64,
    pub transfers: Map<u64, Transfer>,
    pub allowed_callers: Map<Address, bool>,
    pub account_op_counts: Map<Address, u32>,
    pub batch_receipts: Map<u64, ReceiptModel>,
    pub caller_updates: Map<CallerUpdateKey, bool>,
}

impl StorageModel {
    /// Whether `caller` is on the allowlist (absent entries read as `false`).
    pub open spec fn caller_allowed(self, caller: Address) -> bool {
        self.allowed_callers.contains_key(caller) && self.allowed_callers[caller]
    }

    /// Operations recorded for `account` (absent entries read as zero).
    pub open spec fn op_count(self, account: Address) -> u32 {
        if self.account_op_counts.contains_key(account) {
            self.account_op_counts[account]
        } else {
            0
        }
    }

    /// Whether the exact versioned caller update has been applied.
    pub open spec fn update_applied(self, version: u64, caller: Address, allowed: bool) -> bool {
        let k = CallerUpdateKey { version, caller, allowed };
        self.caller_updates.contains_key(k) && self.caller_updates[k]
    }
}

/// The contract's stored state. Singleton values that were never written
/// read as their defaults: zero counters and totals, not paused.
pub struct Storage {
    admin: Option<Address>,
    pending_admin: Option<Address>,
    token: Option<Address>,
    initialized_at: Option<u64>,
    counter: u64,
    paused: bool,
    total_escrowed: i128,
    total_funded: i128,
    total_released: i128,
    last_privileged_call: u64,
    upgrade_artifact_hash: Option<[u8; 32]>,
    upgrade_version: u32,
    caller_registry_version: u64,
    transfers: Table<u64, Transfer>,
    allowed_callers: Table<Address, bool>,
    account_op_counts: Table<Address, u32>,
    batch_receipts: Table<u64, BatchReceipt>,
    caller_updates: Table<CallerUpdateKey, bool>,
}

impl View for Storage {
    type V = StorageModel;

    closed spec fn view(&self) -> StorageModel {
        StorageModel {
            admin: self.admin,
            pending_admin: self.pending_admin,
            token: self.token,
            initialized_at: self.initialized_at,
            counter: self.counter,
            paused: self.paused,
            total_escrowed: self.total_escrowed,
            total_funded: self.total_funded,
            total_released: self.total_released,
            last_privileged_call: self.last_privileged_call,
            upgrade_artifact_hash: self.upgrade_artifact_hash,
            upgrade_version: self.upgrade_version,
            caller_registry_version: self.caller_registry_version,
            transfers: self.transfers@,
            allowed_callers: self.allowed_callers@,
            account_op_counts: self.account_op_counts@,
            batch_receipts: self.batch_receipts@,
            caller_updates: self.caller_updates@,
        }
    }
}

/// The state of a contract that has never been written to.
pub open spec fn empty_storage() -> StorageModel {
    StorageModel {
        admin: None,
        pending_admin: None,
        token: None,
        initialized_at: None,
        counter: 0,
        paused: false,
        total_escrowed: 0,
        total_funded: 0,
        total_released: 0,
        last_privileged_call: 0,
        upgrade_artifact_hash: None,
        upgrade_version: 0,
        caller_registry_version: 0,
        transfers: Map::empty(),
        allowed_callers: Map::empty(),
        account_op_counts: Map::empty(),
        batch_receipts: Map::empty(),
        caller_updates: Map::empty(),
    }
}

impl Storage {
    /// Storage of a freshly deployed contract: nothing written.
    pub fn new() -> (r: Storage)
        ensures
            r@ == empty_storage(),
    {
        Storage {
            admin: None,
            pending_admin: None,
            token: None,
            initialized_at: None,
            counter: 0,
            paused: false,
            total_escrowed: 0,
            total_funded: 0,
            total_released: 0,
            last_privileged_call: 0,
            upgrade_artifact_hash: None,
            upgrade_version: 0,
            caller_registry_version: 0,
            transfers: Table::new(),
            allowed_callers: Table::new(),
            account_op_counts: Table::new(),
            batch_receipts: Table::new(),
            caller_updates: Table::new(),
        }
    }

    /// An independent copy of the whole state.
    pub fn snapshot(&self) -> (r: Storage)
        ensures
            r@ == self@,
    {
        Storage {
            admin: self.admin,
            pending_admin: self.pending_admin,
            token: self.token,
            initialized_at: self.initialized_at,
            counter: self.counter,
            paused: self.paused,
            total_escrowed: self.total_escrowed,
            total_funded: self.total_funded,
            total_released: self.total_released,
            last_privileged_call: self.last_privileged_call,
            upgrade_artifact_hash: self.upgrade_artifact_hash,
            upgrade_version: self.upgrade_version,
            caller_registry_version: self.caller_registry_version,
            transfers: self.transfers.snapshot(),
            allowed_callers: self.allowed_callers.snapshot(),
            account_op_counts: self.account_op_counts.snapshot(),
            batch_receipts: self.batch_receipts.snapshot(),
            caller_updates: self.caller_updates.snapshot(),
        }
    }

    /// Store the administrator address.
    pub fn set_admin(&mut self, admin: &Address)
        ensures
            final(self)@ == (StorageModel { admin: Some(*admin), ..old(self)@ }),
    {
        self.admin = Some(*admin);
    }

    /// Read the administrator address.
    pub fn get_admin(&self) -> (r: Option<Address>)
        ensures
            r == self@.admin,
    {
        self.admin
    }

    /// Whether the administrator has already been configured.
    pub fn has_admin(&self) -> (r: bool)
        ensures
            r == self@.admin is Some,
    {
        self.admin.is_some()
    }

    /// Store the pending (nominee) admin address.
    pub fn set_pending_admin(&mut self, pending: &Address)
        ensures
            final(self)@ == (StorageModel { pending_admin: Some(*pending), ..old(self)@ }),
    {
        self.pending_admin = Some(*pending);
    }

    /// Read the pending (nominee) admin address, if any.
    pub fn get_pending_admin(&self) -> (r: Option<Address>)
        ensures
            r == self@.pending_admin,
    {
        self.pending_admin
    }

    /// Remove the pending admin entry.
    pub fn clear_pending_admin(&mut self)
        ensures
            final(self)@ == (StorageModel { pending_admin: None, ..old(self)@ }),
    {
        self.pending_admin = None;
    }

    /// Store the token contract address.
    pub fn set_token(&mut self, token: &Address)
        ensures
            final(self)@ == (StorageModel { token: Some(*token), ..old(self)@ }),
    {
        self.token = Some(*token);
    }

    /// Read the token contract address.
    pub fn get_token(&self) -> (r: Option<Address>)
        ensures
            r == self@.token,
    {
        self.token
    }

    /// Store the ledger timestamp at which the contract was initialized.
    pub fn set_initialized_at(&mut self, timestamp: u64)
        ensures
            final(self)@ == (StorageModel { initialized_at: Some(timestamp), ..old(self)@ }),
    {
        self.initialized_at = Some(timestamp);
    }

    /// Read the ledger timestamp at which the contract was initialized.
    pub fn get_initialized_at(&self) -> (r: Option<u64>)
        ensures
            r == self@.initialized_at,
    {
        self.initialized_at
    }

    /// Read the transfer counter (zero when never written).
    pub fn get_counter(&self) -> (r: u64)
        ensures
            r == self@.counter,
    {
        self.counter
    }

    /// Store a new value for the transfer counter.
    pub fn set_counter(&mut self, value: u64)
        ensures
            final(self)@ == (StorageModel { counter: value, ..old(self)@ }),
    {
        self.counter = value;
    }

    /// Read the paused flag (false when never written).
    pub fn get_paused(&self) -> (r: bool)
        ensures
            r == self@.paused,
    {
        self.paused
    }

    /// Store the paused flag.
    pub fn set_paused(&mut self, value: bool)
        ensures
            final(self)@ == (StorageModel { paused: value, ..old(self)@ }),
    {
        self.paused = value;
    }

    /// Read the running total of pending escrowed amounts (zero when never written).
    pub fn get_total_escrowed(&self) -> (r: i128)
        ensures
            r == self@.total_escrowed,
    {
        self.total_escrowed
    }

    /// Store the running total of pending escrowed amounts.
    pub fn set_total_escrowed(&mut self, value: i128)
        ensures
            final(self)@ == (StorageModel { total_escrowed: value, ..old(self)@ }),
    {
        self.total_escrowed = value;
    }

    /// Read the cumulative amount that has entered escrow.
    pub fn get_total_funded(&self) -> (r: i128)
        ensures
            r == self@.total_funded,
    {
        self.total_funded
    }

    /// Store the cumulative amount that has entered escrow.
    pub fn set_total_funded(&mut self, value: i128)
        ensures
            final(self)@ == (StorageModel { total_funded: value, ..old(self)@ }),
    {
        self.total_funded = value;
    }

    /// Read the cumulative amount released through claims or refunds.
    pub fn get_total_released(&self) -> (r: i128)
        ensures
            r == self@.total_released,
    {
        self.total_released
    }

    /// Store the cumulative amount released through claims or refunds.
    pub fn set_total_released(&mut self, value: i128)
        ensures
            final(self)@ == (StorageModel { total_released: value, ..old(self)@ }),
    {
        self.total_released = value;
    }

    /// Read the timestamp of the last privileged call (zero when never written).
    pub fn get_last_privileged_call(&self) -> (r: u64)
        ensures
            r == self@.last_privileged_call,
    {
        self.last_privileged_call
    }

    /// Store the timestamp of the last privileged call.
    pub fn set_last_privileged_call(&mut self, timestamp: u64)
        ensures
            final(self)@ == (StorageModel { last_privileged_call: timestamp, ..old(self)@ }),
    {
        self.last_privileged_call = timestamp;
    }

    /// Store the hash of the active wasm artifact.
    pub fn set_upgrade_artifact_hash(&mut self, hash: &[u8; 32])
        ensures
            final(self)@ == (StorageModel { upgrade_artifact_hash: Some(*hash), ..old(self)@ }),
    {
        self.upgrade_artifact_hash = Some(*hash);
    }

    /// Read the hash of the active wasm artifact, if recorded.
    pub fn get_upgrade_artifact_hash(&self) -> (r: Option<[u8; 32]>)
        ensures
            r == self@.upgrade_artifact_hash,
    {
        self.upgrade_artifact_hash
    }

    /// Store the release number of the active wasm artifact.
    pub fn set_upgrade_version(&mut self, version: u32)
        ensures
            final(self)@ == (StorageModel { upgrade_version: version, ..old(self)@ }),
    {
        self.upgrade_version = version;
    }

    /// Read the release number of the active wasm artifact (zero when never written).
    pub fn get_upgrade_version(&self) -> (r: u32)
        ensures
            r == self@.upgrade_version,
    {
        self.upgrade_version
    }

    /// Read the caller registry version (zero when never written).
    pub fn get_caller_registry_version(&self) -> (r: u64)
        ensures
            r == self@.caller_registry_version,
    {
        self.caller_registry_version
    }

    /// Store the caller registry version.
    pub fn set_caller_registry_version(&mut self, version: u64)
        ensures
            final(self)@ == (StorageModel { caller_registry_version: version, ..old(self)@ }),
    {
        self.caller_registry_version = version;
    }

    /// Store a transfer record under its id.
    pub fn set_transfer(&mut self, transfer: &Transfer)
        ensures
            final(self)@ == (StorageModel {
                transfers: old(self)@.transfers.insert(transfer.id, *transfer),
                ..old(self)@
            }),
    {
        self.transfers.insert(transfer.id, *transfer);
    }

    /// Read a transfer record by id, if present.
    pub fn get_transfer(&self, id: u64) -> (r: Option<Transfer>)
        ensures
            r == (if self@.transfers.contains_key(id) {
                Some(self@.transfers[id])
            } else {
                None
            }),
    {
        match self.transfers.get(&id) {
            Some(t) => Some(*t),
            None => None,
        }
    }

    /// Whether a transfer with the given id is stored.
    pub fn has_transfer(&self, id: u64) -> (r: bool)
        ensures
            r == self@.transfers.contains_key(id),
    {
        self.transfers.contains(&id)
    }

    /// Store the receipt for a completed idempotent batch invocation.
    pub fn set_batch_receipt(&mut self, batch_id: u64, receipt: BatchReceipt)
        ensures
            final(self)@ == (StorageModel {
                batch_receipts: old(self)@.batch_receipts.insert(batch_id, receipt@),
                ..old(self)@
            }),
    {
        self.batch_receipts.insert(batch_id, receipt);
    }

    /// Read an idempotent batch receipt, if the batch id has been completed.
    pub fn get_batch_receipt(&self, batch_id: u64) -> (r: Option<&BatchReceipt>)
        ensures
            match r {
                Some(receipt) => self@.batch_receipts.contains_key(batch_id)
                    && receipt@ == self@.batch_receipts[batch_id],
                None => !self@.batch_receipts.contains_key(batch_id),
            },
    {
        self.batch_receipts.get(&batch_id)
    }

    /// Store a caller's allowlist status: allowed callers are recorded,
    /// disallowed ones removed.
    pub fn set_caller_allowed(&mut self, caller: &Address, allowed: bool)
        ensures
            final(self)@ == (StorageModel {
                allowed_callers: if allowed {
                    old(self)@.allowed_callers.insert(*caller, true)
                } else {
                    old(self)@.allowed_callers.remove(*caller)
                },
                ..old(self)@
            }),
    {
        if allowed {
            self.allowed_callers.insert(*caller, true);
        } else {
            self.allowed_callers.remove(caller);
        }
    }

    /// Whether `caller` is on the allowlist.
    pub fn is_caller_allowed(&self, caller: &Address) -> (r: bool)
        ensures
            r == self@.caller_allowed(*caller),
    {
        match self.allowed_callers.get(caller) {
            Some(v) => *v,
            None => false,
        }
    }

    /// Number of operations recorded for `account` (zero when none).
    pub fn get_account_op_count(&self, account: &Address) -> (r: u32)
        ensures
            r == self@.op_count(*account),
    {
        match self.account_op_counts.get(account) {
            Some(v) => *v,
            None => 0,
        }
    }

    /// Store the number of operations recorded for `account`.
    pub fn set_account_op_count(&mut self, account: &Address, count: u32)
        ensures
            final(self)@ == (StorageModel {
                account_op_counts: old(self)@.account_op_counts.insert(*account, count),
                ..old(self)@
            }),
    {
        self.account_op_counts.insert(*account, count);
    }

    /// Count one more operation for `account`, saturating at `u32::MAX`.
    pub fn increment_account_op_count(&mut self, account: &Address)
        ensures
            final(self)@ == (StorageModel {
                account_op_counts: old(self)@.account_op_counts.insert(
                    *account,
                    if old(self)@.op_count(*account) < u32::MAX {
                        (old(self)@.op_count(*account) + 1) as u32
                    } else {
                        u32::MAX
                    },
                ),
                ..old(self)@
            }),
    {
        let count = self.get_account_op_count(account);
        self.account_op_counts.insert(*account, count.saturating_add(1));
    }

    /// Remove a transfer only once it has reached a terminal state. Returns
    /// whether a record was removed; pending and unknown ids are untouched.
    pub fn remove_terminal_transfer(&mut self, id: u64) -> (r: bool)
        ensures
            r == (old(self)@.transfers.contains_key(id) && old(self)@.transfers[id].status
                != Status::Pending),
            final(self)@ == (if r {
                StorageModel { transfers: old(self)@.transfers.remove(id), ..old(self)@ }
            } else {
                old(self)@
            }),
    {
        match self.get_transfer(id) {
            Some(transfer) => {
                if transfer.status != Status::Pending {
                    self.transfers.remove(&id);
                    true
                } else {
                    false
                }
            },
            None => false,
        }
    }

    /// Whether the exact versioned caller update has already been applied.
    pub fn has_caller_update(&self, version: u64, caller: &Address, allowed: bool) -> (r: bool)
        ensures
            r == self@.update_applied(version, *caller, allowed),
    {
        let k = CallerUpdateKey { version, caller: *caller, allowed };
        match self.caller_updates.get(&k) {
            Some(v) => *v,
            None => false,
        }
    }

    /// Mark the exact versioned caller update as applied.
    pub fn set_caller_update(&mut self, version: u64, caller: &Address, allowed: bool)
        ensures
            final(self)@ == (StorageModel {
                caller_updates: old(self)@.caller_updates.insert(
                    CallerUpdateKey { version, caller: *caller, allowed },
                    true,
                ),
                ..old(self)@
            }),
    {
        self.caller_updates.insert(CallerUpdateKey { version, caller: *caller, allowed }, true);
    }

    /// The stored transfer records.
    pub fn transfers(&self) -> (r: &Table<u64, Transfer>)
        ensures
            r@ == self@.transfers,
    {
        &self.transfers
    }

    /// The stored allowlist entries.
    pub fn allowed_callers(&self) -> (r: &Table<Address, bool>)
        ensures
            r@ == self@.allowed_callers,
    {
        &self.allowed_callers
    }

    /// The stored per-account operation counts.
    pub fn account_op_counts(&self) -> (r: &Table<Address, u32>)
        ensures
            r@ == self@.account_op_counts,
    {
        &self.account_op_counts
    }

    /// The stored batch receipts.
    pub fn batch_receipts(&self) -> (r: &Table<u64, BatchReceipt>)
        ensures
            r@ == self@.batch_receipts,
    {
        &self.batch_receipts
    }

    /// The stored caller-update replay markers.
    pub fn caller_updates(&self) -> (r: &Table<CallerUpdateKey, bool>)
        ensures
            r@ == self@.caller_updates,
    {
        &self.caller_updates
    }
}

} // verus!
