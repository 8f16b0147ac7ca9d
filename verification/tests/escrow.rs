use std::collections::HashMap;

use remitflow_contract::accounting::EscrowAccounting;
use remitflow_contract::address::Address;
use remitflow_contract::error::Error;
use remitflow_contract::events::{ContractEvent, EventPayload};
use remitflow_contract::host::{Effect, Host};
use remitflow_contract::types::{
    BatchOperation, BatchOperationResult, CancelTransferOperation, ClaimTransferOperation,
    CreateTransferOperation, Status, Transfer,
};
use remitflow_contract::{RemitFlowContract, MAX_BATCH_SIZE, MAX_TOTAL_ESCROWED};

const DEFAULT_SENDER_BALANCE: i128 = 1_000;
/// What a `FixtureBuilder` mints to its sender unless told otherwise: enough
/// for several default transfers.
const DEFAULT_BUILDER_BALANCE: i128 = 10_000;
const DEFAULT_TRANSFER_AMOUNT: i128 = 400;
const DEFAULT_EXPIRY_OFFSET: u64 = 3_600;

fn generate(kind: u8, n: u32) -> Address {
    let mut strkey = [b'A'; 56];
    strkey[0] = kind;
    let digits = format!("{:08}", n);
    for (i, b) in digits.bytes().enumerate() {
        strkey[1 + i] = b;
    }
    Address::from_strkey(strkey)
}

/// A contract together with a token ledger standing in for the escrow token,
/// and the ledger time. Effects of successful invocations are applied to the
/// token ledger; failed invocations leave everything as it was.
struct TestFixture {
    contract: RemitFlowContract,
    address: Address,
    token: Address,
    admin: Address,
    from: Address,
    recipient: Address,
    now: u64,
    balances: HashMap<Address, i128>,
    events: Vec<ContractEvent>,
    authorized: Vec<Address>,
    next_address: u32,
    /// How much less than the amount sent the token credits to the escrow
    /// contract on each incoming transfer (a fee-on-transfer token).
    credit_shortfall: i128,
}

impl TestFixture {
    fn bare() -> TestFixture {
        TestFixture {
            contract: RemitFlowContract::new(),
            address: generate(b'C', 0),
            token: generate(b'C', 1),
            admin: generate(b'G', 1),
            from: generate(b'G', 2),
            recipient: generate(b'G', 3),
            now: 0,
            balances: HashMap::new(),
            events: Vec::new(),
            authorized: Vec::new(),
            next_address: 100,
            credit_shortfall: 0,
        }
    }

    fn new() -> TestFixture {
        let mut s = TestFixture::bare();
        let (admin, token) = (s.admin, s.token);
        s.invoke(|c, h| c.initialize(h, admin, token)).unwrap();
        let from = s.from;
        s.mint(&from, DEFAULT_SENDER_BALANCE);
        s.add_caller(&from);
        s
    }

    fn generate_address(&mut self) -> Address {
        self.next_address += 1;
        generate(b'G', self.next_address)
    }

    fn mint(&mut self, to: &Address, amount: i128) {
        *self.balances.entry(*to).or_insert(0) += amount;
    }

    fn balance(&self, a: &Address) -> i128 {
        *self.balances.get(a).unwrap_or(&0)
    }

    fn host(&self) -> Host {
        Host::new(self.now, self.address, self.balance(&self.address))
    }

    /// Runs an entrypoint and performs the actions it requested, in order,
    /// as the host does. When the entrypoint fails, or the measured escrow
    /// balance does not cover a required pending total, everything the
    /// invocation did is undone.
    fn invoke<T>(
        &mut self,
        f: impl FnOnce(&mut RemitFlowContract, &mut Host) -> Result<T, Error>,
    ) -> Result<T, Error> {
        let saved_storage = self.contract.storage.snapshot();
        let saved_balances = self.balances.clone();
        let (n_events, n_authorized) = (self.events.len(), self.authorized.len());
        let mut host = self.host();
        let mut r = f(&mut self.contract, &mut host);
        for effect in host.effects {
            match effect {
                Effect::RequireAuth(a) => self.authorized.push(a),
                Effect::TokenTransfer { token, from, to, amount } => {
                    assert_eq!(token, self.token);
                    assert!(self.balance(&from) >= amount, "insufficient token balance");
                    let credited = if to == self.address {
                        amount - self.credit_shortfall
                    } else {
                        amount
                    };
                    *self.balances.entry(from).or_insert(0) -= amount;
                    *self.balances.entry(to).or_insert(0) += credited;
                },
                Effect::Publish(e) => self.events.push(e),
                Effect::UpdateWasm(_) => {},
                Effect::RequireSolvency { pending } => {
                    if let Err(e) = EscrowAccounting::check_solvency(self.balance(&self.address), pending) {
                        r = Err(e);
                        break;
                    }
                },
            }
        }
        if r.is_err() {
            self.contract.storage = saved_storage;
            self.balances = saved_balances;
            self.events.truncate(n_events);
            self.authorized.truncate(n_authorized);
        }
        r
    }

    fn add_caller(&mut self, caller: &Address) {
        let caller = *caller;
        self.invoke(|c, h| c.add_caller(h, caller)).unwrap();
    }

    fn future_expiry(&self) -> u64 {
        self.now + DEFAULT_EXPIRY_OFFSET
    }

    fn try_create_transfer(
        &mut self,
        from: &Address,
        recipient: &Address,
        amount: i128,
        expiry: u64,
    ) -> Result<u64, Error> {
        let (from, recipient) = (*from, *recipient);
        self.invoke(|c, h| c.create_transfer(h, from, recipient, amount, expiry))
    }

    fn create_transfer(&mut self, from: &Address, recipient: &Address, amount: i128, expiry: u64) -> u64 {
        self.try_create_transfer(from, recipient, amount, expiry).unwrap()
    }

    fn create_default_transfer(&mut self) -> u64 {
        let (from, recipient) = (self.from, self.recipient);
        let expiry = self.future_expiry();
        self.create_transfer(&from, &recipient, DEFAULT_TRANSFER_AMOUNT, expiry)
    }

    fn try_claim_transfer(&mut self, id: u64, recipient: &Address) -> Result<(), Error> {
        let recipient = *recipient;
        self.invoke(|c, h| c.claim_transfer(h, id, recipient))
    }

    fn try_cancel_transfer(&mut self, id: u64, from: &Address) -> Result<(), Error> {
        let from = *from;
        self.invoke(|c, h| c.cancel_transfer(h, id, from))
    }

    fn try_sweep_expired(&mut self, id: u64) -> Result<(), Error> {
        self.invoke(|c, h| c.sweep_expired(h, id))
    }

    fn try_batch_operations(
        &mut self,
        operations: &Vec<BatchOperation>,
    ) -> Result<Vec<BatchOperationResult>, Error> {
        let operations = operations.clone();
        self.invoke(|c, h| c.batch_operations(h, operations))
    }

    fn try_batch_operations_idempotent(
        &mut self,
        batch_id: u64,
        operations: &Vec<BatchOperation>,
    ) -> Result<Vec<BatchOperationResult>, Error> {
        let operations = operations.clone();
        self.invoke(|c, h| c.batch_operations_idempotent(h, batch_id, operations))
    }

    fn check_supply_invariant(&self) -> Result<(), Error> {
        self.contract.check_supply_invariant(&self.host())
    }

    fn get_status(&self, id: u64) -> Status {
        self.contract.get_status(id).unwrap()
    }
}

fn setup() -> TestFixture {
    TestFixture::new()
}

fn assert_conserved(s: &TestFixture) {
    let funded = s.contract.total_funded();
    let pending = s.contract.total_escrowed();
    let released = s.contract.total_released();

    assert_eq!(funded, pending + released);
    s.check_supply_invariant().unwrap();
}

fn assert_balances_unchanged(s: &TestFixture, sender: i128, recipient: i128, escrow: i128) {
    assert_eq!(s.balance(&s.from), sender);
    assert_eq!(s.balance(&s.recipient), recipient);
    assert_eq!(s.balance(&s.address), escrow);
}

#[test]
fn conservation_survives_mixed_claim_refund_and_sweep_lifecycle() {
    let mut s = setup();
    let (from, recipient) = (s.from, s.recipient);
    let expiry = s.now + DEFAULT_EXPIRY_OFFSET;
    let first = s.create_transfer(&from, &recipient, 125, expiry);
    let second = s.create_transfer(&from, &recipient, 275, expiry);
    let third = s.create_transfer(&from, &recipient, 50, expiry);

    assert_eq!(s.contract.total_funded(), 450);
    assert_eq!(s.contract.total_escrowed(), 450);
    assert_eq!(s.contract.total_released(), 0);
    assert_conserved(&s);

    s.try_claim_transfer(first, &recipient).unwrap();
    assert_eq!(s.get_status(first), Status::Claimed);
    assert_eq!(s.contract.total_escrowed(), 325);
    assert_eq!(s.contract.total_released(), 125);
    assert_conserved(&s);

    s.now = expiry + 1;
    s.try_cancel_transfer(second, &from).unwrap();
    assert_eq!(s.get_status(second), Status::Cancelled);
    assert_eq!(s.contract.total_escrowed(), 50);
    assert_eq!(s.contract.total_released(), 400);
    assert_conserved(&s);

    s.try_sweep_expired(third).unwrap();
    assert_eq!(s.get_status(third), Status::Cancelled);
    assert_eq!(s.contract.total_funded(), 450);
    assert_eq!(s.contract.total_escrowed(), 0);
    assert_eq!(s.contract.total_released(), 450);
    assert_eq!(s.balance(&s.address), 0);
    assert_conserved(&s);
}

#[test]
fn conservation_uses_each_transfer_amount_without_cross_record_leakage() {
    let mut s = setup();
    let (from, recipient) = (s.from, s.recipient);
    s.mint(&from, 1_000);
    let expiry = s.now + DEFAULT_EXPIRY_OFFSET;
    let amounts = [17_i128, 203, 701];
    let mut ids = Vec::new();

    for amount in amounts {
        ids.push(s.create_transfer(&from, &recipient, amount, expiry));
    }

    s.try_claim_transfer(ids[0], &recipient).unwrap();
    assert_eq!(s.contract.total_funded(), 921);
    assert_eq!(s.contract.total_released(), 17);
    assert_eq!(s.contract.total_escrowed(), 904);
    assert_eq!(s.balance(&recipient), 17);
    assert_conserved(&s);

    s.now = expiry + 1;
    s.try_cancel_transfer(ids[1], &from).unwrap();
    assert_eq!(s.contract.total_released(), 220);
    assert_eq!(s.contract.total_escrowed(), 701);
    assert_eq!(s.balance(&from), 1_282);
    assert_conserved(&s);

    s.try_sweep_expired(ids[2]).unwrap();
    assert_eq!(s.contract.total_released(), 921);
    assert_eq!(s.contract.total_escrowed(), 0);
    assert_eq!(s.balance(&s.address), 0);
    assert_conserved(&s);
}

#[test]
fn batch_lifecycle_updates_conservation_per_successful_operation() {
    let mut s = setup();
    let second_sender = s.generate_address();
    s.mint(&second_sender, 222);
    s.add_caller(&second_sender);
    let expiry = s.now + DEFAULT_EXPIRY_OFFSET;
    let operations = vec![
        BatchOperation::Create(CreateTransferOperation {
            from: second_sender,
            recipient: s.recipient,
            amount: 111,
            expiry,
        }),
        BatchOperation::Create(CreateTransferOperation {
            from: s.from,
            recipient: s.recipient,
            amount: 222,
            expiry,
        }),
    ];

    let result = s.try_batch_operations(&operations).unwrap();
    assert_eq!(result.len(), 2);
    assert_eq!(s.contract.total_funded(), 333);
    assert_eq!(s.contract.total_escrowed(), 333);
    assert_eq!(s.contract.total_released(), 0);
    assert_conserved(&s);

    let claim = vec![BatchOperation::Claim(ClaimTransferOperation { id: 1, recipient: s.recipient })];
    s.try_batch_operations(&claim).unwrap();
    assert_eq!(s.contract.total_funded(), 333);
    assert_eq!(s.contract.total_escrowed(), 222);
    assert_eq!(s.contract.total_released(), 111);
    assert_conserved(&s);
}

#[test]
fn failed_claim_cannot_reduce_pending_or_increase_released_totals() {
    let mut s = setup();
    let id = s.create_default_transfer();
    let sender_before = s.balance(&s.from);
    let recipient_before = s.balance(&s.recipient);
    let escrow_before = s.balance(&s.address);

    s.contract.storage.set_total_escrowed(0);

    let recipient = s.recipient;
    let result = s.try_claim_transfer(id, &recipient);
    assert_eq!(result, Err(Error::AccountingOverflow));
    assert_eq!(s.get_status(id), Status::Pending);
    assert_eq!(s.contract.total_funded(), DEFAULT_TRANSFER_AMOUNT);
    assert_eq!(s.contract.total_escrowed(), 0);
    assert_eq!(s.contract.total_released(), 0);
    assert_balances_unchanged(&s, sender_before, recipient_before, escrow_before);
}

#[test]
fn failed_cancel_cannot_reduce_pending_or_increase_released_totals() {
    let mut s = setup();
    let expiry = s.future_expiry();
    let (from, recipient) = (s.from, s.recipient);
    let id = s.create_transfer(&from, &recipient, 275, expiry);
    let sender_before = s.balance(&from);
    let escrow_before = s.balance(&s.address);
    s.now = expiry + 1;

    s.contract.storage.set_total_escrowed(100);

    let result = s.try_cancel_transfer(id, &from);
    assert_eq!(result, Err(Error::AccountingOverflow));
    assert_eq!(s.get_status(id), Status::Pending);
    assert_eq!(s.contract.total_funded(), 275);
    assert_eq!(s.contract.total_escrowed(), 100);
    assert_eq!(s.contract.total_released(), 0);
    assert_eq!(s.balance(&from), sender_before);
    assert_eq!(s.balance(&s.address), escrow_before);
}

#[test]
fn failed_sweep_cannot_reduce_pending_or_increase_released_totals() {
    let mut s = setup();
    let id = s.create_default_transfer();
    s.now += DEFAULT_EXPIRY_OFFSET + 1;
    let sender_before = s.balance(&s.from);
    let escrow_before = s.balance(&s.address);

    s.contract.storage.set_total_escrowed(1);

    let result = s.try_sweep_expired(id);
    assert_eq!(result, Err(Error::AccountingOverflow));
    assert_eq!(s.get_status(id), Status::Pending);
    assert_eq!(s.contract.total_funded(), DEFAULT_TRANSFER_AMOUNT);
    assert_eq!(s.contract.total_escrowed(), 1);
    assert_eq!(s.contract.total_released(), 0);
    assert_eq!(s.balance(&s.from), sender_before);
    assert_eq!(s.balance(&s.address), escrow_before);
}

#[test]
fn funding_overflow_is_rejected_before_tokens_move() {
    let mut s = setup();
    let expiry = s.future_expiry();
    let sender_before = s.balance(&s.from);

    s.contract.storage.set_total_funded(i128::MAX);

    let (from, recipient) = (s.from, s.recipient);
    let result = s.try_create_transfer(&from, &recipient, 100, expiry);
    assert_eq!(result, Err(Error::AccountingOverflow));
    assert_eq!(s.contract.counter(), 0);
    assert_eq!(s.contract.total_escrowed(), 0);
    assert_eq!(s.contract.total_released(), 0);
    assert_eq!(s.balance(&from), sender_before);
    assert_eq!(s.balance(&s.address), 0);
}

#[test]
fn released_overflow_is_rejected_without_changing_terminal_state() {
    let mut s = setup();
    let id = s.create_default_transfer();
    let recipient_before = s.balance(&s.recipient);

    s.contract.storage.set_total_released(i128::MAX);

    let recipient = s.recipient;
    let result = s.try_claim_transfer(id, &recipient);
    assert_eq!(result, Err(Error::AccountingOverflow));
    assert_eq!(s.get_status(id), Status::Pending);
    assert_eq!(s.contract.total_escrowed(), DEFAULT_TRANSFER_AMOUNT);
    assert_eq!(s.contract.total_released(), i128::MAX);
    assert_eq!(s.balance(&recipient), recipient_before);
    assert_eq!(s.balance(&s.address), DEFAULT_TRANSFER_AMOUNT);
}

#[test]
fn invariant_rejects_internal_conservation_mismatch() {
    let mut s = setup();
    s.create_default_transfer();

    s.contract.storage.set_total_released(1);

    let result = s.check_supply_invariant();
    assert_eq!(result, Err(Error::SupplyInvariantViolation));
}

#[test]
fn unsolicited_token_surplus_does_not_change_escrow_liability() {
    let mut s = setup();
    s.create_default_transfer();
    let contract_address = s.address;
    s.mint(&contract_address, 999);

    assert_eq!(s.balance(&s.address), 1_399);
    assert_eq!(s.contract.total_funded(), DEFAULT_TRANSFER_AMOUNT);
    assert_eq!(s.contract.total_escrowed(), DEFAULT_TRANSFER_AMOUNT);
    assert_eq!(s.contract.total_released(), 0);
    assert_conserved(&s);
}

#[test]
fn new_accounting_totals_start_at_zero_after_initialization() {
    let s = setup();

    assert_eq!(s.contract.total_funded(), 0);
    assert_eq!(s.contract.total_escrowed(), 0);
    assert_eq!(s.contract.total_released(), 0);
    assert_conserved(&s);
}

#[test]
fn cap_validation_still_uses_pending_total_not_lifetime_total() {
    let mut s = setup();
    let (from, recipient) = (s.from, s.recipient);
    s.mint(&from, MAX_TOTAL_ESCROWED);
    let expiry = s.future_expiry();

    let id = s.create_transfer(&from, &recipient, MAX_TOTAL_ESCROWED, expiry);
    assert_eq!(id, 1);
    assert_eq!(s.contract.total_funded(), MAX_TOTAL_ESCROWED);
    assert_eq!(s.contract.total_escrowed(), MAX_TOTAL_ESCROWED);
    assert_conserved(&s);

    s.now = expiry + 1;
    s.try_sweep_expired(id).unwrap();
    assert_eq!(s.contract.total_funded(), MAX_TOTAL_ESCROWED);
    assert_eq!(s.contract.total_escrowed(), 0);
    assert_eq!(s.contract.total_released(), MAX_TOTAL_ESCROWED);
    assert_conserved(&s);
}

fn create_and_claim_batch(s: &TestFixture) -> Vec<BatchOperation> {
    let expiry = s.now + DEFAULT_EXPIRY_OFFSET;
    vec![
        BatchOperation::Create(CreateTransferOperation {
            from: s.from,
            recipient: s.recipient,
            amount: 275,
            expiry,
        }),
        BatchOperation::Claim(ClaimTransferOperation { id: 1, recipient: s.recipient }),
    ]
}

#[test]
fn idempotent_batch_returns_stable_results_without_reapplying_items() {
    let mut s = setup();
    let operations = create_and_claim_batch(&s);

    let first = s.try_batch_operations_idempotent(41, &operations).unwrap();
    assert_eq!(first, vec![BatchOperationResult::Created(1), BatchOperationResult::Claimed]);
    let counter_after_first = s.contract.counter();
    let sender_after_first = s.balance(&s.from);
    let recipient_after_first = s.balance(&s.recipient);

    let retry = s.try_batch_operations_idempotent(41, &operations).unwrap();
    assert_eq!(retry, first);
    assert_eq!(s.contract.counter(), counter_after_first);
    assert_eq!(s.balance(&s.from), sender_after_first);
    assert_eq!(s.balance(&s.recipient), recipient_after_first);
    assert_eq!(s.get_status(1), Status::Claimed);
}

#[test]
fn idempotency_key_conflict_is_rejected_without_state_change() {
    let mut s = setup();
    let first_operations = create_and_claim_batch(&s);
    s.try_batch_operations_idempotent(99, &first_operations).unwrap();

    let expiry = s.now + DEFAULT_EXPIRY_OFFSET;
    let different_operations = vec![BatchOperation::Create(CreateTransferOperation {
        from: s.from,
        recipient: s.recipient,
        amount: 1,
        expiry,
    })];
    let sender_before = s.balance(&s.from);
    let counter_before = s.contract.counter();

    let result = s.try_batch_operations_idempotent(99, &different_operations);
    assert_eq!(result, Err(Error::BatchIdConflict));
    assert_eq!(s.contract.counter(), counter_before);
    assert_eq!(s.balance(&s.from), sender_before);
    assert_eq!(s.contract.total_escrowed(), 0);
}

#[test]
fn zero_id_is_rejected_before_any_batch_validation_or_execution() {
    let mut s = setup();
    let operations = create_and_claim_batch(&s);

    let result = s.try_batch_operations_idempotent(0, &operations);
    assert_eq!(result, Err(Error::InvalidBatchId));
    assert_eq!(s.contract.counter(), 0);
    assert!(!s.contract.transfer_exists(1));
    assert_eq!(s.balance(&s.from), 1_000);
    assert_eq!(s.balance(&s.address), 0);
}

#[test]
fn failed_idempotent_batch_does_not_reserve_its_id() {
    let mut s = setup();
    let expiry = s.now + DEFAULT_EXPIRY_OFFSET;
    let invalid = vec![
        BatchOperation::Create(CreateTransferOperation {
            from: s.from,
            recipient: s.recipient,
            amount: 200,
            expiry,
        }),
        BatchOperation::Create(CreateTransferOperation {
            from: s.from,
            recipient: s.from,
            amount: 1,
            expiry,
        }),
    ];

    let failed = s.try_batch_operations_idempotent(7, &invalid);
    assert_eq!(failed, Err(Error::SameParty));
    assert_eq!(s.contract.counter(), 0);
    assert_eq!(s.contract.total_escrowed(), 0);

    let valid = vec![BatchOperation::Create(CreateTransferOperation {
        from: s.from,
        recipient: s.recipient,
        amount: 200,
        expiry,
    })];
    let result = s.try_batch_operations_idempotent(7, &valid).unwrap();
    assert_eq!(result, vec![BatchOperationResult::Created(1)]);
    assert_eq!(s.contract.total_escrowed(), 200);
}

#[test]
fn idempotent_batch_preserves_indexed_order_for_mixed_operations() {
    let mut s = setup();
    let expiry = s.now + DEFAULT_EXPIRY_OFFSET;
    let operations = vec![
        BatchOperation::Create(CreateTransferOperation {
            from: s.from,
            recipient: s.recipient,
            amount: 100,
            expiry,
        }),
        BatchOperation::Claim(ClaimTransferOperation { id: 1, recipient: s.recipient }),
    ];

    let result = s.try_batch_operations_idempotent(8, &operations).unwrap();
    assert_eq!(result.get(0), Some(&BatchOperationResult::Created(1)));
    assert_eq!(result.get(1), Some(&BatchOperationResult::Claimed));
    assert_eq!(result.len(), operations.len());
}

#[test]
fn oversized_idempotent_batch_is_rejected_without_receipt() {
    let mut s = setup();
    let mut operations = Vec::new();
    for _ in 0..=MAX_BATCH_SIZE {
        operations.push(BatchOperation::Claim(ClaimTransferOperation { id: 1, recipient: s.recipient }));
    }

    let result = s.try_batch_operations_idempotent(10, &operations);
    assert_eq!(result, Err(Error::BatchTooLarge));
    assert!(s.contract.storage.get_batch_receipt(10).is_none());
}

#[test]
fn distinct_idempotency_keys_can_execute_distinct_batches() {
    let mut s = setup();
    let expiry = s.now + DEFAULT_EXPIRY_OFFSET;
    let first = vec![BatchOperation::Create(CreateTransferOperation {
        from: s.from,
        recipient: s.recipient,
        amount: 100,
        expiry,
    })];
    let second = vec![BatchOperation::Create(CreateTransferOperation {
        from: s.from,
        recipient: s.recipient,
        amount: 200,
        expiry,
    })];

    assert_eq!(
        s.try_batch_operations_idempotent(1, &first).unwrap(),
        vec![BatchOperationResult::Created(1)]
    );
    assert_eq!(
        s.try_batch_operations_idempotent(2, &second).unwrap(),
        vec![BatchOperationResult::Created(2)]
    );
    assert_eq!(s.contract.total_escrowed(), 300);
}

#[test]
fn legacy_batch_entrypoint_remains_atomic_and_unchanged() {
    let mut s = setup();
    let expiry = s.now + DEFAULT_EXPIRY_OFFSET;
    let operations = vec![
        BatchOperation::Create(CreateTransferOperation {
            from: s.from,
            recipient: s.recipient,
            amount: 150,
            expiry,
        }),
        BatchOperation::Create(CreateTransferOperation {
            from: s.from,
            recipient: s.from,
            amount: 250,
            expiry,
        }),
    ];

    let result = s.try_batch_operations(&operations);
    assert_eq!(result, Err(Error::SameParty));
    assert_eq!(s.contract.counter(), 0);
    assert_eq!(s.contract.total_escrowed(), 0);
    assert_eq!(s.contract.total_escrowed(), 0);
    assert_eq!(s.balance(&s.from), 1_000);
}

#[test]
fn retry_after_atomic_failure_can_use_same_id_with_same_payload() {
    let mut s = setup();
    let expiry = s.now + DEFAULT_EXPIRY_OFFSET;
    let operations = vec![
        BatchOperation::Create(CreateTransferOperation {
            from: s.from,
            recipient: s.recipient,
            amount: 75,
            expiry,
        }),
        BatchOperation::Claim(ClaimTransferOperation { id: 999, recipient: s.recipient }),
    ];

    let failed = s.try_batch_operations_idempotent(13, &operations);
    assert_eq!(failed, Err(Error::TransferNotFound));
    assert_eq!(s.contract.counter(), 0);

    let valid = vec![BatchOperation::Create(CreateTransferOperation {
        from: s.from,
        recipient: s.recipient,
        amount: 75,
        expiry,
    })];
    s.try_batch_operations_idempotent(13, &valid).unwrap();
    assert_eq!(s.contract.counter(), 1);
    assert_eq!(s.contract.total_escrowed(), 75);
}

/// Builder of common contract states for the fixture scenarios.
struct FixtureBuilder {
    admin: Option<Address>,
    from: Option<Address>,
    recipient: Option<Address>,
    sender_balance: i128,
    transfer_amount: i128,
    expiry_offset: u64,
    paused: bool,
    create_transfer: bool,
    claim_transfer: bool,
    cancel_transfer: bool,
    num_transfers: u64,
}

impl FixtureBuilder {
    fn new() -> Self {
        FixtureBuilder {
            admin: None,
            from: None,
            recipient: None,
            sender_balance: DEFAULT_BUILDER_BALANCE,
            transfer_amount: DEFAULT_TRANSFER_AMOUNT,
            expiry_offset: DEFAULT_EXPIRY_OFFSET,
            paused: false,
            create_transfer: true,
            claim_transfer: false,
            cancel_transfer: false,
            num_transfers: 1,
        }
    }

    fn with_sender_balance(mut self, balance: i128) -> Self {
        self.sender_balance = balance;
        self
    }

    fn with_transfer_amount(mut self, amount: i128) -> Self {
        self.transfer_amount = amount;
        self
    }

    fn with_sender(mut self, from: Address) -> Self {
        self.from = Some(from);
        self
    }

    fn with_recipient(mut self, recipient: Address) -> Self {
        self.recipient = Some(recipient);
        self
    }

    fn with_num_transfers(mut self, count: u64) -> Self {
        self.num_transfers = count;
        self
    }

    fn paused(mut self) -> Self {
        self.paused = true;
        self
    }

    fn without_transfer(mut self) -> Self {
        self.create_transfer = false;
        self
    }

    fn claimed(mut self) -> Self {
        self.claim_transfer = true;
        self
    }

    fn cancelled(mut self) -> Self {
        self.cancel_transfer = true;
        self
    }

    fn build(self) -> TestFixture {
        let mut s = TestFixture::bare();
        if let Some(a) = self.admin {
            s.admin = a;
        }
        if let Some(f) = self.from {
            s.from = f;
        }
        if let Some(r) = self.recipient {
            s.recipient = r;
        }
        let (admin, token, from, recipient) = (s.admin, s.token, s.from, s.recipient);
        s.mint(&from, self.sender_balance);
        s.invoke(|c, h| c.initialize(h, admin, token)).unwrap();
        s.add_caller(&from);
        if self.paused {
            s.invoke(|c, h| c.pause(h)).unwrap();
        }
        let mut ids = Vec::new();
        if self.create_transfer {
            for _ in 0..self.num_transfers {
                let expiry = s.now + self.expiry_offset;
                ids.push(s.create_transfer(&from, &recipient, self.transfer_amount, expiry));
            }
        }
        if self.claim_transfer {
            for id in &ids {
                s.now = s.now + self.expiry_offset - 100;
                s.try_claim_transfer(*id, &recipient).unwrap();
            }
        }
        if self.cancel_transfer {
            for id in &ids {
                s.now = s.now + self.expiry_offset + 1;
                s.try_cancel_transfer(*id, &from).unwrap();
            }
        }
        s
    }
}

#[test]
fn default_builder_creates_initialized_contract_with_one_pending_transfer() {
    let fixture = FixtureBuilder::new().build();
    let transfer = fixture.contract.get_transfer(1).unwrap();
    assert_eq!(transfer.status, Status::Pending);
    assert_eq!(transfer.amount, DEFAULT_TRANSFER_AMOUNT);
    assert_eq!(fixture.from, transfer.from);
}

#[test]
fn builder_with_custom_amount_respects_value() {
    let fixture = FixtureBuilder::new().with_transfer_amount(999).build();
    let transfer = fixture.contract.get_transfer(1).unwrap();
    assert_eq!(transfer.amount, 999);
}

#[test]
fn builder_without_transfer_has_empty_counter() {
    let fixture = FixtureBuilder::new().without_transfer().build();
    assert_eq!(fixture.contract.counter(), 0);
}

#[test]
fn builder_claimed_sets_status_to_claimed() {
    let fixture = FixtureBuilder::new().claimed().build();
    let transfer = fixture.contract.get_transfer(1).unwrap();
    assert_eq!(transfer.status, Status::Claimed);
}

#[test]
fn builder_cancelled_sets_status_to_cancelled() {
    let fixture = FixtureBuilder::new().cancelled().build();
    let transfer = fixture.contract.get_transfer(1).unwrap();
    assert_eq!(transfer.status, Status::Cancelled);
}

#[test]
fn builder_paused_rejects_new_transfer() {
    let mut fixture = FixtureBuilder::new().paused().without_transfer().build();
    let (from, recipient) = (fixture.from, fixture.recipient);
    let expiry = fixture.now + DEFAULT_EXPIRY_OFFSET;
    let result = fixture.try_create_transfer(&from, &recipient, DEFAULT_TRANSFER_AMOUNT, expiry);
    assert_eq!(result, Err(Error::ContractPaused));
}

#[test]
fn builder_multiple_transfers_creates_sequential_ids() {
    let fixture = FixtureBuilder::new().with_num_transfers(5).build();
    assert_eq!(fixture.contract.counter(), 5);
    assert!(fixture.contract.transfer_exists(1));
    assert!(fixture.contract.transfer_exists(5));
}

#[test]
fn builder_custom_balance_is_minted() {
    let fixture = FixtureBuilder::new().with_sender_balance(50_000).build();
    let transfer = fixture.contract.get_transfer(1).unwrap();
    assert_eq!(transfer.amount, DEFAULT_TRANSFER_AMOUNT);
    assert_eq!(fixture.balance(&fixture.from), 50_000 - DEFAULT_TRANSFER_AMOUNT);
}

#[test]
fn builder_with_custom_addresses_uses_them() {
    let sender = generate(b'G', 77);
    let recipient = generate(b'G', 78);
    let fixture = FixtureBuilder::new().with_sender(sender).with_recipient(recipient).build();
    let transfer = fixture.contract.get_transfer(1).unwrap();
    assert_eq!(transfer.from, sender);
    assert_eq!(transfer.recipient, recipient);
}

fn upgrade_setup() -> (TestFixture, [u8; 32]) {
    let mut s = TestFixture::bare();
    let (admin, token) = (s.admin, s.token);
    s.invoke(|c, h| c.initialize(h, admin, token)).unwrap();
    (s, [1; 32])
}

#[test]
fn baseline_is_visible_and_starts_at_zero() {
    let (mut s, baseline) = upgrade_setup();
    s.invoke(|c, h| c.set_upgrade_baseline(h, baseline)).unwrap();
    assert_eq!(s.contract.get_upgrade_artifact(), Ok(baseline));
    assert_eq!(s.contract.get_upgrade_version(), 0);
}

#[test]
fn baseline_can_only_be_registered_once() {
    let (mut s, baseline) = upgrade_setup();
    s.invoke(|c, h| c.set_upgrade_baseline(h, baseline)).unwrap();
    assert_eq!(
        s.invoke(|c, h| c.set_upgrade_baseline(h, [2; 32])),
        Err(Error::UpgradeBaselineAlreadySet)
    );
}

#[test]
fn upgrade_requires_a_recorded_baseline() {
    let (mut s, baseline) = upgrade_setup();
    let replacement = [2; 32];
    assert_eq!(
        s.invoke(|c, h| c.upgrade(h, baseline, replacement, 1)),
        Err(Error::UpgradeArtifactMismatch)
    );
}

#[test]
fn wrong_expected_artifact_is_rejected_before_mutation() {
    let (mut s, baseline) = upgrade_setup();
    s.invoke(|c, h| c.set_upgrade_baseline(h, baseline)).unwrap();
    let wrong = [9; 32];
    let replacement = [2; 32];
    assert_eq!(
        s.invoke(|c, h| c.upgrade(h, wrong, replacement, 1)),
        Err(Error::UpgradeArtifactMismatch)
    );
    assert_eq!(s.contract.get_upgrade_artifact(), Ok(baseline));
    assert_eq!(s.contract.get_upgrade_version(), 0);
}

#[test]
fn unchanged_artifact_is_rejected() {
    let (mut s, baseline) = upgrade_setup();
    s.invoke(|c, h| c.set_upgrade_baseline(h, baseline)).unwrap();
    assert_eq!(
        s.invoke(|c, h| c.upgrade(h, baseline, baseline, 1)),
        Err(Error::UpgradeArtifactUnchanged)
    );
}

#[test]
fn release_numbers_must_be_sequential() {
    let (mut s, baseline) = upgrade_setup();
    s.invoke(|c, h| c.set_upgrade_baseline(h, baseline)).unwrap();
    let replacement = [2; 32];
    assert_eq!(
        s.invoke(|c, h| c.upgrade(h, baseline, replacement, 2)),
        Err(Error::UpgradeVersionInvalid)
    );
    assert_eq!(s.contract.get_upgrade_version(), 0);
}

#[test]
fn uninitialized_upgrade_state_is_not_exposed_as_a_valid_release() {
    let s = TestFixture::bare();
    assert_eq!(s.contract.get_upgrade_version(), 0);
    assert_eq!(s.contract.get_upgrade_artifact(), Err(Error::NotInitialized));
}

#[test]
fn initialize_records_configuration_once() {
    let mut s = TestFixture::bare();
    let (admin, token) = (s.admin, s.token);
    s.now = 1_234;
    s.invoke(|c, h| c.initialize(h, admin, token)).unwrap();
    assert_eq!(s.contract.get_admin(), Ok(admin));
    assert_eq!(s.contract.get_token(), Ok(token));
    assert_eq!(s.contract.get_initialized_at(), Ok(1_234));
    assert_eq!(s.authorized, vec![admin]);
    assert_eq!(s.events.last().unwrap().topics.name, "init");
    assert_eq!(
        s.invoke(|c, h| c.initialize(h, admin, token)),
        Err(Error::AlreadyInitialized)
    );
}

#[test]
fn initialize_rejects_the_contract_address() {
    let mut s = TestFixture::bare();
    let (admin, token, me) = (s.admin, s.token, s.address);
    assert_eq!(s.invoke(|c, h| c.initialize(h, me, token)), Err(Error::InvalidAddress));
    assert_eq!(s.invoke(|c, h| c.initialize(h, admin, me)), Err(Error::InvalidAddress));
    assert_eq!(s.contract.get_admin(), Err(Error::NotInitialized));
    assert_eq!(s.contract.get_token(), Err(Error::NotInitialized));
    assert_eq!(s.contract.get_initialized_at(), Err(Error::NotInitialized));
}

#[test]
fn create_transfer_validates_inputs_in_order() {
    let mut s = setup();
    let (from, recipient, me) = (s.from, s.recipient, s.address);
    let expiry = s.future_expiry();
    assert_eq!(s.try_create_transfer(&me, &recipient, 10, expiry), Err(Error::InvalidAddress));
    assert_eq!(s.try_create_transfer(&from, &me, 10, expiry), Err(Error::InvalidAddress));
    let stranger = s.generate_address();
    assert_eq!(
        s.try_create_transfer(&stranger, &recipient, 10, expiry),
        Err(Error::CallerNotAllowed)
    );
    assert_eq!(s.try_create_transfer(&from, &recipient, 0, expiry), Err(Error::InvalidAmount));
    assert_eq!(s.try_create_transfer(&from, &recipient, -5, expiry), Err(Error::InvalidAmount));
    assert_eq!(
        s.try_create_transfer(&from, &recipient, remitflow_contract::MAX_AMOUNT + 1, expiry),
        Err(Error::AmountTooLarge)
    );
    assert_eq!(s.try_create_transfer(&from, &recipient, 10, s.now), Err(Error::InvalidExpiry));
    assert_eq!(
        s.try_create_transfer(
            &from,
            &recipient,
            10,
            s.now + remitflow_contract::MAX_EXPIRY_WINDOW + 1
        ),
        Err(Error::ExpiryTooFar)
    );
    assert_eq!(s.try_create_transfer(&from, &from, 10, expiry), Err(Error::SameParty));
    assert_eq!(s.contract.counter(), 0);
    let id = s.create_transfer(&from, &recipient, 10, s.now + remitflow_contract::MAX_EXPIRY_WINDOW);
    assert_eq!(id, 1);
}

#[test]
fn escrow_cap_and_uninitialized_contract_are_reported() {
    let mut s = setup();
    let (from, recipient) = (s.from, s.recipient);
    let expiry = s.future_expiry();
    s.contract.storage.set_total_escrowed(MAX_TOTAL_ESCROWED);
    assert_eq!(s.try_create_transfer(&from, &recipient, 1, expiry), Err(Error::EscrowCapReached));

    let mut bare = TestFixture::bare();
    assert_eq!(bare.try_create_transfer(&from, &recipient, 1, expiry), Err(Error::NotInitialized));
}

#[test]
fn account_operation_limit_is_enforced() {
    let mut s = setup();
    let (from, recipient) = (s.from, s.recipient);
    for _ in 0..remitflow_contract::MAX_ACCOUNT_OPS {
        s.contract.storage.increment_account_op_count(&from);
    }
    assert_eq!(s.contract.storage.get_account_op_count(&from), remitflow_contract::MAX_ACCOUNT_OPS);
    let expiry = s.future_expiry();
    assert_eq!(s.try_create_transfer(&from, &recipient, 1, expiry), Err(Error::AccountLimitReached));
}

#[test]
fn create_transfer_moves_tokens_and_requests_sender_authorization() {
    let mut s = setup();
    let (from, recipient) = (s.from, s.recipient);
    let expiry = s.future_expiry();
    let mut host = s.host();
    let id = s.contract.create_transfer(&mut host, from, recipient, 250, expiry).unwrap();
    assert_eq!(id, 1);
    assert_eq!(host.effects.len(), 4);
    assert_eq!(host.effects[0], Effect::RequireAuth(from));
    assert_eq!(
        host.effects[1],
        Effect::TokenTransfer { token: s.token, from, to: s.address, amount: 250 }
    );
    assert_eq!(host.effects[2], Effect::RequireSolvency { pending: 250 });
    match host.effects[3] {
        Effect::Publish(e) => {
            assert_eq!(e.topics.name, "created");
            assert_eq!(e.topics.transfer_id, Some(1));
        },
        other => panic!("unexpected effect {:?}", other),
    }
    assert_eq!(
        s.contract.get_transfer(1),
        Ok(Transfer { id: 1, from, recipient, amount: 250, expiry, status: Status::Pending })
    );
    assert_eq!(s.contract.storage.get_account_op_count(&from), 1);
}

#[test]
fn claim_and_cancel_enforce_parties_status_and_expiry() {
    let mut s = setup();
    let (from, recipient, me) = (s.from, s.recipient, s.address);
    let id = s.create_default_transfer();
    let expiry = s.contract.get_transfer(id).unwrap().expiry;
    assert_eq!(s.try_claim_transfer(id, &from), Err(Error::Unauthorized));
    assert_eq!(s.try_claim_transfer(id, &me), Err(Error::InvalidAddress));
    assert_eq!(s.try_claim_transfer(99, &recipient), Err(Error::TransferNotFound));
    assert_eq!(s.try_cancel_transfer(id, &recipient), Err(Error::Unauthorized));
    assert_eq!(s.try_cancel_transfer(id, &from), Err(Error::NotExpired));
    assert_eq!(s.try_sweep_expired(id), Err(Error::NotExpired));
    s.now = expiry;
    assert_eq!(s.contract.is_expired(&s.host(), id), Ok(false));
    s.now = expiry + 1;
    assert_eq!(s.contract.is_expired(&s.host(), id), Ok(true));
    assert_eq!(s.contract.is_expired(&s.host(), 99), Err(Error::TransferNotFound));
    assert_eq!(s.try_claim_transfer(id, &recipient), Err(Error::Expired));
    s.try_cancel_transfer(id, &from).unwrap();
    assert_eq!(s.try_cancel_transfer(id, &from), Err(Error::NotPending));
    assert_eq!(s.try_claim_transfer(id, &recipient), Err(Error::NotPending));
    assert_eq!(s.try_sweep_expired(id), Err(Error::NotPending));
    assert_eq!(s.try_sweep_expired(42), Err(Error::TransferNotFound));
}

#[test]
fn claim_is_allowed_exactly_at_expiry() {
    let mut s = setup();
    let id = s.create_default_transfer();
    let recipient = s.recipient;
    s.now = s.contract.get_transfer(id).unwrap().expiry;
    s.try_claim_transfer(id, &recipient).unwrap();
    assert_eq!(s.balance(&recipient), DEFAULT_TRANSFER_AMOUNT);
    assert_eq!(s.get_status(id), Status::Claimed);
    match s.events.last().unwrap().payload {
        EventPayload::Claimed(p) => {
            assert_eq!(p.transfer_id, id);
            assert_eq!(p.amount, DEFAULT_TRANSFER_AMOUNT);
        },
        other => panic!("unexpected payload {:?}", other),
    }
}

#[test]
fn pause_and_unpause_follow_the_cooldown() {
    let mut s = setup();
    s.now = 1_000;
    s.invoke(|c, h| c.pause(h)).unwrap();
    assert!(s.contract.is_paused());
    assert_eq!(s.contract.storage.get_last_privileged_call(), 1_000);
    s.now = 1_299;
    assert_eq!(s.invoke(|c, h| c.unpause(h)), Err(Error::CooldownNotElapsed));
    assert!(s.contract.is_paused());
    s.now = 1_300;
    s.invoke(|c, h| c.unpause(h)).unwrap();
    assert!(!s.contract.is_paused());
    assert_eq!(s.events.last().unwrap().topics.name, "unpaused");
}

#[test]
fn admin_handover_takes_two_steps() {
    let mut s = setup();
    let new_admin = s.generate_address();
    let me = s.address;
    assert_eq!(s.invoke(|c, h| c.accept_admin(h)), Err(Error::NoPendingAdmin));
    assert_eq!(s.invoke(|c, h| c.transfer_admin(h, me)), Err(Error::InvalidAddress));
    s.now = 500;
    s.invoke(|c, h| c.transfer_admin(h, new_admin)).unwrap();
    assert_eq!(s.contract.get_pending_admin(), Some(new_admin));
    assert_eq!(s.contract.get_admin(), Ok(s.admin));
    s.now = 600;
    assert_eq!(s.invoke(|c, h| c.accept_admin(h)), Err(Error::CooldownNotElapsed));
    s.now = 800;
    s.invoke(|c, h| c.accept_admin(h)).unwrap();
    assert_eq!(s.contract.get_admin(), Ok(new_admin));
    assert_eq!(s.contract.get_pending_admin(), None);
    assert_eq!(s.authorized.last(), Some(&new_admin));
}

#[test]
fn allowlist_changes_are_admin_actions() {
    let mut s = setup();
    let caller = s.generate_address();
    let me = s.address;
    assert!(!s.contract.is_caller_allowed(caller));
    s.invoke(|c, h| c.add_caller(h, caller)).unwrap();
    assert!(s.contract.is_caller_allowed(caller));
    assert_eq!(s.invoke(|c, h| c.add_caller(h, me)), Err(Error::InvalidAddress));
    s.invoke(|c, h| c.remove_caller(h, caller)).unwrap();
    assert!(!s.contract.is_caller_allowed(caller));
    assert_eq!(s.authorized.last(), Some(&s.admin));
    assert_eq!(s.events.last().unwrap().topics.name, "caller_removed");
}

#[test]
fn versioned_caller_updates_are_sequential_and_replayable() {
    let mut s = setup();
    let caller = s.generate_address();
    let first = s.invoke(|c, h| c.update_caller_versioned(h, caller, true, 1)).unwrap();
    assert!(first.changed && !first.duplicate);
    assert_eq!(first.version, 1);
    assert!(s.contract.is_caller_allowed(caller));
    assert_eq!(s.contract.caller_registry_version(), 1);
    let events_before = s.events.len();

    let replay = s.invoke(|c, h| c.update_caller_versioned(h, caller, true, 1)).unwrap();
    assert!(!replay.changed && replay.duplicate);
    assert_eq!(replay.version, 1);
    assert_eq!(s.events.len(), events_before);

    assert_eq!(
        s.invoke(|c, h| c.update_caller_versioned(h, caller, false, 1)),
        Err(Error::StaleCallerUpdate)
    );
    assert_eq!(
        s.invoke(|c, h| c.update_caller_versioned(h, caller, false, 3)),
        Err(Error::StaleCallerUpdate)
    );
    let second = s.invoke(|c, h| c.update_caller_versioned(h, caller, false, 2)).unwrap();
    assert!(second.changed);
    assert!(!s.contract.is_caller_allowed(caller));
    assert_eq!(s.contract.caller_registry_version(), 2);
}

#[test]
fn versioned_caller_update_respects_cooldown() {
    let mut s = setup();
    let caller = s.generate_address();
    s.now = 10_000;
    s.invoke(|c, h| c.update_caller_versioned(h, caller, true, 1)).unwrap();
    s.now = 10_100;
    assert_eq!(
        s.invoke(|c, h| c.update_caller_versioned(h, caller, false, 2)),
        Err(Error::CooldownNotElapsed)
    );
    let replay = s.invoke(|c, h| c.update_caller_versioned(h, caller, true, 1)).unwrap();
    assert!(replay.duplicate);
}

#[test]
fn paged_listing_is_bounded_and_ascending() {
    let mut s = setup();
    let (from, recipient) = (s.from, s.recipient);
    s.mint(&from, 10_000);
    let expiry = s.future_expiry();
    for _ in 0..5 {
        s.create_transfer(&from, &recipient, 10, expiry);
    }
    let page: Vec<u64> = s.contract.get_transfers_paged(0, 2).iter().map(|t| t.id).collect();
    assert_eq!(page, vec![1, 2]);
    let page: Vec<u64> = s.contract.get_transfers_paged(4, 25).iter().map(|t| t.id).collect();
    assert_eq!(page, vec![4, 5]);
    assert!(s.contract.get_transfers_paged(6, 25).is_empty());
    assert!(s.contract.get_transfers_paged(1, 0).is_empty());
    s.invoke(|c, h| c.claim_transfer(h, 2, recipient)).unwrap();
    assert!(s.contract.storage.remove_terminal_transfer(2));
    assert!(!s.contract.storage.remove_terminal_transfer(3));
    let page: Vec<u64> = s.contract.get_transfers_paged(1, 3).iter().map(|t| t.id).collect();
    assert_eq!(page, vec![1, 3, 4]);
    assert!(TestFixture::bare().contract.get_transfers_paged(1, 10).is_empty());
}

#[test]
fn counts_by_sender_recipient_and_status() {
    let mut s = setup();
    let (from, recipient) = (s.from, s.recipient);
    let other = s.generate_address();
    s.mint(&from, 10_000);
    let expiry = s.future_expiry();
    s.create_transfer(&from, &recipient, 10, expiry);
    s.create_transfer(&from, &other, 10, expiry);
    s.create_transfer(&from, &recipient, 10, expiry);
    s.try_claim_transfer(1, &recipient).unwrap();
    assert_eq!(s.contract.count_for_sender(from), 3);
    assert_eq!(s.contract.count_for_sender(recipient), 0);
    assert_eq!(s.contract.count_for_recipient(recipient), 2);
    assert_eq!(s.contract.count_for_recipient(other), 1);
    assert_eq!(s.contract.count_by_status(Status::Pending), 2);
    assert_eq!(s.contract.count_by_status(Status::Claimed), 1);
    assert_eq!(s.contract.count_by_status(Status::Cancelled), 0);
}

#[test]
fn sweep_batch_releases_each_expired_transfer_once() {
    let mut s = setup();
    let (from, recipient) = (s.from, s.recipient);
    let expiry = s.future_expiry();
    s.create_transfer(&from, &recipient, 100, expiry);
    s.create_transfer(&from, &recipient, 200, expiry);
    // Nothing is expired yet: the sweep inspects and sweeps nothing.
    assert_eq!(s.invoke(|c, h| c.sweep_expired_batch(h, 0, 10)), Ok(vec![]));
    s.now = expiry + 1;
    assert_eq!(s.invoke(|c, h| c.sweep_expired_batch(h, 1, 10)), Ok(vec![1, 2]));
    assert_eq!(s.get_status(1), Status::Cancelled);
    assert_eq!(s.get_status(2), Status::Cancelled);
    assert_eq!(s.contract.total_escrowed(), 0);
    assert_eq!(s.contract.total_released(), 300);
    assert_eq!(s.contract.total_funded(), 300);
    assert_eq!(s.balance(&from), DEFAULT_SENDER_BALANCE);
    assert_eq!(s.balance(&s.address), 0);
    assert_conserved(&s);
    // Repeating the range at the same time sweeps nothing.
    assert_eq!(s.invoke(|c, h| c.sweep_expired_batch(h, 1, 10)), Ok(vec![]));
    assert_eq!(s.contract.total_released(), 300);
    let mut bare = TestFixture::bare();
    assert_eq!(bare.invoke(|c, h| c.sweep_expired_batch(h, 1, 10)), Err(Error::NotInitialized));
}

#[test]
fn sweep_batch_range_starts_at_one_and_is_bounded() {
    let mut s = setup();
    let (from, recipient) = (s.from, s.recipient);
    let expiry = s.future_expiry();
    s.create_transfer(&from, &recipient, 100, expiry);
    s.create_transfer(&from, &recipient, 200, expiry);
    s.now = expiry + 1;
    // Limit zero inspects nothing.
    assert_eq!(s.invoke(|c, h| c.sweep_expired_batch(h, 0, 0)), Ok(vec![]));
    // A start beyond the counter inspects nothing.
    assert_eq!(s.invoke(|c, h| c.sweep_expired_batch(h, 3, 10)), Ok(vec![]));
    let mut host = s.host();
    let r = s.contract.sweep_expired_batch(&mut host, 0, 1);
    assert_eq!(r, Ok(vec![1]));
    assert_eq!(
        host.effects[0],
        Effect::TokenTransfer { token: s.token, from: s.address, to: from, amount: 100 }
    );
    assert_eq!(host.effects.len(), 3);
    assert_eq!(host.effects[2], Effect::RequireSolvency { pending: 200 });
    assert_eq!(s.get_status(2), Status::Pending);
    assert_eq!(s.contract.total_escrowed(), 200);
    assert_eq!(s.contract.total_released(), 100);
}

#[test]
fn sweep_batch_stops_on_a_release_the_accounting_refuses() {
    let mut s = setup();
    let (from, recipient) = (s.from, s.recipient);
    let expiry = s.future_expiry();
    s.create_transfer(&from, &recipient, 100, expiry);
    s.now = expiry + 1;
    // A pending total below the transfer's amount cannot be released.
    s.contract.storage.set_total_escrowed(50);
    assert_eq!(
        s.invoke(|c, h| c.sweep_expired_batch(h, 1, 10)),
        Err(Error::AccountingOverflow)
    );
    assert_eq!(s.get_status(1), Status::Pending);
    assert_eq!(s.contract.total_escrowed(), 50);
}

#[test]
fn supply_check_requires_initialization_and_solvency() {
    let mut s = setup();
    assert_eq!(TestFixture::bare().check_supply_invariant(), Err(Error::NotInitialized));
    s.create_default_transfer();
    let contract_address = s.address;
    *s.balances.get_mut(&contract_address).unwrap() -= 1;
    assert_eq!(s.check_supply_invariant(), Err(Error::SupplyInvariantViolation));
}

#[test]
fn limits_and_error_codes_are_stable() {
    let s = TestFixture::bare();
    let limits = s.contract.get_limits();
    assert_eq!(limits.max_amount, 1_000_000_000_000_000_000);
    assert_eq!(limits.max_expiry_window, 31_536_000);
    assert_eq!(limits.max_total_escrowed, 1_000_000_000_000_000_000);
    assert_eq!(limits.max_page_size, 100);
    assert_eq!(Error::AlreadyInitialized.code(), 1);
    assert_eq!(Error::EscrowCapReached.code(), 15);
    assert_eq!(Error::ContractPaused.code(), 13);
    assert_eq!(Error::SupplyInvariantViolation.code(), 20);
    assert_eq!(Error::CooldownNotElapsed.code(), 21);
    assert_eq!(Error::BatchIdConflict.code(), 25);
}

#[test]
fn upgrade_advances_release_and_replaces_wasm() {
    let (mut s, baseline) = upgrade_setup();
    s.invoke(|c, h| c.set_upgrade_baseline(h, baseline)).unwrap();
    let replacement = [2; 32];
    s.now = 1_000;
    let mut host = s.host();
    s.contract.upgrade(&mut host, baseline, replacement, 1).unwrap();
    assert_eq!(s.contract.get_upgrade_artifact(), Ok(replacement));
    assert_eq!(s.contract.get_upgrade_version(), 1);
    assert_eq!(host.effects.last(), Some(&Effect::UpdateWasm(replacement)));
    s.now = 1_010;
    assert_eq!(
        s.invoke(|c, h| c.upgrade(h, replacement, [3; 32], 2)),
        Err(Error::CooldownNotElapsed)
    );
}

#[test]
fn batch_cancel_operation_refunds_after_expiry() {
    let mut s = setup();
    let id = s.create_default_transfer();
    s.now = s.future_expiry() + 1;
    let ops = vec![BatchOperation::Cancel(CancelTransferOperation { id, from: s.from })];
    assert_eq!(s.try_batch_operations(&ops), Ok(vec![BatchOperationResult::Cancelled]));
    assert_eq!(s.balance(&s.from), DEFAULT_SENDER_BALANCE);
    assert_eq!(s.get_status(id), Status::Cancelled);
}

#[test]
fn short_crediting_token_fails_the_solvency_requirement() {
    let mut s = setup();
    let (from, recipient) = (s.from, s.recipient);
    let expiry = s.future_expiry();
    s.credit_shortfall = 1;
    assert_eq!(
        s.try_create_transfer(&from, &recipient, 100, expiry),
        Err(Error::SupplyInvariantViolation)
    );
    assert_eq!(s.contract.counter(), 0);
    assert_eq!(s.contract.total_escrowed(), 0);
    assert_balances_unchanged(&s, DEFAULT_SENDER_BALANCE, 0, 0);
    // The library requests the check with the pending total it leaves.
    let mut host = s.host();
    assert_eq!(s.contract.create_transfer(&mut host, from, recipient, 100, expiry), Ok(1));
    assert!(host.effects.contains(&Effect::RequireSolvency { pending: 100 }));
}
