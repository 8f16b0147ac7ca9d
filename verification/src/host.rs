//! The host side of an invocation: what the ledger tells the contract, and
//! the outside actions the contract asks the host to perform.

use vstd::prelude::*;

use crate::address::Address;
use crate::events::ContractEvent;

verus! {

/// An outside action requested by the contract, performed by the host in
/// order. A failed authorization, token transfer or solvency requirement
/// aborts the invocation, undoing everything it did.
#[derive(Clone, Copy, Debug, PartialEq, Eq)]
pub enum Effect {
    /// `address` must have authorized this invocation.
    RequireAuth(Address),
    /// Move `amount` of `token` from `from` to `to`.
    TokenTransfer { token: Address, from: Address, to: Address, amount: i128 },
    /// Publish an event.
    Publish(ContractEvent),
    /// Replace the contract's wasm with the artifact of the given hash.
    UpdateWasm([u8; 32]),
    /// The contract's balance of the escrow token, measured at this point,
    /// must cover `pending`; otherwise the invocation fails with
    /// `SupplyInvariantViolation` (see `EscrowAccounting::check_solvency`).
    RequireSolvency { pending: i128 },
}

/// The contents of a [`Host`].
pub struct HostModel {
    pub timestamp: u64,
    pub contract: Address,
    pub balance: i128,
    pub effects: Seq<Effect>,
}

impl HostModel {
    pub open spec fn auth(self, a: Address) -> HostModel {
        HostModel { effects: self.effects.push(Effect::RequireAuth(a)), ..self }
    }

    pub open spec fn emit(self, e: ContractEvent) -> HostModel {
        HostModel { effects: self.effects.push(Effect::Publish(e)), ..self }
    }

    pub open spec fn update_wasm(self, hash: [u8; 32]) -> HostModel {
        HostModel { effects: self.effects.push(Effect::UpdateWasm(hash)), ..self }
    }

    pub open spec fn pay(self, token: Address, from: Address, to: Address, amount: i128) -> HostModel {
        HostModel { effects: self.effects.push(Effect::TokenTransfer { token, from, to, amount }), ..self }
    }

    pub open spec fn require_solvency(self, pending: i128) -> HostModel {
        HostModel { effects: self.effects.push(Effect::RequireSolvency { pending }), ..self }
    }
}

/// The ledger context of one invocation, and the log of outside actions it
/// requests. `balance` is the contract's balance of the escrow token when the
/// invocation starts; balances after a requested transfer are measured by the
/// host, when it performs a `RequireSolvency` action.
pub struct Host {
    /// Ledger timestamp, in seconds.
    pub timestamp: u64,
    /// The contract's own address.
    pub contract: Address,
    /// The contract's balance of the escrow token when the invocation starts.
    pub balance: i128,
    /// Requested outside actions, in order.
    pub effects: Vec<Effect>,
}

impl View for Host {
    type V = HostModel;

    open spec fn view(&self) -> HostModel {
        HostModel {
            timestamp: self.timestamp,
            contract: self.contract,
            balance: self.balance,
            effects: self.effects@,
        }
    }
}

impl Host {
    /// A host at `timestamp` for the contract at `contract`, holding
    /// `balance` of the escrow token, with no action requested yet.
    pub fn new(timestamp: u64, contract: Address, balance: i128) -> (r: Host)
        ensures
            r@ == (HostModel { timestamp, contract, balance, effects: Seq::empty() }),
    {
        Host { timestamp, contract, balance, effects: Vec::new() }
    }

    /// Request that `a` authorizes the invocation.
    pub fn require_auth(&mut self, a: Address)
        ensures
            final(self)@ == old(self)@.auth(a),
    {
        self.effects.push(Effect::RequireAuth(a));
    }

    /// Request publication of `e`.
    pub fn publish(&mut self, e: ContractEvent)
        ensures
            final(self)@ == old(self)@.emit(e),
    {
        self.effects.push(Effect::Publish(e));
    }

    /// Request replacement of the contract's wasm.
    pub fn update_current_contract_wasm(&mut self, hash: [u8; 32])
        ensures
            final(self)@ == old(self)@.update_wasm(hash),
    {
        self.effects.push(Effect::UpdateWasm(hash));
    }

    /// Request a token transfer.
    pub fn transfer(&mut self, token: Address, from: Address, to: Address, amount: i128)
        ensures
            final(self)@ == old(self)@.pay(token, from, to, amount),
    {
        self.effects.push(Effect::TokenTransfer { token, from, to, amount });
    }

    /// Request that the contract's measured token balance covers `pending`.
    pub fn require_solvency(&mut self, pending: i128)
        ensures
            final(self)@ == old(self)@.require_solvency(pending),
    {
        self.effects.push(Effect::RequireSolvency { pending });
    }
}

} // verus!
