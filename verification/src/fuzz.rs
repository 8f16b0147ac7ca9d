//! Inputs of randomized lifecycle testing: a sequence of actions by four
//! users against one contract.

use vstd::prelude::*;

verus! {

/// One step of a randomized lifecycle run. Indices select among the four
/// users or among the transfers created so far, modulo their number.
#[derive(Clone, Copy, Debug, PartialEq, Eq)]
pub enum Action {
    AdvanceTime { delta: u32 },
    CreateTransfer { amount: i128, expiry_delta: u32, from_idx: u8, recipient_idx: u8 },
    ClaimTransfer { id_idx: u8, recipient_idx: u8 },
    CancelTransfer { id_idx: u8, from_idx: u8 },
    SweepExpired { id_idx: u8 },
}

/// A randomized lifecycle run: the users' initial token balances and the
/// actions to apply.
#[derive(Clone, Debug, PartialEq, Eq)]
pub struct FuzzData {
    pub initial_balances: [i128; 4],
    pub actions: Vec<Action>,
}

} // verus!
