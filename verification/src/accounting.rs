//! Single owner of every escrow balance mutation: the liability ledger of
//! pending, lifetime-funded and lifetime-released totals.

use vstd::prelude::*;

use crate::error::Error;
use crate::normalize::{checked_add_amount, checked_sub_amount};
use crate::storage::{Storage, StorageModel};
use crate::MAX_TOTAL_ESCROWED;

verus! {

/// Whether `x` lies in the `i128` range.
pub open spec fn fits_i128(x: int) -> bool {
    i128::MIN <= x <= i128::MAX
}

/// Whether a new escrow of `amount` can be recorded: the pending total stays
/// in range and within the cap, and the lifetime funded total stays in range.
pub open spec fn funding_check(s: StorageModel, amount: i128) -> Result<(), Error> {
    if !fits_i128(s.total_escrowed + amount) {
        Err(Error::AccountingOverflow)
    } else if s.total_escrowed + amount > MAX_TOTAL_ESCROWED {
        Err(Error::EscrowCapReached)
    } else if !fits_i128(s.total_funded + amount) {
        Err(Error::AccountingOverflow)
    } else {
        Ok(())
    }
}

/// Whether a terminal transition can release `amount`: it is non-negative,
/// at most the pending total, and the lifetime released total stays in range.
pub open spec fn release_check(s: StorageModel, amount: i128) -> Result<(), Error> {
    if amount < 0 || s.total_escrowed < amount {
        Err(Error::AccountingOverflow)
    } else if !fits_i128(s.total_released + amount) {
        Err(Error::AccountingOverflow)
    } else {
        Ok(())
    }
}

/// The totals after funding `amount`.
pub open spec fn funded(s: StorageModel, amount: i128) -> StorageModel {
    StorageModel {
        total_escrowed: (s.total_escrowed + amount) as i128,
        total_funded: (s.total_funded + amount) as i128,
        ..s
    }
}

/// The totals after releasing `amount`.
pub open spec fn released(s: StorageModel, amount: i128) -> StorageModel {
    StorageModel {
        total_escrowed: (s.total_escrowed - amount) as i128,
        total_released: (s.total_released + amount) as i128,
        ..s
    }
}

/// Internal conservation of the totals: `funded == pending + released`.
pub open spec fn conservation_check(s: StorageModel) -> Result<(), Error> {
    if !fits_i128(s.total_escrowed + s.total_released) {
        Err(Error::AccountingOverflow)
    } else if s.total_funded != s.total_escrowed + s.total_released {
        Err(Error::SupplyInvariantViolation)
    } else {
        Ok(())
    }
}

/// External solvency: a token balance of `balance` covers `pending`.
pub open spec fn solvency_check(balance: i128, pending: i128) -> Result<(), Error> {
    if balance < pending {
        Err(Error::SupplyInvariantViolation)
    } else {
        Ok(())
    }
}

/// Internal conservation (`funded == pending + released`) and external
/// solvency (the contract holds at least the pending total).
pub open spec fn invariant_check(s: StorageModel, balance: i128) -> Result<(), Error> {
    if conservation_check(s) is Err {
        conservation_check(s)
    } else {
        solvency_check(balance, s.total_escrowed)
    }
}

/// Internal conservation of the lifetime totals.
pub open spec fn conserved(s: StorageModel) -> bool {
    s.total_funded == s.total_escrowed + s.total_released
}

/// Accounting façade for escrow funding and release operations.
pub struct EscrowAccounting;

impl EscrowAccounting {
    /// Check whether a new escrow of `amount` can be recorded without
    /// exceeding the cap or overflowing a total.
    pub fn validate_funding(storage: &Storage, amount: i128) -> (r: Result<(), Error>)
        ensures
            r == funding_check(storage@, amount),
    {
        let pending = storage.get_total_escrowed();
        let next_pending = match checked_add_amount(pending, amount) {
            Some(v) => v,
            None => return Err(Error::AccountingOverflow),
        };
        if next_pending > MAX_TOTAL_ESCROWED {
            return Err(Error::EscrowCapReached);
        }
        match checked_add_amount(storage.get_total_funded(), amount) {
            Some(_) => Ok(()),
            None => Err(Error::AccountingOverflow),
        }
    }

    /// Check whether a terminal transition can release `amount`.
    pub fn validate_release(storage: &Storage, amount: i128) -> (r: Result<(), Error>)
        ensures
            r == release_check(storage@, amount),
    {
        let pending = storage.get_total_escrowed();
        if amount < 0 || pending < amount {
            return Err(Error::AccountingOverflow);
        }
        if checked_sub_amount(pending, amount).is_none() {
            return Err(Error::AccountingOverflow);
        }
        match checked_add_amount(storage.get_total_released(), amount) {
            Some(_) => Ok(()),
            None => Err(Error::AccountingOverflow),
        }
    }

    /// Record a token transfer of `amount` into escrow.
    pub fn record_funding(storage: &mut Storage, amount: i128) -> (r: Result<(), Error>)
        ensures
            r == funding_check(old(storage)@, amount),
            final(storage)@ == (if r is Ok {
                funded(old(storage)@, amount)
            } else {
                old(storage)@
            }),
    {
        Self::validate_funding(storage, amount)?;
        let next_pending = match checked_add_amount(storage.get_total_escrowed(), amount) {
            Some(v) => v,
            None => return Err(Error::AccountingOverflow),
        };
        let next_funded = match checked_add_amount(storage.get_total_funded(), amount) {
            Some(v) => v,
            None => return Err(Error::AccountingOverflow),
        };
        storage.set_total_escrowed(next_pending);
        storage.set_total_funded(next_funded);
        Ok(())
    }

    /// Record a token transfer of `amount` out of escrow.
    pub fn record_release(storage: &mut Storage, amount: i128) -> (r: Result<(), Error>)
        ensures
            r == release_check(old(storage)@, amount),
            final(storage)@ == (if r is Ok {
                released(old(storage)@, amount)
            } else {
                old(storage)@
            }),
    {
        Self::validate_release(storage, amount)?;
        let next_pending = match checked_sub_amount(storage.get_total_escrowed(), amount) {
            Some(v) => v,
            None => return Err(Error::AccountingOverflow),
        };
        let next_released = match checked_add_amount(storage.get_total_released(), amount) {
            Some(v) => v,
            None => return Err(Error::AccountingOverflow),
        };
        storage.set_total_escrowed(next_pending);
        storage.set_total_released(next_released);
        Ok(())
    }

    /// Verify internal conservation of the totals.
    pub fn assert_conserved(storage: &Storage) -> (r: Result<(), Error>)
        ensures
            r == conservation_check(storage@),
    {
        let expected_funded = match checked_add_amount(
            storage.get_total_escrowed(),
            storage.get_total_released(),
        ) {
            Some(v) => v,
            None => return Err(Error::AccountingOverflow),
        };
        if storage.get_total_funded() != expected_funded {
            return Err(Error::SupplyInvariantViolation);
        }
        Ok(())
    }

    /// Verify that the contract's measured `balance` of the escrow token
    /// covers the `pending` total.
    pub fn check_solvency(balance: i128, pending: i128) -> (r: Result<(), Error>)
        ensures
            r == solvency_check(balance, pending),
    {
        if balance < pending {
            Err(Error::SupplyInvariantViolation)
        } else {
            Ok(())
        }
    }

    /// Verify internal conservation and external token solvency, given the
    /// contract's current `balance` of the escrow token.
    pub fn assert_invariant(storage: &Storage, balance: i128) -> (r: Result<(), Error>)
        ensures
            r == invariant_check(storage@, balance),
    {
        Self::assert_conserved(storage)?;
        Self::check_solvency(balance, storage.get_total_escrowed())
    }
}

} // verus!
