//! What single entrypoints guarantee, stated directly over their inputs and
//! results: the expiry window, page completeness, exact counts, claims that
//! a pause cannot block, and the exact supply check.

use vstd::prelude::*;

use crate::accounting::{conservation_check, invariant_check};
use crate::address::Address;
use crate::error::Error;
use crate::host::HostModel;
use crate::laws::keyed_by_id;
use crate::model::{
    cancel_transfer_step, claim_transfer_step, count_where, create_transfer_step, stored_from,
    sweep_expired_step, transfers_page,
};
use crate::storage::StorageModel;
use crate::types::{Status, Transfer};
use crate::{MAX_ACCOUNT_OPS, MAX_AMOUNT, MAX_EXPIRY_WINDOW, MAX_PAGE_SIZE, MAX_TOTAL_ESCROWED};

verus! {

/// The expiry window is measured from the ledger time of the call. When
/// every other creation check passes and the expiry lies after `now`, a
/// creation is refused with `ExpiryTooFar` exactly when the expiry lies more
/// than `MAX_EXPIRY_WINDOW` seconds after `now`. Within the window, and with
/// a free id and balanced totals, the transfer is created: it receives the
/// next id and is stored pending with the given parties, amount and expiry.
pub proof fn lemma_expiry_window_measured_from_now(
    s: StorageModel,
    h: HostModel,
    from: Address,
    recipient: Address,
    amount: i128,
    expiry: u64,
)
    requires
        s.token is Some,
        from != h.contract,
        recipient != h.contract,
        from != recipient,
        !s.paused,
        s.caller_allowed(from),
        s.op_count(from) < MAX_ACCOUNT_OPS,
        0 < amount <= MAX_AMOUNT,
        s.total_escrowed + amount <= MAX_TOTAL_ESCROWED,
        s.total_funded + amount <= i128::MAX,
        h.timestamp < expiry,
    ensures
        (create_transfer_step(s, h, from, recipient, amount, expiry).result == Err::<
            (StorageModel, u64),
            Error,
        >(Error::ExpiryTooFar)) <==> expiry - h.timestamp > MAX_EXPIRY_WINDOW,
        expiry - h.timestamp <= MAX_EXPIRY_WINDOW && s.counter < u64::MAX && s.total_funded
            == s.total_escrowed + s.total_released ==> ({
            let st = create_transfer_step(s, h, from, recipient, amount, expiry);
            let id = (s.counter + 1) as u64;
            &&& st.result is Ok
            &&& st.result->Ok_0.1 == id
            &&& st.result->Ok_0.0.transfers.contains_key(id)
            &&& st.result->Ok_0.0.transfers[id] == (Transfer {
                id,
                from,
                recipient,
                amount,
                expiry,
                status: Status::Pending,
            })
        }),
{
}

/// The supply check is exact: it passes exactly when the funded total equals
/// the pending total plus the released total and the contract's balance
/// covers the pending total. Conservation alone passes exactly when the
/// totals balance; a surplus in the funded total fails like a deficit.
pub proof fn lemma_supply_check_exact(s: StorageModel, balance: i128)
    ensures
        conservation_check(s) is Ok <==> s.total_funded == s.total_escrowed + s.total_released,
        invariant_check(s, balance) is Ok <==> (s.total_funded == s.total_escrowed
            + s.total_released && balance >= s.total_escrowed),
        s.total_funded != s.total_escrowed + s.total_released && i128::MIN <= s.total_escrowed
            + s.total_released <= i128::MAX ==> invariant_check(s, balance) == Err::<(), Error>(
            Error::SupplyInvariantViolation,
        ),
        s.total_funded == s.total_escrowed + s.total_released && balance < s.total_escrowed
            ==> invariant_check(s, balance) == Err::<(), Error>(Error::SupplyInvariantViolation),
{
}

/// Pausing blocks only the creation of new transfers: a claim gives the same
/// error, or the same success and requested actions, whether or not the
/// contract is paused, and it leaves the paused flag as it was.
pub proof fn lemma_claim_ignores_pause(
    s: StorageModel,
    h: HostModel,
    id: u64,
    recipient: Address,
    paused: bool,
)
    ensures
        ({
            let sp = StorageModel { paused, ..s };
            let a = claim_transfer_step(s, h, id, recipient);
            let b = claim_transfer_step(sp, h, id, recipient);
            &&& b.host == a.host
            &&& a.result is Err ==> b.result == a.result
            &&& a.result matches Ok((s1, u)) ==> b.result == Ok::<(StorageModel, ()), Error>(
                (StorageModel { paused, ..s1 }, u),
            )
        }),
{
}

/// Pausing does not block refunds either: a cancellation by the sender, and
/// an expiry sweep, give the same outcome whether or not the contract is
/// paused, and leave the paused flag as it was.
pub proof fn lemma_refunds_ignore_pause(
    s: StorageModel,
    h: HostModel,
    id: u64,
    from: Address,
    paused: bool,
)
    ensures
        ({
            let sp = StorageModel { paused, ..s };
            let a = cancel_transfer_step(s, h, id, from);
            let b = cancel_transfer_step(sp, h, id, from);
            &&& b.host == a.host
            &&& a.result is Err ==> b.result == a.result
            &&& a.result matches Ok((s1, u)) ==> b.result == Ok::<(StorageModel, ()), Error>(
                (StorageModel { paused, ..s1 }, u),
            )
        }),
        ({
            let sp = StorageModel { paused, ..s };
            let a = sweep_expired_step(s, h, id);
            let b = sweep_expired_step(sp, h, id);
            &&& b.host == a.host
            &&& a.result is Err ==> b.result == a.result
            &&& a.result matches Ok((s1, u)) ==> b.result == Ok::<(StorageModel, ()), Error>(
                (StorageModel { paused, ..s1 }, u),
            )
        }),
{
}

/// The recipient of a pending transfer can claim it up to its expiry,
/// whether or not the contract is paused, whenever the pending total covers
/// its amount and the totals balance: the transfer becomes claimed and its
/// amount moves from the pending to the released total.
pub proof fn lemma_claim_succeeds_before_expiry(s: StorageModel, h: HostModel, id: u64)
    requires
        s.token is Some,
        s.transfers.contains_key(id),
        s.transfers[id].id == id,
        s.transfers[id].status == Status::Pending,
        s.transfers[id].recipient != h.contract,
        h.timestamp <= s.transfers[id].expiry,
        0 <= s.transfers[id].amount <= s.total_escrowed,
        s.total_released + s.transfers[id].amount <= i128::MAX,
        s.total_funded == s.total_escrowed + s.total_released,
    ensures
        ({
            let t = s.transfers[id];
            let st = claim_transfer_step(s, h, id, t.recipient);
            let s2 = st.result->Ok_0.0;
            &&& st.result is Ok
            &&& s2.transfers[id] == (Transfer { status: Status::Claimed, ..t })
            &&& s2.total_escrowed == s.total_escrowed - t.amount
            &&& s2.total_released == s.total_released + t.amount
            &&& s2.paused == s.paused
        }),
{
}

/// After its expiry, a pending transfer can be refunded to its sender,
/// paused or not, whenever the pending total covers its amount and the
/// totals balance: by the sender's cancellation, and by anyone's sweep. The
/// transfer becomes cancelled and its amount moves from the pending to the
/// released total.
pub proof fn lemma_refund_succeeds_after_expiry(s: StorageModel, h: HostModel, id: u64)
    requires
        s.token is Some,
        s.transfers.contains_key(id),
        s.transfers[id].id == id,
        s.transfers[id].status == Status::Pending,
        s.transfers[id].from != h.contract,
        h.timestamp > s.transfers[id].expiry,
        0 <= s.transfers[id].amount <= s.total_escrowed,
        s.total_released + s.transfers[id].amount <= i128::MAX,
        s.total_funded == s.total_escrowed + s.total_released,
    ensures
        ({
            let t = s.transfers[id];
            let st = cancel_transfer_step(s, h, id, t.from);
            let s2 = st.result->Ok_0.0;
            &&& st.result is Ok
            &&& s2.transfers[id] == (Transfer { status: Status::Cancelled, ..t })
            &&& s2.total_escrowed == s.total_escrowed - t.amount
            &&& s2.total_released == s.total_released + t.amount
        }),
        ({
            let t = s.transfers[id];
            let st = sweep_expired_step(s, h, id);
            let s2 = st.result->Ok_0.0;
            &&& st.result is Ok
            &&& s2.transfers[id] == (Transfer { status: Status::Cancelled, ..t })
            &&& s2.total_escrowed == s.total_escrowed - t.amount
            &&& s2.total_released == s.total_released + t.amount
        }),
{
}

/// With no transfer stored, every count is zero.
pub proof fn lemma_count_of_nothing(s: StorageModel, n: int, f: spec_fn(Transfer) -> bool)
    requires
        s.transfers.dom().is_empty(),
    ensures
        count_where(s, n, f) == 0,
    decreases n,
{
    if n > 0 {
        assert(!s.transfers.contains_key(n as u64));
        lemma_count_of_nothing(s, n - 1, f);
    }
}

/// Counts are exact: storing one more transfer under a free id `k` raises
/// the count over ids `1..=n` by exactly one when `1 <= k <= n` and the
/// transfer meets the criterion, and leaves it unchanged otherwise (for any
/// `n` that an id can reach). With
/// [`lemma_count_of_nothing`] this makes the count the number of stored
/// transfers with ids in `1..=n` that meet the criterion, with no cap.
pub proof fn lemma_count_grows_by_one(
    s: StorageModel,
    n: int,
    f: spec_fn(Transfer) -> bool,
    k: u64,
    t: Transfer,
)
    requires
        !s.transfers.contains_key(k),
        n <= u64::MAX,
    ensures
        count_where(StorageModel { transfers: s.transfers.insert(k, t), ..s }, n, f) == count_where(
            s,
            n,
            f,
        ) + if 1 <= k <= n && f(t) {
            1int
        } else {
            0int
        },
    decreases n,
{
    if n > 0 {
        lemma_count_grows_by_one(s, n - 1, f, k, t);
        let si = StorageModel { transfers: s.transfers.insert(k, t), ..s };
        let j = n as u64;
        assert(j == n);
        if j == k {
            assert(si.transfers.contains_key(j) && si.transfers[j] == t);
        } else {
            assert(si.transfers.contains_key(j) == s.transfers.contains_key(j));
            assert(s.transfers.contains_key(j) ==> si.transfers[j] == s.transfers[j]);
        }
    }
}

/// A created transfer is counted once more by each query it matches: after
/// a successful creation, the number of stored transfers sent by `from` (or
/// addressed to `recipient`, or pending) up to the counter is one more than
/// before.
pub proof fn lemma_creation_counts_once(
    s: StorageModel,
    h: HostModel,
    from: Address,
    recipient: Address,
    amount: i128,
    expiry: u64,
    f: spec_fn(Transfer) -> bool,
)
    requires
        forall|k: u64| #[trigger] s.transfers.contains_key(k) ==> 1 <= k <= s.counter,
        f(Transfer { id: (s.counter + 1) as u64, from, recipient, amount, expiry, status: Status::Pending }),
        create_transfer_step(s, h, from, recipient, amount, expiry).result is Ok,
    ensures
        ({
            let s2 = create_transfer_step(s, h, from, recipient, amount, expiry).result->Ok_0.0;
            count_where(s2, s2.counter as int, f) == count_where(s, s.counter as int, f) + 1
        }),
{
    let id = (s.counter + 1) as u64;
    let t = Transfer { id, from, recipient, amount, expiry, status: Status::Pending };
    let s2 = create_transfer_step(s, h, from, recipient, amount, expiry).result->Ok_0.0;
    let si = StorageModel { transfers: s.transfers.insert(id, t), ..s };
    lemma_count_grows_by_one(s, id as int, f, id, t);
    lemma_count_only_reads_transfers(s2, si, id as int, f);
    assert(!s.transfers.contains_key(id));
    assert(count_where(s, id as int, f) == count_where(s, s.counter as int, f));
}

proof fn lemma_count_only_reads_transfers(a: StorageModel, b: StorageModel, n: int, f: spec_fn(Transfer) -> bool)
    requires
        a.transfers == b.transfers,
    ensures
        count_where(a, n, f) == count_where(b, n, f),
    decreases n,
{
    if n > 0 {
        lemma_count_only_reads_transfers(a, b, n - 1, f);
    }
}

proof fn lemma_stored_from_complete(s: StorageModel, id: int, last: int, n: int)
    requires
        keyed_by_id(s),
        id >= 0,
        last <= u64::MAX,
    ensures
        ({
            let p = stored_from(s, id, last, n);
            &&& p.len() < n ==> forall|k: u64|
                id <= k <= last && #[trigger] s.transfers.contains_key(k) ==> p.contains(
                    s.transfers[k],
                )
            &&& p.len() > 0 ==> forall|k: u64|
                id <= k <= p.last().id && #[trigger] s.transfers.contains_key(k) ==> p.contains(
                    s.transfers[k],
                )
            &&& forall|i: int| 0 <= i < p.len() ==> id <= (#[trigger] p[i]).id <= last
        }),
    decreases last - id + 1,
{
    if id > last || n <= 0 {
    } else if s.transfers.contains_key(id as u64) && 0 <= id <= u64::MAX {
        lemma_stored_from_complete(s, id + 1, last, n - 1);
        let rest = stored_from(s, id + 1, last, n - 1);
        let p = stored_from(s, id, last, n);
        let t0 = s.transfers[id as u64];
        assert(p == seq![t0] + rest);
        assert(p[0] == t0);
        assert forall|i: int| 0 <= i < rest.len() implies p[i + 1] == rest[i] by {}
        assert forall|i: int| 0 <= i < p.len() implies id <= (#[trigger] p[i]).id <= last by {
            if i > 0 {
                assert(p[i] == rest[i - 1]);
            }
        }
        assert forall|k: u64| id <= k <= last && #[trigger] s.transfers.contains_key(k) && (p.len()
            < n || k <= p.last().id) implies p.contains(s.transfers[k]) by {
            if k == id {
                assert(p[0] == s.transfers[k]);
            } else {
                if rest.len() == 0 {
                    assert(p.last() == t0);
                } else {
                    assert(p.last() == rest.last());
                }
                let i = choose|i: int| 0 <= i < rest.len() && rest[i] == s.transfers[k];
                assert(p[i + 1] == s.transfers[k]);
            }
        }
    } else {
        lemma_stored_from_complete(s, id + 1, last, n);
        let p = stored_from(s, id, last, n);
        if id <= u64::MAX {
            assert(!s.transfers.contains_key(id as u64));
        }
    }
}

/// Pages are complete. A page of `get_transfers_paged(start_id, limit)`
/// holds every stored transfer whose id lies between `max(start_id, 1)` and
/// the id of its last record; and when it holds fewer than
/// `min(limit, MAX_PAGE_SIZE)` records, it holds every stored transfer with
/// an id from `max(start_id, 1)` up to the counter. So a short page is the
/// last one, and a full page has exactly `min(limit, MAX_PAGE_SIZE)`
/// records.
pub proof fn lemma_transfers_page_complete(s: StorageModel, start_id: u64, limit: u32)
    requires
        keyed_by_id(s),
    ensures
        ({
            let page = transfers_page(s, start_id, limit);
            let first: int = if start_id < 1 {
                1
            } else {
                start_id as int
            };
            let size: int = if limit < MAX_PAGE_SIZE {
                limit as int
            } else {
                MAX_PAGE_SIZE as int
            };
            &&& page.len() < size ==> forall|k: u64|
                first <= k <= s.counter && #[trigger] s.transfers.contains_key(k) ==> page.contains(
                    s.transfers[k],
                )
            &&& page.len() > 0 ==> forall|k: u64|
                first <= k <= page.last().id && #[trigger] s.transfers.contains_key(k)
                    ==> page.contains(s.transfers[k])
        }),
{
    let first: int = if start_id < 1 {
        1
    } else {
        start_id as int
    };
    let size: int = if limit < MAX_PAGE_SIZE {
        limit as int
    } else {
        MAX_PAGE_SIZE as int
    };
    lemma_stored_from_complete(s, first, s.counter as int, size);
}

} // verus!
