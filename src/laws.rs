//! Properties of the escrow that relate several operations or calls.
use vstd::prelude::*;
use crate::asset::AssetModel;
use crate::model::{
    BatchStatus, GAS_PER_REFUND, PingPongError, PingPongModel, UserStatus, deposited_in,
    refund_range,
};

verus! {

/// An accepted deposit leaves its caller `Deposited` and every other address
/// where it was, and keeps the state invariant.
pub proof fn lemma_deposit_registers(
    m: PingPongModel,
    caller: Seq<u8>,
    paid_asset: AssetModel,
    paid: u128,
    now: u64,
    balance: u128,
    other: Seq<u8>,
)
    requires
        m.wf(),
        m.users.len() + 1 < u64::MAX,
        m.ping_error(caller, paid_asset, paid, now, balance) is None,
    ensures
        m.with_deposit(caller).wf(),
        m.with_deposit(caller).status_of(caller) == UserStatus::Deposited,
        other != caller ==> m.with_deposit(caller).status_of(other) == m.status_of(other),
{
    let n = m.users.len() as int;
    let d = m.with_deposit(caller);
    assert(m.index_of(caller) is None);
    assert(d.users[n] == caller);
    assert(d.index_of(caller) == Some(n)) by {
        let k = choose|k: int| 0 <= k < d.users.len() && d.users[k] == caller;
        if k < n {
            assert(m.users[k] == caller);
        }
    }
    if other == caller {
    } else if m.index_of(other) is Some {
        let k = m.index_of(other)->0;
        assert(d.users[k] == other);
        let j = d.index_of(other)->0;
        assert(d.users[j] == other);
        assert(j == k);
    } else {
        if d.index_of(other) is Some {
            let j = d.index_of(other)->0;
            assert(m.users[j] == other);
        }
    }
}

/// Once a withdrawal by `caller` has been accepted, every later withdrawal
/// by `caller` is refused with `AlreadyWithdrawn`, and no deposit by
/// `caller` is accepted again.
pub proof fn lemma_withdraw_once(
    m: PingPongModel,
    caller: Seq<u8>,
    now: u64,
    later: u64,
    paid_asset: AssetModel,
    paid: u128,
    balance: u128,
)
    requires
        m.wf(),
        m.pong_error(caller, now) is None,
        later >= now,
    ensures
        m.with_refund(caller).wf(),
        m.with_refund(caller).status_of(caller) == UserStatus::Refunded,
        m.with_refund(caller).pong_error(caller, later) == Some(PingPongError::AlreadyWithdrawn),
        m.with_refund(caller).ping_error(caller, paid_asset, paid, later, balance) is Some,
{
    let r = m.with_refund(caller);
    let k = m.index_of(caller)->0;
    assert(r.users == m.users);
    assert(r.index_of(caller) == m.index_of(caller));
    assert(r.wf()) by {
        assert forall|i: int| 0 <= i < r.statuses.len() implies #[trigger] r.statuses[i]
            != UserStatus::Unregistered by {
            if i != k {
                assert(m.statuses[i] != UserStatus::Unregistered);
            }
        }
    }
}

/// What a deposit pays in is exactly what the withdrawal that follows pays
/// back: the same asset and the same amount, with nothing kept.
pub proof fn lemma_round_trip(
    m: PingPongModel,
    caller: Seq<u8>,
    paid_asset: AssetModel,
    paid: u128,
    now: u64,
    balance: u128,
    later: u64,
)
    requires
        m.wf(),
        m.users.len() + 1 < u64::MAX,
        m.ping_error(caller, paid_asset, paid, now, balance) is None,
        later >= m.deadline,
    ensures
        m.with_deposit(caller).pong_error(caller, later) is None,
        m.with_deposit(caller).asset == paid_asset,
        m.with_deposit(caller).ping_amount == paid,
{
    lemma_deposit_registers(m, caller, paid_asset, paid, now, balance, caller);
}

/// Splitting an id range splits the list of participants it pays back.
pub proof fn lemma_deposited_in_split(
    users: Seq<Seq<u8>>,
    s: Seq<UserStatus>,
    lo: int,
    mid: int,
    hi: int,
)
    requires
        lo <= mid <= hi,
    ensures
        deposited_in(users, s, lo, mid) + deposited_in(users, s, mid, hi) == deposited_in(
            users,
            s,
            lo,
            hi,
        ),
    decreases hi - mid,
{
    if hi == mid {
        assert(deposited_in(users, s, lo, mid) + Seq::<Seq<u8>>::empty() =~= deposited_in(
            users,
            s,
            lo,
            mid,
        ));
    } else {
        lemma_deposited_in_split(users, s, lo, mid, hi - 1);
        if s[hi - 1] == UserStatus::Deposited {
            assert(deposited_in(users, s, lo, mid) + deposited_in(users, s, mid, hi - 1).push(
                users[hi - 1],
            ) =~= (deposited_in(users, s, lo, mid) + deposited_in(users, s, mid, hi - 1)).push(
                users[hi - 1],
            ));
        }
    }
}

/// Who a range pays back depends only on the statuses inside the range.
pub proof fn lemma_deposited_in_frame(
    users: Seq<Seq<u8>>,
    s1: Seq<UserStatus>,
    s2: Seq<UserStatus>,
    lo: int,
    hi: int,
)
    requires
        forall|i: int| lo <= i < hi ==> s1[i] == s2[i],
    ensures
        deposited_in(users, s1, lo, hi) == deposited_in(users, s2, lo, hi),
    decreases hi - lo,
{
    if hi > lo {
        lemma_deposited_in_frame(users, s1, s2, lo, hi - 1);
    }
}

/// With distinct addresses, a range pays back each `Deposited` participant
/// in it exactly once, and no one else.
pub proof fn lemma_deposited_in_members(
    users: Seq<Seq<u8>>,
    s: Seq<UserStatus>,
    lo: int,
    hi: int,
)
    requires
        0 <= lo,
        hi <= users.len(),
        hi <= s.len(),
        forall|i: int, j: int| 0 <= i < users.len() && 0 <= j < users.len() && i != j ==> users[i]
            != users[j],
    ensures
        deposited_in(users, s, lo, hi).no_duplicates(),
        forall|a: Seq<u8>|
            deposited_in(users, s, lo, hi).contains(a) <==> exists|i: int|
                lo <= i < hi && users[i] == a && s[i] == UserStatus::Deposited,
    decreases hi - lo,
{
    if hi > lo {
        lemma_deposited_in_members(users, s, lo, hi - 1);
        let prev = deposited_in(users, s, lo, hi - 1);
        assert forall|a: Seq<u8>|
            deposited_in(users, s, lo, hi).contains(a) <==> exists|i: int|
                lo <= i < hi && users[i] == a && s[i] == UserStatus::Deposited by {
            if deposited_in(users, s, lo, hi).contains(a) {
                if prev.contains(a) {
                    assert(exists|i: int|
                        lo <= i < hi - 1 && users[i] == a && s[i] == UserStatus::Deposited);
                    let i = choose|i: int|
                        lo <= i < hi - 1 && users[i] == a && s[i] == UserStatus::Deposited;
                    assert(lo <= i < hi && users[i] == a && s[i] == UserStatus::Deposited);
                } else {
                    let k = choose|k: int|
                        0 <= k < deposited_in(users, s, lo, hi).len() && deposited_in(
                            users,
                            s,
                            lo,
                            hi,
                        )[k] == a;
                    if k < prev.len() {
                        assert(prev[k] == a);
                    }
                    assert(users[hi - 1] == a && s[hi - 1] == UserStatus::Deposited);
                }
            }
            if exists|i: int| lo <= i < hi && users[i] == a && s[i] == UserStatus::Deposited {
                let i = choose|i: int|
                    lo <= i < hi && users[i] == a && s[i] == UserStatus::Deposited;
                if i < hi - 1 {
                    assert(prev.contains(a));
                    let k = choose|k: int| 0 <= k < prev.len() && prev[k] == a;
                    if s[hi - 1] == UserStatus::Deposited {
                        assert(prev.push(users[hi - 1])[k] == a);
                    }
                    assert(deposited_in(users, s, lo, hi)[k] == a);
                } else {
                    assert(deposited_in(users, s, lo, hi)[prev.len() as int] == a);
                }
            }
        }
        if s[hi - 1] == UserStatus::Deposited {
            assert(!prev.contains(users[hi - 1])) by {
                if prev.contains(users[hi - 1]) {
                    let i = choose|i: int|
                        lo <= i < hi - 1 && users[i] == users[hi - 1] && s[i]
                            == UserStatus::Deposited;
                }
            }
            let full = prev.push(users[hi - 1]);
            assert forall|x: int, y: int|
                0 <= x < full.len() && 0 <= y < full.len() && x != y implies full[x]
                != full[y] by {
                if x < prev.len() && y < prev.len() {
                } else if x < prev.len() {
                    assert(prev.contains(full[x]));
                } else {
                    assert(prev.contains(full[y]));
                }
            }
        }
    }
}

/// The outcome of up to `calls` bulk refund calls with `budget` each,
/// stopping at the first that completes: the state reached, who was paid
/// back, in order, and whether a call completed.
pub open spec fn sweep(m: PingPongModel, budget: u64, calls: nat) -> (
    PingPongModel,
    Seq<Seq<u8>>,
    bool,
)
    decreases calls,
{
    if calls == 0 {
        (m, Seq::empty(), false)
    } else if m.batch_status(budget) == BatchStatus::Completed {
        (m.after_batch(budget), m.batch_refunded(budget), true)
    } else {
        let rest = sweep(m.after_batch(budget), budget, (calls - 1) as nat);
        (rest.0, m.batch_refunded(budget) + rest.1, rest.2)
    }
}

/// Bulk refund calls that each can afford at least one participant finish
/// a sweep resumed at any cursor within one more call than there are
/// participants left, paying back exactly those left that were `Deposited`,
/// in id order.
pub proof fn lemma_sweep_from_cursor(m: PingPongModel, budget: u64, calls: nat)
    requires
        m.wf(),
        budget >= GAS_PER_REFUND,
        calls >= m.users.len() - m.cursor + 1,
    ensures
        sweep(m, budget, calls).2,
        sweep(m, budget, calls).0 == (PingPongModel {
            statuses: refund_range(m.statuses, m.cursor as int, m.users.len() as int),
            cursor: 0,
            ..m
        }),
        sweep(m, budget, calls).1 == deposited_in(
            m.users,
            m.statuses,
            m.cursor as int,
            m.users.len() as int,
        ),
    decreases calls,
{
    let n = m.users.len() as int;
    let c = m.cursor as int;
    let end = m.batch_end(budget);
    assert(budget / GAS_PER_REFUND >= 1) by {
        vstd::arithmetic::div_mod::lemma_div_is_ordered(
            GAS_PER_REFUND as int,
            budget as int,
            GAS_PER_REFUND as int,
        );
    }
    if m.batch_status(budget) == BatchStatus::Completed {
    } else {
        let next = m.after_batch(budget);
        assert(c < end < n);
        assert(next.wf()) by {
            assert forall|i: int| 0 <= i < next.statuses.len() implies #[trigger] next.statuses[i]
                != UserStatus::Unregistered by {
                assert(m.statuses[i] != UserStatus::Unregistered);
            }
        }
        lemma_sweep_from_cursor(next, budget, (calls - 1) as nat);
        assert(refund_range(next.statuses, end, n) =~= refund_range(m.statuses, c, n));
        lemma_deposited_in_frame(m.users, next.statuses, m.statuses, end, n);
        lemma_deposited_in_split(m.users, m.statuses, c, end, n);
    }
}

/// Repeated bulk refund calls, each with at least `GAS_PER_REFUND` of
/// budget, started with no sweep in progress, reach `Completed` within one
/// call more than there are participants. Between them they pay back each
/// participant that was `Deposited` exactly once and no one else, leave
/// every participant refunded, and leave the cursor at 0.
pub proof fn lemma_sweep_refunds_each_depositor_once(m: PingPongModel, budget: u64)
    requires
        m.wf(),
        m.cursor == 0,
        budget >= GAS_PER_REFUND,
    ensures
        ({
            let (last, paid, done) = sweep(m, budget, (m.users.len() + 1) as nat);
            &&& done
            &&& last.cursor == 0
            &&& last.users == m.users
            &&& forall|i: int|
                0 <= i < last.statuses.len() ==> #[trigger] last.statuses[i]
                    == UserStatus::Refunded
            &&& paid.no_duplicates()
            &&& forall|a: Seq<u8>|
                paid.contains(a) <==> m.status_of(a) == UserStatus::Deposited
        }),
{
    let n = m.users.len() as int;
    lemma_sweep_from_cursor(m, budget, (m.users.len() + 1) as nat);
    lemma_deposited_in_members(m.users, m.statuses, 0, n);
    let paid = deposited_in(m.users, m.statuses, 0, n);
    assert forall|a: Seq<u8>| paid.contains(a) <==> m.status_of(a) == UserStatus::Deposited by {
        if paid.contains(a) {
            let i = choose|i: int| 0 <= i < n && m.users[i] == a && m.statuses[i]
                == UserStatus::Deposited;
            let k = m.index_of(a)->0;
            assert(m.users[k] == a);
        }
        if m.status_of(a) == UserStatus::Deposited {
            let k = m.index_of(a)->0;
            assert(0 <= k < n && m.users[k] == a && m.statuses[k] == UserStatus::Deposited);
        }
    }
}

/// A bulk refund call with no sweep in progress and no one `Deposited`,
/// whose budget covers every participant, completes at once and changes
/// nothing.
pub proof fn lemma_idle_sweep_is_noop(m: PingPongModel, budget: u64)
    requires
        m.wf(),
        m.cursor == 0,
        forall|i: int| 0 <= i < m.statuses.len() ==> #[trigger] m.statuses[i]
            != UserStatus::Deposited,
        m.users.len() * GAS_PER_REFUND <= budget,
    ensures
        m.batch_status(budget) == BatchStatus::Completed,
        m.after_batch(budget) == m,
        m.batch_refunded(budget) == Seq::<Seq<u8>>::empty(),
{
    let n = m.users.len() as int;
    vstd::arithmetic::div_mod::lemma_div_is_ordered(
        n * GAS_PER_REFUND,
        budget as int,
        GAS_PER_REFUND as int,
    );
    vstd::arithmetic::div_mod::lemma_div_multiples_vanish(n, GAS_PER_REFUND as int);
    assert(m.batch_end(budget) == n);
    assert(refund_range(m.statuses, 0, n) =~= m.statuses);
    lemma_deposited_in_members(m.users, m.statuses, 0, n);
    let paid = deposited_in(m.users, m.statuses, 0, n);
    if paid.len() > 0 {
        assert(paid.contains(paid[0]));
    }
    assert(paid =~= Seq::<Seq<u8>>::empty());
}

} // verus!
