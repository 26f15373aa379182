//! The escrow itself: configuration, participant registry, deposits,
//! withdrawals, queries and the resumable bulk refund.
use vstd::prelude::*;
use crate::address::{Address, addresses};
use crate::asset::AssetId;
use crate::model::{
    BatchStatus, GAS_PER_REFUND, PingPongError, PingPongModel, UserStatus, activation_time,
    config_error, deposited_in, refund_range,
};

verus! {

/// A payment out of the escrow, which also serves as the refund event keyed
/// by its recipient.
#[derive(Clone, Debug)]
pub struct Transfer {
    pub to: Address,
    pub asset: AssetId,
    pub amount: u128,
}

/// What one bulk refund call did.
#[derive(Clone, Debug)]
pub struct BatchOutcome {
    pub status: BatchStatus,
    /// Each participant paid back in this call, in id order; each is owed
    /// the configured amount of the configured asset.
    pub refunded: Vec<Address>,
}

/// The escrow contract's state.
#[derive(Debug)]
pub struct PingPong {
    asset: AssetId,
    ping_amount: u128,
    duration: u64,
    activation: u64,
    deadline: u64,
    max_funds: Option<u128>,
    users: Vec<Address>,
    statuses: Vec<UserStatus>,
    cursor: u64,
}

impl View for PingPong {
    type V = PingPongModel;

    closed spec fn view(&self) -> PingPongModel {
        PingPongModel {
            asset: self.asset@,
            ping_amount: self.ping_amount,
            duration: self.duration,
            activation: self.activation,
            deadline: self.deadline,
            max_funds: self.max_funds,
            users: addresses(self.users@),
            statuses: self.statuses@,
            cursor: self.cursor,
        }
    }
}

impl PingPong {
    /// Configures a new escrow: deposits of exactly `ping_amount` units of
    /// `asset` are taken from `activation` (or `now`, if not given) until
    /// `duration_in_seconds` later, and paid back from then on. With a
    /// `max_funds` cap, no deposit may bring the escrow's holdings above it.
    pub fn init(
        asset: AssetId,
        ping_amount: u128,
        duration_in_seconds: u64,
        activation: Option<u64>,
        max_funds: Option<u128>,
        now: u64,
    ) -> (r: Result<PingPong, PingPongError>)
        requires
            activation_time(activation, now) + duration_in_seconds <= u64::MAX,
        ensures
            match config_error(asset@, ping_amount, duration_in_seconds) {
                Some(e) => r == Err::<PingPong, PingPongError>(e),
                None => r is Ok && r->Ok_0@ == PingPongModel::fresh(
                    asset@,
                    ping_amount,
                    duration_in_seconds,
                    activation_time(activation, now),
                    max_funds,
                ) && r->Ok_0@.wf(),
            },
    {
        let start = match activation {
            Some(t) => t,
            None => now,
        };
        match check_config(&asset, ping_amount, duration_in_seconds) {
            Some(e) => Err(e),
            None => {
                let c = PingPong {
                    asset,
                    ping_amount,
                    duration: duration_in_seconds,
                    activation: start,
                    deadline: start + duration_in_seconds,
                    max_funds,
                    users: Vec::new(),
                    statuses: Vec::new(),
                    cursor: 0,
                };
                assert(c@.users =~= Seq::<Seq<u8>>::empty());
                Ok(c)
            },
        }
    }

    /// Replaces the whole configuration, as `init` would set it, and keeps
    /// the participants. On an error nothing changes.
    pub fn upgrade(
        &mut self,
        asset: AssetId,
        ping_amount: u128,
        duration_in_seconds: u64,
        activation: Option<u64>,
        max_funds: Option<u128>,
        now: u64,
    ) -> (r: Result<(), PingPongError>)
        requires
            old(self)@.wf(),
            activation_time(activation, now) + duration_in_seconds <= u64::MAX,
        ensures
            final(self)@.wf(),
            match config_error(asset@, ping_amount, duration_in_seconds) {
                Some(e) => r == Err::<(), PingPongError>(e) && final(self)@ == old(self)@,
                None => r is Ok && final(self)@ == old(self)@.reconfigured(
                    asset@,
                    ping_amount,
                    duration_in_seconds,
                    activation_time(activation, now),
                    max_funds,
                ),
            },
    {
        let start = match activation {
            Some(t) => t,
            None => now,
        };
        match check_config(&asset, ping_amount, duration_in_seconds) {
            Some(e) => Err(e),
            None => {
                self.asset = asset;
                self.ping_amount = ping_amount;
                self.duration = duration_in_seconds;
                self.activation = start;
                self.deadline = start + duration_in_seconds;
                self.max_funds = max_funds;
                Ok(())
            },
        }
    }
}

impl PingPong {
    /// The index of the participant with address `a`, found by a scan of
    /// the id-ordered registry.
    fn find_user(&self, a: &Address) -> (r: Option<usize>)
        requires
            self@.wf(),
        ensures
            match r {
                Some(i) => self@.index_of(a@) == Some(i as int) && i < self@.users.len(),
                None => self@.index_of(a@) is None,
            },
    {
        let ghost m = self@;
        let mut i: usize = 0;
        while i < self.users.len()
            invariant
                m == self@,
                m.wf(),
                i <= self.users@.len(),
                forall|j: int| 0 <= j < i ==> m.users[j] != a@,
            decreases self.users@.len() - i,
        {
            assert(m.users[i as int] == self.users@[i as int]@);
            if self.users[i].same_as(a) {
                assert(m.users[i as int] == a@);
                assert(m.index_of(a@) == Some(i as int)) by {
                    let k = choose|k: int| 0 <= k < m.users.len() && m.users[k] == a@;
                    assert(m.users[k] == m.users[i as int]);
                }
                return Some(i);
            }
            i = i + 1;
        }
        None
    }

    /// The status of the participant with address `a`.
    pub fn user_status(&self, a: &Address) -> (r: UserStatus)
        requires
            self@.wf(),
        ensures
            r == self@.status_of(a@),
    {
        match self.find_user(a) {
            Some(i) => self.statuses[i],
            None => UserStatus::Unregistered,
        }
    }

    /// A deposit ("ping") of `paid_amount` units of `paid_asset` by `caller`
    /// at time `now`. `balance` is the escrow's holding of its asset with
    /// this payment included. A new participant gets the next id.
    pub fn ping(
        &mut self,
        caller: &Address,
        paid_asset: &AssetId,
        paid_amount: u128,
        now: u64,
        balance: u128,
    ) -> (r: Result<(), PingPongError>)
        requires
            old(self)@.wf(),
            old(self)@.users.len() + 1 < u64::MAX,
        ensures
            final(self)@.wf(),
            match old(self)@.ping_error(caller@, paid_asset@, paid_amount, now, balance) {
                Some(e) => r == Err::<(), PingPongError>(e) && final(self)@ == old(self)@,
                None => r is Ok && final(self)@ == old(self)@.with_deposit(caller@),
            },
    {
        if !paid_asset.same_as(&self.asset) {
            return Err(PingPongError::WrongAsset);
        }
        if paid_amount != self.ping_amount {
            return Err(PingPongError::WrongAmount);
        }
        if now < self.activation {
            return Err(PingPongError::NotActiveYet);
        }
        if now >= self.deadline {
            return Err(PingPongError::DeadlinePassed);
        }
        if let Some(cap) = self.max_funds {
            if balance > cap {
                return Err(PingPongError::CapExceeded);
            }
        }
        match self.user_status(caller) {
            UserStatus::Unregistered => {},
            _ => {
                return Err(PingPongError::AlreadyDeposited);
            },
        }
        let ghost m = self@;
        assert(m.index_of(caller@) is None);
        self.users.push(*caller);
        self.statuses.push(UserStatus::Deposited);
        assert(self@.users =~= m.users.push(caller@));
        assert(self@ == m.with_deposit(caller@));
        Ok(())
    }

    /// A withdrawal ("pong") by `caller` at time `now`: the participant is
    /// marked refunded and is owed the configured amount of the configured
    /// asset, which the returned transfer describes.
    pub fn pong(&mut self, caller: &Address, now: u64) -> (r: Result<Transfer, PingPongError>)
        requires
            old(self)@.wf(),
        ensures
            final(self)@.wf(),
            match old(self)@.pong_error(caller@, now) {
                Some(e) => r is Err && r->Err_0 == e && final(self)@ == old(self)@,
                None => r is Ok && final(self)@ == old(self)@.with_refund(caller@)
                    && r->Ok_0.to@ == caller@ && r->Ok_0.asset@ == old(self)@.asset
                    && r->Ok_0.amount == old(self)@.ping_amount,
            },
    {
        if now < self.deadline {
            return Err(PingPongError::BeforeDeadline);
        }
        let i = match self.find_user(caller) {
            None => {
                return Err(PingPongError::NeverDeposited);
            },
            Some(i) => i,
        };
        match self.statuses[i] {
            UserStatus::Deposited => {},
            UserStatus::Refunded => {
                return Err(PingPongError::AlreadyWithdrawn);
            },
            UserStatus::Unregistered => {
                return Err(PingPongError::NeverDeposited);
            },
        }
        let ghost m = self@;
        self.statuses.set(i, UserStatus::Refunded);
        assert(self@ == m.with_refund(caller@));
        Ok(Transfer { to: *caller, asset: self.asset.clone_id(), amount: self.ping_amount })
    }
}

impl PingPong {
    /// A bulk refund ("pong all") at time `now`, with `budget` units of
    /// computation left. It resumes after the last participant that an
    /// earlier interrupted call handled and goes through the ids in order,
    /// while at least `GAS_PER_REFUND` of the budget remains. Participants
    /// already refunded are skipped. When the last id is handled the cursor
    /// returns to 0 and the call reports `Completed`; otherwise the cursor
    /// keeps the last handled id and the call reports `Interrupted`.
    pub fn run_batch_refund(&mut self, now: u64, budget: u64) -> (r: Result<
        BatchOutcome,
        PingPongError,
    >)
        requires
            old(self)@.wf(),
        ensures
            final(self)@.wf(),
            now < old(self)@.deadline ==> r is Err && r->Err_0 == PingPongError::BeforeDeadline
                && final(self)@ == old(self)@,
            now >= old(self)@.deadline ==> r is Ok && final(self)@ == old(self)@.after_batch(budget)
                && r->Ok_0.status == old(self)@.batch_status(budget)
                && addresses(r->Ok_0.refunded@) == old(self)@.batch_refunded(budget),
    {
        if now < self.deadline {
            return Err(PingPongError::BeforeDeadline);
        }
        let ghost m = self@;
        let n = self.users.len();
        let start = self.cursor as usize;
        let mut i: usize = start;
        let mut left: u64 = budget;
        let mut refunded: Vec<Address> = Vec::new();
        assert(refund_range(m.statuses, start as int, start as int) =~= m.statuses);
        assert(addresses(refunded@) =~= Seq::<Seq<u8>>::empty());
        while i < n && left >= GAS_PER_REFUND
            invariant
                m.wf(),
                n == m.users.len(),
                start == m.cursor,
                start <= i <= n,
                left as int + (i - start) * GAS_PER_REFUND == budget,
                self.users@ == old(self).users@,
                self.asset == old(self).asset,
                self@ == (PingPongModel { statuses: refund_range(m.statuses, start as int, i as int), ..m }),
                addresses(refunded@) == deposited_in(m.users, m.statuses, start as int, i as int),
            decreases n - i,
        {
            let ghost before = refunded@;
            if self.statuses[i] == UserStatus::Deposited {
                self.statuses.set(i, UserStatus::Refunded);
                refunded.push(self.users[i]);
                assert(addresses(refunded@) =~= addresses(before).push(m.users[i as int]));
            } else {
                assert(self.statuses@[i as int] == m.statuses[i as int]);
            }
            assert(self.statuses@ =~= refund_range(m.statuses, start as int, i + 1));
            left = left - GAS_PER_REFUND;
            i = i + 1;
        }
        proof {
            let k = (i - start) as int;
            if i < n {
                vstd::arithmetic::div_mod::lemma_fundamental_div_mod_converse(
                    budget as int,
                    GAS_PER_REFUND as int,
                    k,
                    left as int,
                );
            } else {
                assert(k * GAS_PER_REFUND <= budget);
                vstd::arithmetic::div_mod::lemma_div_is_ordered(
                    k * GAS_PER_REFUND,
                    budget as int,
                    GAS_PER_REFUND as int,
                );
                vstd::arithmetic::div_mod::lemma_div_multiples_vanish(k, GAS_PER_REFUND as int);
            }
            assert(i == m.batch_end(budget));
        }
        let status = if i == n {
            self.cursor = 0;
            BatchStatus::Completed
        } else {
            self.cursor = i as u64;
            BatchStatus::Interrupted
        };
        proof {
            assert forall|j: int| 0 <= j < self@.statuses.len() implies #[trigger] self@.statuses[j]
                != UserStatus::Unregistered by {
                assert(m.statuses[j] != UserStatus::Unregistered);
            }
        }
        Ok(BatchOutcome { status, refunded })
    }
}

impl PingPong {
    /// Whether `a` has funds held in the escrow.
    pub fn did_user_ping(&self, a: &Address) -> (r: bool)
        requires
            self@.wf(),
        ensures
            r == (self@.status_of(a@) == UserStatus::Deposited),
    {
        self.user_status(a) == UserStatus::Deposited
    }

    /// When `a` may withdraw; none if `a` has no funds held.
    pub fn get_pong_enable_timestamp(&self, a: &Address) -> (r: Option<u64>)
        requires
            self@.wf(),
        ensures
            r == (if self@.status_of(a@) == UserStatus::Deposited {
                Some(self@.deadline)
            } else {
                None::<u64>
            }),
    {
        if self.did_user_ping(a) {
            Some(self.deadline)
        } else {
            None
        }
    }

    /// How many seconds from `now` until `a` may withdraw: 0 once the
    /// deadline is reached, none if `a` has no funds held.
    pub fn get_time_to_pong(&self, a: &Address, now: u64) -> (r: Option<u64>)
        requires
            self@.wf(),
        ensures
            r == (if self@.status_of(a@) != UserStatus::Deposited {
                None::<u64>
            } else if now >= self@.deadline {
                Some(0u64)
            } else {
                Some((self@.deadline - now) as u64)
            }),
    {
        if !self.did_user_ping(a) {
            None
        } else if now >= self.deadline {
            Some(0)
        } else {
            Some(self.deadline - now)
        }
    }

    /// Every participant's address, in id order.
    pub fn get_user_addresses(&self) -> (r: Vec<Address>)
        ensures
            addresses(r@) == self@.users,
    {
        let mut out: Vec<Address> = Vec::new();
        let mut i: usize = 0;
        while i < self.users.len()
            invariant
                i <= self.users@.len(),
                out@ == self.users@.subrange(0, i as int),
            decreases self.users@.len() - i,
        {
            out.push(self.users[i]);
            i = i + 1;
            assert(out@ =~= self.users@.subrange(0, i as int));
        }
        assert(out@ =~= self.users@);
        out
    }

    /// The number of participants, which is also the highest id.
    pub fn user_count(&self) -> (r: usize)
        ensures
            r == self@.users.len(),
    {
        self.users.len()
    }

    pub fn accepted_payment_token_id(&self) -> (r: &AssetId)
        ensures
            r@ == self@.asset,
    {
        &self.asset
    }

    pub fn ping_amount(&self) -> (r: u128)
        ensures
            r == self@.ping_amount,
    {
        self.ping_amount
    }

    pub fn duration_in_seconds(&self) -> (r: u64)
        ensures
            r == self@.duration,
    {
        self.duration
    }

    pub fn activation_timestamp(&self) -> (r: u64)
        ensures
            r == self@.activation,
    {
        self.activation
    }

    pub fn deadline(&self) -> (r: u64)
        ensures
            r == self@.deadline,
    {
        self.deadline
    }

    pub fn max_funds(&self) -> (r: Option<u128>)
        ensures
            r == self@.max_funds,
    {
        self.max_funds
    }

    /// The last participant id handled by an interrupted bulk refund, or 0.
    pub fn batch_cursor(&self) -> (r: u64)
        ensures
            r == self@.cursor,
    {
        self.cursor
    }
}

fn check_config(asset: &AssetId, ping_amount: u128, duration: u64) -> (r: Option<PingPongError>)
    ensures
        r == config_error(asset@, ping_amount, duration),
{
    if !asset.is_valid() {
        Some(PingPongError::InvalidAsset)
    } else if ping_amount == 0 {
        Some(PingPongError::InvalidAmount)
    } else if duration == 0 {
        Some(PingPongError::InvalidDuration)
    } else {
        None
    }
}

} // verus!
