//! The escrow's state as plain mathematical values, and what each operation
//! does to it.
use vstd::prelude::*;
use crate::asset::{AssetModel, valid_asset};

verus! {

/// Computation budget that must remain before one more participant is
/// handled by a bulk refund; handling a participant uses up this much.
pub const GAS_PER_REFUND: u64 = 1_000_000;

/// Where a participant stands. A participant moves only from `Unregistered`
/// to `Deposited` and from `Deposited` to `Refunded`.
#[derive(Clone, Copy, Debug, PartialEq, Eq, Structural)]
pub enum UserStatus {
    Unregistered,
    Deposited,
    Refunded,
}

/// Why a call was rejected.
#[derive(Clone, Copy, Debug, PartialEq, Eq, Structural)]
pub enum PingPongError {
    InvalidAsset,
    InvalidAmount,
    InvalidDuration,
    WrongAsset,
    WrongAmount,
    NotActiveYet,
    DeadlinePassed,
    CapExceeded,
    AlreadyDeposited,
    BeforeDeadline,
    NeverDeposited,
    AlreadyWithdrawn,
}

/// How a bulk refund call ended.
#[derive(Clone, Copy, Debug, PartialEq, Eq, Structural)]
pub enum BatchStatus {
    /// Every participant has been handled; the cursor is back at 0.
    Completed,
    /// The budget ran out; the cursor holds the last handled id.
    Interrupted,
}

/// The state of the escrow. Participant `id` (counted from 1) is
/// `users[id - 1]`, with status `statuses[id - 1]`.
pub ghost struct PingPongModel {
    pub asset: AssetModel,
    pub ping_amount: u128,
    pub duration: u64,
    pub activation: u64,
    pub deadline: u64,
    pub max_funds: Option<u128>,
    pub users: Seq<Seq<u8>>,
    pub statuses: Seq<UserStatus>,
    pub cursor: u64,
}

/// The first configuration error, if any.
pub open spec fn config_error(asset: AssetModel, ping_amount: u128, duration: u64) -> Option<
    PingPongError,
> {
    if !valid_asset(asset) {
        Some(PingPongError::InvalidAsset)
    } else if ping_amount == 0 {
        Some(PingPongError::InvalidAmount)
    } else if duration == 0 {
        Some(PingPongError::InvalidDuration)
    } else {
        None
    }
}

/// The contract's first possible start of activity: the given activation
/// time, or the time of initialization.
pub open spec fn activation_time(activation: Option<u64>, now: u64) -> u64 {
    match activation {
        Some(t) => t,
        None => now,
    }
}

/// Refunds every `Deposited` participant with index in `lo..hi`.
pub open spec fn refund_range(statuses: Seq<UserStatus>, lo: int, hi: int) -> Seq<UserStatus> {
    statuses.map(
        |i: int, s: UserStatus|
            if lo <= i < hi && s == UserStatus::Deposited {
                UserStatus::Refunded
            } else {
                s
            },
    )
}

/// The addresses, in id order, of the participants with index in `lo..hi`
/// that are `Deposited`.
pub open spec fn deposited_in(users: Seq<Seq<u8>>, statuses: Seq<UserStatus>, lo: int, hi: int) -> Seq<
    Seq<u8>,
>
    decreases hi - lo,
{
    if hi <= lo {
        Seq::empty()
    } else if statuses[hi - 1] == UserStatus::Deposited {
        deposited_in(users, statuses, lo, hi - 1).push(users[hi - 1])
    } else {
        deposited_in(users, statuses, lo, hi - 1)
    }
}

pub open spec fn min_nat(a: nat, b: nat) -> nat {
    if a <= b {
        a
    } else {
        b
    }
}

impl PingPongModel {
    /// The state invariant.
    pub open spec fn wf(self) -> bool {
        &&& valid_asset(self.asset)
        &&& self.ping_amount > 0
        &&& self.duration > 0
        &&& self.deadline == self.activation + self.duration
        &&& self.users.len() == self.statuses.len()
        &&& self.users.len() < u64::MAX
        &&& self.cursor <= self.users.len()
        &&& forall|i: int, j: int|
            0 <= i < self.users.len() && 0 <= j < self.users.len() && i != j ==> self.users[i]
                != self.users[j]
        &&& forall|i: int|
            0 <= i < self.statuses.len() ==> #[trigger] self.statuses[i]
                != UserStatus::Unregistered
    }

    /// A freshly configured escrow with no participants.
    pub open spec fn fresh(
        asset: AssetModel,
        ping_amount: u128,
        duration: u64,
        activation: u64,
        max_funds: Option<u128>,
    ) -> PingPongModel {
        PingPongModel {
            asset,
            ping_amount,
            duration,
            activation,
            deadline: (activation + duration) as u64,
            max_funds,
            users: Seq::empty(),
            statuses: Seq::empty(),
            cursor: 0,
        }
    }

    /// The same participants under a new configuration.
    pub open spec fn reconfigured(
        self,
        asset: AssetModel,
        ping_amount: u128,
        duration: u64,
        activation: u64,
        max_funds: Option<u128>,
    ) -> PingPongModel {
        PingPongModel {
            users: self.users,
            statuses: self.statuses,
            cursor: self.cursor,
            ..PingPongModel::fresh(asset, ping_amount, duration, activation, max_funds)
        }
    }

    /// The index of the participant with address `a`, if it has one.
    pub open spec fn index_of(self, a: Seq<u8>) -> Option<int> {
        if exists|i: int| 0 <= i < self.users.len() && self.users[i] == a {
            Some(choose|i: int| 0 <= i < self.users.len() && self.users[i] == a)
        } else {
            None
        }
    }

    pub open spec fn status_of(self, a: Seq<u8>) -> UserStatus {
        match self.index_of(a) {
            Some(i) => self.statuses[i],
            None => UserStatus::Unregistered,
        }
    }

    /// Why a deposit of `paid` units of `paid_asset` by `caller` at time `now`
    /// is refused, if it is; `balance` is what the escrow holds of its asset
    /// once the payment has arrived.
    pub open spec fn ping_error(
        self,
        caller: Seq<u8>,
        paid_asset: AssetModel,
        paid: u128,
        now: u64,
        balance: u128,
    ) -> Option<PingPongError> {
        if paid_asset != self.asset {
            Some(PingPongError::WrongAsset)
        } else if paid != self.ping_amount {
            Some(PingPongError::WrongAmount)
        } else if now < self.activation {
            Some(PingPongError::NotActiveYet)
        } else if now >= self.deadline {
            Some(PingPongError::DeadlinePassed)
        } else if self.max_funds is Some && balance > self.max_funds->0 {
            Some(PingPongError::CapExceeded)
        } else if self.status_of(caller) != UserStatus::Unregistered {
            Some(PingPongError::AlreadyDeposited)
        } else {
            None
        }
    }

    /// The state after an accepted deposit by a new participant.
    pub open spec fn with_deposit(self, caller: Seq<u8>) -> PingPongModel {
        PingPongModel {
            users: self.users.push(caller),
            statuses: self.statuses.push(UserStatus::Deposited),
            ..self
        }
    }

    /// Why a withdrawal by `caller` at time `now` is refused, if it is.
    pub open spec fn pong_error(self, caller: Seq<u8>, now: u64) -> Option<PingPongError> {
        if now < self.deadline {
            Some(PingPongError::BeforeDeadline)
        } else {
            match self.status_of(caller) {
                UserStatus::Unregistered => Some(PingPongError::NeverDeposited),
                UserStatus::Refunded => Some(PingPongError::AlreadyWithdrawn),
                UserStatus::Deposited => None,
            }
        }
    }

    /// The state after an accepted withdrawal by `caller`.
    pub open spec fn with_refund(self, caller: Seq<u8>) -> PingPongModel {
        PingPongModel {
            statuses: self.statuses.update(self.index_of(caller)->0, UserStatus::Refunded),
            ..self
        }
    }

    /// How many participants a bulk refund call with `budget` handles.
    pub open spec fn batch_steps(self, budget: u64) -> nat {
        min_nat((budget / GAS_PER_REFUND) as nat, (self.users.len() - self.cursor) as nat)
    }

    /// Index one past the last participant that a bulk refund call handles.
    pub open spec fn batch_end(self, budget: u64) -> int {
        self.cursor + self.batch_steps(budget)
    }

    pub open spec fn batch_status(self, budget: u64) -> BatchStatus {
        if self.batch_end(budget) == self.users.len() {
            BatchStatus::Completed
        } else {
            BatchStatus::Interrupted
        }
    }

    /// The state after a bulk refund call with `budget`.
    pub open spec fn after_batch(self, budget: u64) -> PingPongModel {
        let end = self.batch_end(budget);
        PingPongModel {
            statuses: refund_range(self.statuses, self.cursor as int, end),
            cursor: if end == self.users.len() {
                0
            } else {
                end as u64
            },
            ..self
        }
    }

    /// Who a bulk refund call with `budget` pays back, in id order.
    pub open spec fn batch_refunded(self, budget: u64) -> Seq<Seq<u8>> {
        deposited_in(self.users, self.statuses, self.cursor as int, self.batch_end(budget))
    }
}

} // verus!
