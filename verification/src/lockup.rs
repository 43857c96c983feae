//! The veNEAR side of a lockup contract: NEAR is locked for veNEAR, unlocked into a
//! pending balance, and after the unlock duration either withdrawn or locked again.
//! Every change is reported to the veNEAR contract with a fresh nonce.
use crate::lockup_types::{Balance, Duration, Timestamp};
use vstd::prelude::*;

verus! {

/// The version of a deployed lockup contract.
pub type Version = u64;

/// Why a lockup operation was refused.
#[derive(Clone, Copy, Debug, PartialEq, Eq, Structural)]
pub enum LockupError {
    /// The call did not come with exactly one yoctoNEAR attached.
    RequiresOneYocto,
    /// The account balance is below the locked and pending balances together.
    IllegalBalance,
    /// The amount is above what the operation can move.
    InvalidAmount,
    /// The unlock duration has not passed yet.
    InvalidUnlockTime,
}

/// The state of a lockup that the veNEAR contract is told about.
#[derive(Clone, Copy, Debug, PartialEq, Eq, Structural)]
pub struct LockupUpdateV1 {
    /// The NEAR balance locked for veNEAR.
    pub locked_near_balance: Balance,
    /// When the update was made.
    pub timestamp: Timestamp,
    /// The nonce of this update; each update has a larger one than the previous.
    pub lockup_update_nonce: u64,
}

/// A versioned lockup update.
#[derive(Clone, Copy, Debug, PartialEq, Eq, Structural)]
pub enum VLockupUpdate {
    V1(LockupUpdateV1),
}

/// The veNEAR state of a lockup contract.
pub struct LockupContract {
    /// The owner of the lockup.
    pub owner_account_id: String,
    /// The veNEAR contract that is told about every change.
    pub venear_account_id: String,
    /// The version of this lockup contract.
    pub version: Version,
    /// How long unlocked NEAR stays pending before it can be withdrawn.
    pub unlock_duration_ns: Duration,
    /// NEAR locked for veNEAR.
    pub venear_locked_balance: Balance,
    /// NEAR being unlocked.
    pub venear_pending_balance: Balance,
    /// When the pending NEAR can be withdrawn.
    pub venear_unlock_timestamp: Timestamp,
    /// The nonce of the last update sent to the veNEAR contract.
    pub lockup_update_nonce: u64,
}

/// The amount an operation moves: the one given, or `all` where none is given.
pub open spec fn resolve_amount(amount: Option<Balance>, all: Balance) -> Balance {
    match amount {
        Some(a) => a,
        None => all,
    }
}

/// `a - b`, or nothing where it would be negative.
pub open spec fn spec_checked_sub(a: Balance, b: Balance) -> Option<Balance> {
    if a >= b {
        Some((a - b) as Balance)
    } else {
        None
    }
}

/// `a - b`, or `None` where it would be negative.
fn checked_sub(a: Balance, b: Balance) -> (r: Option<Balance>)
    ensures
        r == spec_checked_sub(a, b),
{
    if a >= b {
        Some(a - b)
    } else {
        None
    }
}

/// Refuses a call that does not come with exactly one yoctoNEAR.
fn assert_one_yocto(attached_deposit: Balance) -> (r: Result<(), LockupError>)
    ensures
        r == (if attached_deposit == 1 {
            Ok::<(), LockupError>(())
        } else {
            Err(LockupError::RequiresOneYocto)
        }),
{
    if attached_deposit == 1 {
        Ok(())
    } else {
        Err(LockupError::RequiresOneYocto)
    }
}

impl LockupContract {
    /// The locked and pending balances fit in a balance together.
    pub open spec fn wf(self) -> bool {
        self.venear_locked_balance + self.venear_pending_balance <= u128::MAX
    }

    /// The account balance covers the locked and pending balances.
    pub open spec fn covers(self, account_balance: Balance) -> bool {
        account_balance >= self.venear_locked_balance + self.venear_pending_balance
    }

    /// The part of `account_balance` that is neither locked nor pending.
    pub open spec fn spec_liquid_balance(self, account_balance: Balance) -> Balance {
        (account_balance - self.venear_locked_balance - self.venear_pending_balance) as Balance
    }

    /// The next nonce and the update that reports the locked balance at `now`.
    pub open spec fn spec_lockup_update(self, now: Timestamp) -> (LockupContract, VLockupUpdate) {
        let nonce = (self.lockup_update_nonce + 1) as u64;
        (
            LockupContract { lockup_update_nonce: nonce, ..self },
            VLockupUpdate::V1(
                LockupUpdateV1 {
                    locked_near_balance: self.venear_locked_balance,
                    timestamp: now,
                    lockup_update_nonce: nonce,
                },
            ),
        )
    }

    /// Whether `lock_near` accepts the call, and the amount it then locks: `amount`, or
    /// all of the liquid balance.
    pub open spec fn spec_check_lock_near(
        self,
        amount: Option<Balance>,
        attached_deposit: Balance,
        account_balance: Balance,
    ) -> Result<Balance, LockupError> {
        if attached_deposit != 1 {
            Err(LockupError::RequiresOneYocto)
        } else if !self.covers(account_balance) {
            Err(LockupError::IllegalBalance)
        } else if resolve_amount(amount, self.spec_liquid_balance(account_balance))
            > self.spec_liquid_balance(account_balance) {
            Err(LockupError::InvalidAmount)
        } else {
            Ok(resolve_amount(amount, self.spec_liquid_balance(account_balance)))
        }
    }

    /// Whether `begin_unlock_near` accepts the call, and the amount it then unlocks:
    /// `amount`, or all of the locked balance.
    pub open spec fn spec_check_begin_unlock_near(self, amount: Option<Balance>, attached_deposit: Balance) -> Result<Balance, LockupError> {
        if attached_deposit != 1 {
            Err(LockupError::RequiresOneYocto)
        } else if resolve_amount(amount, self.venear_locked_balance) > self.venear_locked_balance {
            Err(LockupError::InvalidAmount)
        } else {
            Ok(resolve_amount(amount, self.venear_locked_balance))
        }
    }

    /// Whether `end_unlock_near` accepts the call at `now`, and the amount it then
    /// releases: `amount`, or all of the pending balance.
    pub open spec fn spec_check_end_unlock_near(
        self,
        amount: Option<Balance>,
        attached_deposit: Balance,
        now: Timestamp,
    ) -> Result<Balance, LockupError> {
        if attached_deposit != 1 {
            Err(LockupError::RequiresOneYocto)
        } else if resolve_amount(amount, self.venear_pending_balance) > self.venear_pending_balance {
            Err(LockupError::InvalidAmount)
        } else if now < self.venear_unlock_timestamp {
            Err(LockupError::InvalidUnlockTime)
        } else {
            Ok(resolve_amount(amount, self.venear_pending_balance))
        }
    }

    /// Whether `lock_pending_near` accepts the call, and the amount it then locks again:
    /// `amount`, or all of the pending balance.
    pub open spec fn spec_check_lock_pending_near(self, amount: Option<Balance>, attached_deposit: Balance) -> Result<Balance, LockupError> {
        if attached_deposit != 1 {
            Err(LockupError::RequiresOneYocto)
        } else if resolve_amount(amount, self.venear_pending_balance) > self.venear_pending_balance {
            Err(LockupError::InvalidAmount)
        } else {
            Ok(resolve_amount(amount, self.venear_pending_balance))
        }
    }

    /// `lock_near` of an accepted `amount`: the locked balance grows by it.
    pub open spec fn spec_lock_near(self, amount: Balance, now: Timestamp) -> (LockupContract, VLockupUpdate) {
        LockupContract {
            venear_locked_balance: (self.venear_locked_balance + amount) as Balance,
            ..self
        }.spec_lockup_update(now)
    }

    /// `begin_unlock_near` of an accepted `amount`: it moves from locked to pending and
    /// the unlock period restarts at `now`.
    pub open spec fn spec_begin_unlock_near(self, amount: Balance, now: Timestamp) -> (LockupContract, VLockupUpdate) {
        LockupContract {
            venear_locked_balance: (self.venear_locked_balance - amount) as Balance,
            venear_pending_balance: (self.venear_pending_balance + amount) as Balance,
            venear_unlock_timestamp: (now + self.unlock_duration_ns) as Timestamp,
            ..self
        }.spec_lockup_update(now)
    }

    /// `end_unlock_near` of an accepted `amount`: it leaves the pending balance.
    pub open spec fn spec_end_unlock_near(self, amount: Balance, now: Timestamp) -> (LockupContract, VLockupUpdate) {
        LockupContract {
            venear_pending_balance: (self.venear_pending_balance - amount) as Balance,
            ..self
        }.spec_lockup_update(now)
    }

    /// `lock_pending_near` of an accepted `amount`: it moves from pending to locked.
    pub open spec fn spec_lock_pending_near(self, amount: Balance, now: Timestamp) -> (LockupContract, VLockupUpdate) {
        LockupContract {
            venear_pending_balance: (self.venear_pending_balance - amount) as Balance,
            venear_locked_balance: (self.venear_locked_balance + amount) as Balance,
            ..self
        }.spec_lockup_update(now)
    }

    /// A lockup with nothing locked or pending and no update sent yet.
    pub fn new(
        owner_account_id: String,
        venear_account_id: String,
        version: Version,
        unlock_duration_ns: Duration,
    ) -> (r: LockupContract)
        ensures
            r.wf(),
            r.owner_account_id == owner_account_id,
            r.venear_account_id == venear_account_id,
            r.version == version,
            r.unlock_duration_ns == unlock_duration_ns,
            r.venear_locked_balance == 0,
            r.venear_pending_balance == 0,
            r.venear_unlock_timestamp == 0,
            r.lockup_update_nonce == 0,
    {
        LockupContract {
            owner_account_id,
            venear_account_id,
            version,
            unlock_duration_ns,
            venear_locked_balance: 0,
            venear_pending_balance: 0,
            venear_unlock_timestamp: 0,
            lockup_update_nonce: 0,
        }
    }

    /// Refuses to compute the liquid balance where the account balance is below the
    /// locked and pending balances together.
    pub fn check_liquid_balance(&self, account_balance: Balance) -> (r: Result<(), LockupError>)
        ensures
            r == (if self.covers(account_balance) {
                Ok::<(), LockupError>(())
            } else {
                Err(LockupError::IllegalBalance)
            }),
            r is Ok <==> account_balance >= self.venear_locked_balance + self.venear_pending_balance,
            r is Err ==> r == Err::<(), LockupError>(LockupError::IllegalBalance),
    {
        match checked_sub(account_balance, self.venear_locked_balance) {
            None => Err(LockupError::IllegalBalance),
            Some(remaining) => match checked_sub(remaining, self.venear_pending_balance) {
                None => Err(LockupError::IllegalBalance),
                Some(_) => Ok(()),
            },
        }
    }

    /// The part of `account_balance` that is neither locked nor pending.
    pub fn venear_liquid_balance(&self, account_balance: Balance) -> (r: Balance)
        requires
            self.covers(account_balance),
        ensures
            r == self.spec_liquid_balance(account_balance),
            r + self.venear_locked_balance + self.venear_pending_balance == account_balance,
    {
        account_balance - self.venear_locked_balance - self.venear_pending_balance
    }

    /// Starts the unlock period at `now`.
    fn set_venear_unlock_timestamp(&mut self, now: Timestamp)
        requires
            now + old(self).unlock_duration_ns <= u64::MAX,
        ensures
            *final(self) == (LockupContract {
                venear_unlock_timestamp: (now + old(self).unlock_duration_ns) as Timestamp,
                ..*old(self)
            }),
    {
        self.venear_unlock_timestamp = now + self.unlock_duration_ns;
    }

    /// Takes the next nonce and returns the update that reports the locked balance.
    fn venear_lockup_update(&mut self, now: Timestamp) -> (r: VLockupUpdate)
        requires
            old(self).lockup_update_nonce < u64::MAX,
        ensures
            (*final(self), r) == old(self).spec_lockup_update(now),
    {
        self.lockup_update_nonce = self.lockup_update_nonce + 1;
        VLockupUpdate::V1(
            LockupUpdateV1 {
                locked_near_balance: self.venear_locked_balance,
                timestamp: now,
                lockup_update_nonce: self.lockup_update_nonce,
            },
        )
    }

    /// The NEAR balance locked for veNEAR.
    pub fn get_venear_locked_balance(&self) -> (r: Balance)
        ensures
            r == self.venear_locked_balance,
    {
        self.venear_locked_balance
    }

    /// When the pending NEAR can be withdrawn.
    pub fn get_venear_unlock_timestamp(&self) -> (r: Timestamp)
        ensures
            r == self.venear_unlock_timestamp,
    {
        self.venear_unlock_timestamp
    }

    /// The nonce of the last update sent to the veNEAR contract.
    pub fn get_lockup_update_nonce(&self) -> (r: u64)
        ensures
            r == self.lockup_update_nonce,
    {
        self.lockup_update_nonce
    }

    /// The NEAR balance being unlocked.
    pub fn get_venear_pending_balance(&self) -> (r: Balance)
        ensures
            r == self.venear_pending_balance,
    {
        self.venear_pending_balance
    }

    /// The NEAR balance that is neither locked nor pending.
    pub fn get_venear_liquid_balance(&self, account_balance: Balance) -> (r: Balance)
        requires
            self.covers(account_balance),
        ensures
            r == self.spec_liquid_balance(account_balance),
            r + self.venear_locked_balance + self.venear_pending_balance == account_balance,
    {
        self.venear_liquid_balance(account_balance)
    }

    /// The refusal of `lock_near`, if it refuses the call, else the amount it locks.
    pub fn check_lock_near(
        &self,
        amount: Option<Balance>,
        attached_deposit: Balance,
        account_balance: Balance,
    ) -> (r: Result<Balance, LockupError>)
        ensures
            r == self.spec_check_lock_near(amount, attached_deposit, account_balance),
            attached_deposit != 1 ==> r == Err::<Balance, LockupError>(LockupError::RequiresOneYocto),
            attached_deposit == 1 && account_balance < self.venear_locked_balance
                + self.venear_pending_balance ==> r == Err::<Balance, LockupError>(LockupError::IllegalBalance),
            attached_deposit == 1 && account_balance >= self.venear_locked_balance
                + self.venear_pending_balance ==> match amount {
                None => r == Ok::<Balance, LockupError>(
                    (account_balance - self.venear_locked_balance - self.venear_pending_balance) as Balance,
                ),
                Some(x) => r == if x + self.venear_locked_balance + self.venear_pending_balance
                    <= account_balance {
                    Ok::<Balance, LockupError>(x)
                } else {
                    Err(LockupError::InvalidAmount)
                },
            },
    {
        assert_one_yocto(attached_deposit)?;
        self.check_liquid_balance(account_balance)?;
        let liquid = self.venear_liquid_balance(account_balance);
        let amount: Balance = match amount {
            Some(amount) => amount,
            None => liquid,
        };
        if amount > liquid {
            return Err(LockupError::InvalidAmount);
        }
        Ok(amount)
    }

    /// Locks `amount` of NEAR, or all of the liquid balance where no amount is given,
    /// and returns the update that reports the new locked balance.
    /// Only for a call that `check_lock_near` accepts: 1 yoctoNEAR attached, the
    /// account balance covering locked and pending, the amount within the liquid
    /// balance.
    pub fn lock_near(
        &mut self,
        amount: Option<Balance>,
        attached_deposit: Balance,
        account_balance: Balance,
        now: Timestamp,
    ) -> (r: VLockupUpdate)
        requires
            old(self).spec_check_lock_near(amount, attached_deposit, account_balance) is Ok,
            old(self).lockup_update_nonce < u64::MAX,
        ensures
            (*final(self), r) == old(self).spec_lock_near(
                old(self).spec_check_lock_near(amount, attached_deposit, account_balance)->Ok_0,
                now,
            ),
            final(self).wf(),
            final(self).venear_pending_balance == old(self).venear_pending_balance,
            final(self).venear_unlock_timestamp == old(self).venear_unlock_timestamp,
            final(self).lockup_update_nonce == old(self).lockup_update_nonce + 1,
            final(self).venear_locked_balance == match amount {
                Some(x) => old(self).venear_locked_balance + x,
                None => account_balance - old(self).venear_pending_balance,
            },
            r == VLockupUpdate::V1(
                LockupUpdateV1 {
                    locked_near_balance: final(self).venear_locked_balance,
                    timestamp: now,
                    lockup_update_nonce: final(self).lockup_update_nonce,
                },
            ),
    {
        let amount: Balance = match amount {
            Some(amount) => amount,
            None => self.venear_liquid_balance(account_balance),
        };
        self.venear_locked_balance = self.venear_locked_balance + amount;
        self.venear_lockup_update(now)
    }

    /// The refusal of `begin_unlock_near`, if it refuses the call, else the amount it
    /// unlocks.
    pub fn check_begin_unlock_near(&self, amount: Option<Balance>, attached_deposit: Balance) -> (r: Result<Balance, LockupError>)
        ensures
            r == self.spec_check_begin_unlock_near(amount, attached_deposit),
            attached_deposit != 1 ==> r == Err::<Balance, LockupError>(LockupError::RequiresOneYocto),
            attached_deposit == 1 ==> match amount {
                None => r == Ok::<Balance, LockupError>(self.venear_locked_balance),
                Some(x) => r == if x <= self.venear_locked_balance {
                    Ok::<Balance, LockupError>(x)
                } else {
                    Err(LockupError::InvalidAmount)
                },
            },
    {
        assert_one_yocto(attached_deposit)?;
        let amount: Balance = match amount {
            Some(amount) => amount,
            None => self.venear_locked_balance,
        };
        if amount > self.venear_locked_balance {
            return Err(LockupError::InvalidAmount);
        }
        Ok(amount)
    }

    /// Moves `amount` of locked NEAR, or all of it where no amount is given, to the
    /// pending balance, restarts the unlock period at `now` and returns the update that
    /// reports the new locked balance.
    /// Only for a call that `check_begin_unlock_near` accepts: 1 yoctoNEAR attached,
    /// the amount within the locked balance.
    pub fn begin_unlock_near(
        &mut self,
        amount: Option<Balance>,
        attached_deposit: Balance,
        now: Timestamp,
    ) -> (r: VLockupUpdate)
        requires
            old(self).spec_check_begin_unlock_near(amount, attached_deposit) is Ok,
            old(self).venear_pending_balance + resolve_amount(amount, old(self).venear_locked_balance)
                <= u128::MAX,
            now + old(self).unlock_duration_ns <= u64::MAX,
            old(self).lockup_update_nonce < u64::MAX,
        ensures
            (*final(self), r) == old(self).spec_begin_unlock_near(
                old(self).spec_check_begin_unlock_near(amount, attached_deposit)->Ok_0,
                now,
            ),
            old(self).wf() ==> final(self).wf(),
            final(self).venear_locked_balance + final(self).venear_pending_balance
                == old(self).venear_locked_balance + old(self).venear_pending_balance,
            final(self).venear_locked_balance == match amount {
                Some(x) => old(self).venear_locked_balance - x,
                None => 0,
            },
            final(self).venear_unlock_timestamp == now + old(self).unlock_duration_ns,
            final(self).lockup_update_nonce == old(self).lockup_update_nonce + 1,
            r == VLockupUpdate::V1(
                LockupUpdateV1 {
                    locked_near_balance: final(self).venear_locked_balance,
                    timestamp: now,
                    lockup_update_nonce: final(self).lockup_update_nonce,
                },
            ),
    {
        let amount: Balance = match amount {
            Some(amount) => amount,
            None => self.venear_locked_balance,
        };
        self.venear_locked_balance = self.venear_locked_balance - amount;
        self.venear_pending_balance = self.venear_pending_balance + amount;
        self.set_venear_unlock_timestamp(now);
        self.venear_lockup_update(now)
    }

    /// The refusal of `end_unlock_near` at `now`, if it refuses the call, else the
    /// amount it releases.
    pub fn check_end_unlock_near(
        &self,
        amount: Option<Balance>,
        attached_deposit: Balance,
        now: Timestamp,
    ) -> (r: Result<Balance, LockupError>)
        ensures
            r == self.spec_check_end_unlock_near(amount, attached_deposit, now),
            attached_deposit != 1 ==> r == Err::<Balance, LockupError>(LockupError::RequiresOneYocto),
            attached_deposit == 1 ==> match amount {
                None => r == if now >= self.venear_unlock_timestamp {
                    Ok::<Balance, LockupError>(self.venear_pending_balance)
                } else {
                    Err(LockupError::InvalidUnlockTime)
                },
                Some(x) => r == if x > self.venear_pending_balance {
                    Err::<Balance, LockupError>(LockupError::InvalidAmount)
                } else if now < self.venear_unlock_timestamp {
                    Err(LockupError::InvalidUnlockTime)
                } else {
                    Ok(x)
                },
            },
    {
        assert_one_yocto(attached_deposit)?;
        let amount: Balance = match amount {
            Some(amount) => amount,
            None => self.venear_pending_balance,
        };
        if amount > self.venear_pending_balance {
            return Err(LockupError::InvalidAmount);
        }
        if now < self.venear_unlock_timestamp {
            return Err(LockupError::InvalidUnlockTime);
        }
        Ok(amount)
    }

    /// Releases `amount` of pending NEAR, or all of it where no amount is given, and
    /// returns the update that reports the locked balance.
    /// Only for a call that `check_end_unlock_near` accepts: 1 yoctoNEAR attached, the
    /// amount within the pending balance, the unlock timestamp reached.
    pub fn end_unlock_near(
        &mut self,
        amount: Option<Balance>,
        attached_deposit: Balance,
        now: Timestamp,
    ) -> (r: VLockupUpdate)
        requires
            old(self).spec_check_end_unlock_near(amount, attached_deposit, now) is Ok,
            old(self).lockup_update_nonce < u64::MAX,
        ensures
            (*final(self), r) == old(self).spec_end_unlock_near(
                old(self).spec_check_end_unlock_near(amount, attached_deposit, now)->Ok_0,
                now,
            ),
            old(self).wf() ==> final(self).wf(),
            final(self).venear_locked_balance == old(self).venear_locked_balance,
            final(self).venear_pending_balance == match amount {
                Some(x) => old(self).venear_pending_balance - x,
                None => 0,
            },
            final(self).venear_unlock_timestamp == old(self).venear_unlock_timestamp,
            final(self).lockup_update_nonce == old(self).lockup_update_nonce + 1,
            r == VLockupUpdate::V1(
                LockupUpdateV1 {
                    locked_near_balance: final(self).venear_locked_balance,
                    timestamp: now,
                    lockup_update_nonce: final(self).lockup_update_nonce,
                },
            ),
    {
        let amount: Balance = match amount {
            Some(amount) => amount,
            None => self.venear_pending_balance,
        };
        self.venear_pending_balance = self.venear_pending_balance - amount;
        self.venear_lockup_update(now)
    }

    /// The refusal of `lock_pending_near`, if it refuses the call, else the amount it
    /// locks again.
    pub fn check_lock_pending_near(&self, amount: Option<Balance>, attached_deposit: Balance) -> (r: Result<Balance, LockupError>)
        ensures
            r == self.spec_check_lock_pending_near(amount, attached_deposit),
            attached_deposit != 1 ==> r == Err::<Balance, LockupError>(LockupError::RequiresOneYocto),
            attached_deposit == 1 ==> match amount {
                None => r == Ok::<Balance, LockupError>(self.venear_pending_balance),
                Some(x) => r == if x <= self.venear_pending_balance {
                    Ok::<Balance, LockupError>(x)
                } else {
                    Err(LockupError::InvalidAmount)
                },
            },
    {
        assert_one_yocto(attached_deposit)?;
        let amount: Balance = match amount {
            Some(amount) => amount,
            None => self.venear_pending_balance,
        };
        if amount > self.venear_pending_balance {
            return Err(LockupError::InvalidAmount);
        }
        Ok(amount)
    }

    /// Locks `amount` of pending NEAR, or all of it where no amount is given, again,
    /// and returns the update that reports the new locked balance.
    /// Only for a call that `check_lock_pending_near` accepts: 1 yoctoNEAR attached,
    /// the amount within the pending balance.
    pub fn lock_pending_near(
        &mut self,
        amount: Option<Balance>,
        attached_deposit: Balance,
        now: Timestamp,
    ) -> (r: VLockupUpdate)
        requires
            old(self).spec_check_lock_pending_near(amount, attached_deposit) is Ok,
            old(self).venear_locked_balance + resolve_amount(amount, old(self).venear_pending_balance)
                <= u128::MAX,
            old(self).lockup_update_nonce < u64::MAX,
        ensures
            (*final(self), r) == old(self).spec_lock_pending_near(
                old(self).spec_check_lock_pending_near(amount, attached_deposit)->Ok_0,
                now,
            ),
            old(self).wf() ==> final(self).wf(),
            final(self).venear_locked_balance + final(self).venear_pending_balance
                == old(self).venear_locked_balance + old(self).venear_pending_balance,
            final(self).venear_pending_balance == match amount {
                Some(x) => old(self).venear_pending_balance - x,
                None => 0,
            },
            final(self).venear_unlock_timestamp == old(self).venear_unlock_timestamp,
            final(self).lockup_update_nonce == old(self).lockup_update_nonce + 1,
            r == VLockupUpdate::V1(
                LockupUpdateV1 {
                    locked_near_balance: final(self).venear_locked_balance,
                    timestamp: now,
                    lockup_update_nonce: final(self).lockup_update_nonce,
                },
            ),
    {
        let amount: Balance = match amount {
            Some(amount) => amount,
            None => self.venear_pending_balance,
        };
        self.venear_pending_balance = self.venear_pending_balance - amount;
        self.venear_locked_balance = self.venear_locked_balance + amount;
        self.venear_lockup_update(now)
    }
}

/// Every accepted operation takes the next nonce and reports the locked balance
/// after the operation with that nonce and the time of the operation.
pub open spec fn reports_update(
    before: LockupContract,
    after: LockupContract,
    update: VLockupUpdate,
    now: Timestamp,
) -> bool {
    &&& after.lockup_update_nonce == before.lockup_update_nonce + 1
    &&& update == VLockupUpdate::V1(
        LockupUpdateV1 {
            locked_near_balance: after.venear_locked_balance,
            timestamp: now,
            lockup_update_nonce: after.lockup_update_nonce,
        },
    )
}

/// Locking never takes more than the account holds: after `lock_near` the locked and
/// pending balances together stay within the account balance, and the locked balance
/// grew by the amount.
pub proof fn lemma_lock_near_within_account_balance(
    s: LockupContract,
    amount: Option<Balance>,
    attached_deposit: Balance,
    account_balance: Balance,
    now: Timestamp,
)
    requires
        s.lockup_update_nonce < u64::MAX,
        s.spec_check_lock_near(amount, attached_deposit, account_balance) is Ok,
    ensures
        ({
            let a = s.spec_check_lock_near(amount, attached_deposit, account_balance)->Ok_0;
            let (t, u) = s.spec_lock_near(a, now);
            &&& t.venear_locked_balance + t.venear_pending_balance <= account_balance
            &&& t.venear_pending_balance == s.venear_pending_balance
            &&& t.venear_locked_balance == s.venear_locked_balance + a
            &&& amount matches Some(x) ==> a == x
            &&& t.wf()
            &&& reports_update(s, t, u, now)
        }),
{
}

/// Unlocking and locking the pending NEAR again move NEAR between the two balances:
/// their sum is kept, releasing only lowers the pending balance, and each accepted
/// operation reports with the next nonce.
pub proof fn lemma_unlock_and_relock_keep_total(
    s: LockupContract,
    amount: Option<Balance>,
    attached_deposit: Balance,
    now: Timestamp,
)
    requires
        s.lockup_update_nonce < u64::MAX,
    ensures
        match s.spec_check_begin_unlock_near(amount, attached_deposit) {
            Ok(a) => s.venear_pending_balance + a <= u128::MAX ==> {
                let (t, u) = s.spec_begin_unlock_near(a, now);
                &&& t.venear_locked_balance + t.venear_pending_balance
                    == s.venear_locked_balance + s.venear_pending_balance
                &&& reports_update(s, t, u, now)
            },
            Err(_) => true,
        },
        match s.spec_check_lock_pending_near(amount, attached_deposit) {
            Ok(a) => s.venear_locked_balance + a <= u128::MAX ==> {
                let (t, u) = s.spec_lock_pending_near(a, now);
                &&& t.venear_locked_balance + t.venear_pending_balance
                    == s.venear_locked_balance + s.venear_pending_balance
                &&& reports_update(s, t, u, now)
            },
            Err(_) => true,
        },
        match s.spec_check_end_unlock_near(amount, attached_deposit, now) {
            Ok(a) => {
                let (t, u) = s.spec_end_unlock_near(a, now);
                &&& t.venear_locked_balance == s.venear_locked_balance
                &&& t.venear_pending_balance == s.venear_pending_balance - a
                &&& reports_update(s, t, u, now)
            },
            Err(_) => true,
        },
{
}

/// Beginning to unlock an amount and then locking the same pending amount again
/// restores the locked and pending balances; only the nonce has moved on, by two.
pub proof fn lemma_unlock_then_relock_restores(
    s: LockupContract,
    amount: Balance,
    unlock_time: Timestamp,
    relock_time: Timestamp,
)
    requires
        s.wf(),
        s.lockup_update_nonce + 2 <= u64::MAX,
        unlock_time + s.unlock_duration_ns <= u64::MAX,
        amount <= s.venear_locked_balance,
    ensures
        s.spec_check_begin_unlock_near(Some(amount), 1) == Ok::<Balance, LockupError>(amount),
        ({
            let t = s.spec_begin_unlock_near(amount, unlock_time).0;
            &&& t.spec_check_lock_pending_near(Some(amount), 1) == Ok::<Balance, LockupError>(amount)
            &&& ({
                let v = t.spec_lock_pending_near(amount, relock_time).0;
                &&& v.venear_locked_balance == s.venear_locked_balance
                &&& v.venear_pending_balance == s.venear_pending_balance
                &&& v.lockup_update_nonce == s.lockup_update_nonce + 2
            })
        }),
{
}

/// NEAR whose unlock began at `unlock_time` cannot be withdrawn before the unlock
/// duration has passed: right after `begin_unlock_near`, `end_unlock_near` of any
/// amount within the pending balance is refused until
/// `unlock_time + unlock_duration_ns`, and accepted from then on.
pub proof fn lemma_withdraw_waits_for_unlock_duration(
    s: LockupContract,
    amount: Balance,
    unlock_time: Timestamp,
    withdraw_amount: Balance,
    withdraw_time: Timestamp,
)
    requires
        s.lockup_update_nonce < u64::MAX,
        unlock_time + s.unlock_duration_ns <= u64::MAX,
        amount <= s.venear_locked_balance,
        s.venear_pending_balance + amount <= u128::MAX,
        withdraw_amount <= s.venear_pending_balance + amount,
    ensures
        ({
            let t = s.spec_begin_unlock_near(amount, unlock_time).0;
            &&& withdraw_time < unlock_time + s.unlock_duration_ns
                ==> t.spec_check_end_unlock_near(Some(withdraw_amount), 1, withdraw_time)
                == Err::<Balance, LockupError>(LockupError::InvalidUnlockTime)
            &&& withdraw_time >= unlock_time + s.unlock_duration_ns
                ==> t.spec_check_end_unlock_near(Some(withdraw_amount), 1, withdraw_time)
                == Ok::<Balance, LockupError>(withdraw_amount)
        }),
{
}

/// A call to one of the four veNEAR operations of a lockup, with what the blockchain
/// gives it.
pub enum LockupCall {
    LockNear { amount: Option<Balance>, attached_deposit: Balance, account_balance: Balance, now: Timestamp },
    BeginUnlockNear { amount: Option<Balance>, attached_deposit: Balance, now: Timestamp },
    EndUnlockNear { amount: Option<Balance>, attached_deposit: Balance, now: Timestamp },
    LockPendingNear { amount: Option<Balance>, attached_deposit: Balance, now: Timestamp },
}

/// The state after `call`, where the operation accepts it.
pub open spec fn step(s: LockupContract, call: LockupCall) -> Option<LockupContract> {
    match call {
        LockupCall::LockNear { amount, attached_deposit, account_balance, now } => match s.spec_check_lock_near(
            amount,
            attached_deposit,
            account_balance,
        ) {
            Ok(a) => Some(s.spec_lock_near(a, now).0),
            Err(_) => None,
        },
        LockupCall::BeginUnlockNear { amount, attached_deposit, now } => match s.spec_check_begin_unlock_near(
            amount,
            attached_deposit,
        ) {
            Ok(a) => Some(s.spec_begin_unlock_near(a, now).0),
            Err(_) => None,
        },
        LockupCall::EndUnlockNear { amount, attached_deposit, now } => match s.spec_check_end_unlock_near(
            amount,
            attached_deposit,
            now,
        ) {
            Ok(a) => Some(s.spec_end_unlock_near(a, now).0),
            Err(_) => None,
        },
        LockupCall::LockPendingNear { amount, attached_deposit, now } => match s.spec_check_lock_pending_near(
            amount,
            attached_deposit,
        ) {
            Ok(a) => Some(s.spec_lock_pending_near(a, now).0),
            Err(_) => None,
        },
    }
}

/// The state after a sequence of calls; a refused call changes nothing.
pub open spec fn run(s: LockupContract, calls: Seq<LockupCall>) -> LockupContract
    decreases calls.len(),
{
    if calls.len() == 0 {
        s
    } else {
        let next = match step(s, calls[0]) {
            Some(t) => t,
            None => s,
        };
        run(next, calls.drop_first())
    }
}

/// How many calls of a sequence are accepted.
pub open spec fn accepted(s: LockupContract, calls: Seq<LockupCall>) -> nat
    decreases calls.len(),
{
    if calls.len() == 0 {
        0
    } else {
        match step(s, calls[0]) {
            Some(t) => 1 + accepted(t, calls.drop_first()),
            None => accepted(s, calls.drop_first()),
        }
    }
}

/// A single accepted call takes exactly the next nonce and leaves the unlock timestamp
/// alone unless it begins an unlock.
proof fn lemma_step(s: LockupContract, call: LockupCall)
    requires
        s.lockup_update_nonce < u64::MAX,
    ensures
        step(s, call) matches Some(t) ==> t.lockup_update_nonce == s.lockup_update_nonce + 1,
        !(call is BeginUnlockNear) ==> (step(s, call) matches Some(t) ==> t.venear_unlock_timestamp
            == s.venear_unlock_timestamp),
{
}

/// Over any sequence of calls the nonce counts the accepted calls: it never goes
/// down, and it goes up by exactly one per accepted call.
pub proof fn lemma_nonce_counts_accepted_calls(s: LockupContract, calls: Seq<LockupCall>)
    requires
        s.lockup_update_nonce + calls.len() <= u64::MAX,
    ensures
        accepted(s, calls) <= calls.len(),
        run(s, calls).lockup_update_nonce == s.lockup_update_nonce + accepted(s, calls),
        run(s, calls).lockup_update_nonce >= s.lockup_update_nonce,
    decreases calls.len(),
{
    if calls.len() > 0 {
        lemma_step(s, calls[0]);
        match step(s, calls[0]) {
            Some(t) => lemma_nonce_counts_accepted_calls(t, calls.drop_first()),
            None => lemma_nonce_counts_accepted_calls(s, calls.drop_first()),
        }
    }
}

/// The unlock timestamp holds until the next `begin_unlock_near`: a sequence of calls
/// without one leaves it as it is.
pub proof fn lemma_unlock_time_holds(s: LockupContract, calls: Seq<LockupCall>)
    requires
        s.lockup_update_nonce + calls.len() <= u64::MAX,
        forall|i: int| 0 <= i < calls.len() ==> !(#[trigger] calls[i] is BeginUnlockNear),
    ensures
        run(s, calls).venear_unlock_timestamp == s.venear_unlock_timestamp,
    decreases calls.len(),
{
    if calls.len() > 0 {
        lemma_step(s, calls[0]);
        let rest = calls.drop_first();
        assert forall|i: int| 0 <= i < rest.len() implies !(#[trigger] rest[i] is BeginUnlockNear) by {
            assert(rest[i] == calls[i + 1]);
        }
        assert(!(calls[0] is BeginUnlockNear));
        match step(s, calls[0]) {
            Some(t) => lemma_unlock_time_holds(t, rest),
            None => lemma_unlock_time_holds(s, rest),
        }
    }
}

/// Locking with no amount locks everything liquid: with one yoctoNEAR attached and an
/// account balance that covers the locked and pending balances, the call is accepted,
/// locks `account_balance - locked - pending`, and afterwards the locked and pending
/// balances add up to the account balance.
pub proof fn lemma_lock_all_liquid(s: LockupContract, account_balance: Balance, now: Timestamp)
    requires
        account_balance >= s.venear_locked_balance + s.venear_pending_balance,
    ensures
        s.spec_check_lock_near(None, 1, account_balance) == Ok::<Balance, LockupError>(
            (account_balance - s.venear_locked_balance - s.venear_pending_balance) as Balance,
        ),
        ({
            let t = s.spec_lock_near(
                (account_balance - s.venear_locked_balance - s.venear_pending_balance) as Balance,
                now,
            ).0;
            &&& t.venear_locked_balance + t.venear_pending_balance == account_balance
            &&& t.venear_pending_balance == s.venear_pending_balance
        }),
{
}

/// Unlocking with no amount unlocks the whole locked balance: with one yoctoNEAR the
/// call is accepted, and afterwards nothing is locked and the pending balance holds
/// the old locked and pending balances together.
pub proof fn lemma_unlock_all(s: LockupContract, now: Timestamp)
    requires
        s.wf(),
    ensures
        s.spec_check_begin_unlock_near(None, 1) == Ok::<Balance, LockupError>(s.venear_locked_balance),
        ({
            let t = s.spec_begin_unlock_near(s.venear_locked_balance, now).0;
            &&& t.venear_locked_balance == 0
            &&& t.venear_pending_balance == s.venear_locked_balance + s.venear_pending_balance
        }),
{
}

/// Locking pending NEAR again with no amount relocks the whole pending balance: with
/// one yoctoNEAR the call is accepted, and afterwards nothing is pending and the
/// locked balance holds the old locked and pending balances together.
pub proof fn lemma_relock_all_pending(s: LockupContract, now: Timestamp)
    requires
        s.wf(),
    ensures
        s.spec_check_lock_pending_near(None, 1) == Ok::<Balance, LockupError>(s.venear_pending_balance),
        ({
            let t = s.spec_lock_pending_near(s.venear_pending_balance, now).0;
            &&& t.venear_pending_balance == 0
            &&& t.venear_locked_balance == s.venear_locked_balance + s.venear_pending_balance
        }),
{
}

/// Releasing with no amount once the unlock time is reached releases the whole pending
/// balance and leaves the locked balance.
pub proof fn lemma_release_all_pending(s: LockupContract, now: Timestamp)
    requires
        now >= s.venear_unlock_timestamp,
    ensures
        s.spec_check_end_unlock_near(None, 1, now) == Ok::<Balance, LockupError>(s.venear_pending_balance),
        ({
            let t = s.spec_end_unlock_near(s.venear_pending_balance, now).0;
            &&& t.venear_pending_balance == 0
            &&& t.venear_locked_balance == s.venear_locked_balance
        }),
{
}

} // verus!
