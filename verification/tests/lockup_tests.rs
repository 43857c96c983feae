use venear::lockup::{LockupContract, LockupError, LockupUpdateV1, VLockupUpdate};

const NEAR: u128 = 1_000_000_000_000_000_000_000_000;
const DAY_NS: u64 = 24 * 60 * 60 * 1_000_000_000;
const NOW: u64 = 1_700_000_000_000_000_000;

fn lockup() -> LockupContract {
    LockupContract::new(
        "owner.near".to_string(),
        "venear.near".to_string(),
        1,
        7 * DAY_NS,
    )
}

fn update(locked: u128, timestamp: u64, nonce: u64) -> VLockupUpdate {
    VLockupUpdate::V1(LockupUpdateV1 {
        locked_near_balance: locked,
        timestamp,
        lockup_update_nonce: nonce,
    })
}

/// Checks a call the way the contract does, then performs it.
fn lock(l: &mut LockupContract, amount: Option<u128>, deposit: u128, balance: u128, now: u64) -> Result<VLockupUpdate, LockupError> {
    l.check_lock_near(amount, deposit, balance)?;
    Ok(l.lock_near(amount, deposit, balance, now))
}

fn begin_unlock(l: &mut LockupContract, amount: Option<u128>, deposit: u128, now: u64) -> Result<VLockupUpdate, LockupError> {
    l.check_begin_unlock_near(amount, deposit)?;
    Ok(l.begin_unlock_near(amount, deposit, now))
}

fn end_unlock(l: &mut LockupContract, amount: Option<u128>, deposit: u128, now: u64) -> Result<VLockupUpdate, LockupError> {
    l.check_end_unlock_near(amount, deposit, now)?;
    Ok(l.end_unlock_near(amount, deposit, now))
}

fn lock_pending(l: &mut LockupContract, amount: Option<u128>, deposit: u128, now: u64) -> Result<VLockupUpdate, LockupError> {
    l.check_lock_pending_near(amount, deposit)?;
    Ok(l.lock_pending_near(amount, deposit, now))
}

#[test]
fn new_lockup_is_empty() {
    let l = lockup();
    assert_eq!(l.get_venear_locked_balance(), 0);
    assert_eq!(l.get_venear_pending_balance(), 0);
    assert_eq!(l.get_venear_unlock_timestamp(), 0);
    assert_eq!(l.get_lockup_update_nonce(), 0);
    assert_eq!(l.check_liquid_balance(10 * NEAR), Ok(()));
    assert_eq!(l.get_venear_liquid_balance(10 * NEAR), 10 * NEAR);
}

#[test]
fn checks_return_the_amount_moved() {
    let mut l = lockup();
    assert_eq!(l.check_lock_near(None, 1, 10 * NEAR), Ok(10 * NEAR));
    assert_eq!(l.check_lock_near(Some(3 * NEAR), 1, 10 * NEAR), Ok(3 * NEAR));
    l.lock_near(Some(3 * NEAR), 1, 10 * NEAR, NOW);
    assert_eq!(l.check_begin_unlock_near(None, 1), Ok(3 * NEAR));
    assert_eq!(l.check_lock_pending_near(None, 1), Ok(0));
    assert_eq!(l.check_end_unlock_near(None, 1, NOW), Ok(0));
}

#[test]
fn lock_near_locks_the_amount_and_reports() {
    let mut l = lockup();
    let r = lock(&mut l, Some(3 * NEAR), 1, 10 * NEAR, NOW);
    assert_eq!(r, Ok(update(3 * NEAR, NOW, 1)));
    assert_eq!(l.get_venear_locked_balance(), 3 * NEAR);
    assert_eq!(l.get_lockup_update_nonce(), 1);
    assert_eq!(l.get_venear_liquid_balance(10 * NEAR), 7 * NEAR);
}

#[test]
fn lock_near_without_amount_locks_all_liquid() {
    let mut l = lockup();
    assert!(lock(&mut l, Some(2 * NEAR), 1, 10 * NEAR, NOW).is_ok());
    let r = lock(&mut l, None, 1, 10 * NEAR, NOW + 1);
    assert_eq!(r, Ok(update(10 * NEAR, NOW + 1, 2)));
    assert_eq!(l.get_venear_liquid_balance(10 * NEAR), 0);
}

#[test]
fn lock_near_refusals() {
    let mut l = lockup();
    assert_eq!(l.check_lock_near(Some(NEAR), 0, 10 * NEAR), Err(LockupError::RequiresOneYocto));
    assert_eq!(l.check_lock_near(Some(NEAR), 2, 10 * NEAR), Err(LockupError::RequiresOneYocto));
    assert_eq!(l.check_lock_near(Some(11 * NEAR), 1, 10 * NEAR), Err(LockupError::InvalidAmount));
    assert!(lock(&mut l, Some(5 * NEAR), 1, 10 * NEAR, NOW).is_ok());
    // The account balance dropped below the locked balance.
    assert_eq!(l.check_lock_near(Some(0), 1, 4 * NEAR), Err(LockupError::IllegalBalance));
    assert_eq!(l.check_lock_near(None, 1, 4 * NEAR), Err(LockupError::IllegalBalance));
    assert_eq!(l.check_liquid_balance(4 * NEAR), Err(LockupError::IllegalBalance));
    assert_eq!(l.get_venear_locked_balance(), 5 * NEAR);
    assert_eq!(l.get_lockup_update_nonce(), 1);
}

#[test]
fn begin_unlock_moves_to_pending_and_sets_unlock_time() {
    let mut l = lockup();
    assert!(lock(&mut l, Some(6 * NEAR), 1, 10 * NEAR, NOW).is_ok());
    let r = begin_unlock(&mut l, Some(2 * NEAR), 1, NOW + 10);
    assert_eq!(r, Ok(update(4 * NEAR, NOW + 10, 2)));
    assert_eq!(l.get_venear_locked_balance(), 4 * NEAR);
    assert_eq!(l.get_venear_pending_balance(), 2 * NEAR);
    assert_eq!(l.get_venear_unlock_timestamp(), NOW + 10 + 7 * DAY_NS);
    assert_eq!(l.get_venear_liquid_balance(10 * NEAR), 4 * NEAR);
}

#[test]
fn begin_unlock_without_amount_unlocks_everything() {
    let mut l = lockup();
    assert!(lock(&mut l, Some(6 * NEAR), 1, 10 * NEAR, NOW).is_ok());
    assert_eq!(begin_unlock(&mut l, None, 1, NOW), Ok(update(0, NOW, 2)));
    assert_eq!(l.get_venear_pending_balance(), 6 * NEAR);
}

#[test]
fn begin_unlock_refusals() {
    let mut l = lockup();
    assert!(lock(&mut l, Some(6 * NEAR), 1, 10 * NEAR, NOW).is_ok());
    assert_eq!(begin_unlock(&mut l, Some(NEAR), 0, NOW), Err(LockupError::RequiresOneYocto));
    assert_eq!(begin_unlock(&mut l, Some(7 * NEAR), 1, NOW), Err(LockupError::InvalidAmount));
    assert_eq!(l.get_venear_locked_balance(), 6 * NEAR);
    assert_eq!(l.get_venear_unlock_timestamp(), 0);
    assert_eq!(l.get_lockup_update_nonce(), 1);
}

#[test]
fn begin_unlock_of_nothing_on_a_full_lock() {
    let mut l = lockup();
    l.venear_locked_balance = u128::MAX;
    l.venear_pending_balance = 1;
    assert_eq!(begin_unlock(&mut l, Some(0), 1, NOW), Ok(update(u128::MAX, NOW, 1)));
}

#[test]
fn end_unlock_waits_for_the_unlock_duration() {
    let mut l = lockup();
    assert!(lock(&mut l, Some(6 * NEAR), 1, 10 * NEAR, NOW).is_ok());
    assert!(begin_unlock(&mut l, Some(4 * NEAR), 1, NOW).is_ok());
    let unlock = NOW + 7 * DAY_NS;
    assert_eq!(end_unlock(&mut l, None, 1, unlock - 1), Err(LockupError::InvalidUnlockTime));
    assert_eq!(end_unlock(&mut l, Some(5 * NEAR), 1, unlock), Err(LockupError::InvalidAmount));
    assert_eq!(end_unlock(&mut l, Some(NEAR), 2, unlock), Err(LockupError::RequiresOneYocto));
    assert_eq!(l.get_venear_pending_balance(), 4 * NEAR);
    assert_eq!(end_unlock(&mut l, Some(NEAR), 1, unlock), Ok(update(2 * NEAR, unlock, 3)));
    assert_eq!(l.get_venear_pending_balance(), 3 * NEAR);
    assert_eq!(end_unlock(&mut l, None, 1, unlock + 5), Ok(update(2 * NEAR, unlock + 5, 4)));
    assert_eq!(l.get_venear_pending_balance(), 0);
    assert_eq!(l.get_venear_locked_balance(), 2 * NEAR);
}

#[test]
fn lock_pending_locks_again() {
    let mut l = lockup();
    assert!(lock(&mut l, Some(6 * NEAR), 1, 10 * NEAR, NOW).is_ok());
    assert!(begin_unlock(&mut l, Some(4 * NEAR), 1, NOW).is_ok());
    assert_eq!(lock_pending(&mut l, Some(5 * NEAR), 1, NOW), Err(LockupError::InvalidAmount));
    assert_eq!(lock_pending(&mut l, Some(NEAR), 0, NOW), Err(LockupError::RequiresOneYocto));
    assert_eq!(lock_pending(&mut l, Some(NEAR), 1, NOW + 1), Ok(update(3 * NEAR, NOW + 1, 3)));
    assert_eq!(lock_pending(&mut l, None, 1, NOW + 2), Ok(update(6 * NEAR, NOW + 2, 4)));
    assert_eq!(l.get_venear_pending_balance(), 0);
}

#[test]
fn unlock_then_relock_restores_balances() {
    let mut l = lockup();
    assert!(lock(&mut l, Some(6 * NEAR), 1, 10 * NEAR, NOW).is_ok());
    assert!(begin_unlock(&mut l, Some(2 * NEAR), 1, NOW).is_ok());
    let locked = l.get_venear_locked_balance();
    let pending = l.get_venear_pending_balance();
    let nonce = l.get_lockup_update_nonce();
    assert!(begin_unlock(&mut l, Some(NEAR), 1, NOW + 1).is_ok());
    assert!(lock_pending(&mut l, Some(NEAR), 1, NOW + 2).is_ok());
    assert_eq!(l.get_venear_locked_balance(), locked);
    assert_eq!(l.get_venear_pending_balance(), pending);
    assert_eq!(l.get_lockup_update_nonce(), nonce + 2);
}

#[test]
fn nonce_counts_accepted_calls_and_unlock_time_holds() {
    let mut l = lockup();
    assert!(lock(&mut l, Some(4 * NEAR), 1, 10 * NEAR, NOW).is_ok());
    assert!(begin_unlock(&mut l, Some(NEAR), 1, NOW).is_ok());
    let unlock = l.get_venear_unlock_timestamp();
    let mut accepted: u64 = 2;
    for step in 0..6u64 {
        let ok = match step % 3 {
            0 => lock(&mut l, Some(NEAR), 1, 10 * NEAR, NOW + step).is_ok(),
            1 => lock_pending(&mut l, Some(100 * NEAR), 1, NOW + step).is_ok(),
            _ => end_unlock(&mut l, Some(0), 1, NOW + step).is_ok(),
        };
        if ok {
            accepted += 1;
        }
        assert_eq!(l.get_lockup_update_nonce(), accepted);
        assert_eq!(l.get_venear_unlock_timestamp(), unlock);
    }
}
