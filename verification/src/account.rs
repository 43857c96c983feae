//! Account records of the veNEAR contract and the paging of account listings.
use crate::lockup::Version;
use crate::lockup_types::Balance;
use vstd::prelude::*;

verus! {

/// Internal account information.
#[derive(Clone, Copy, Debug, PartialEq, Eq, Structural)]
pub struct AccountInternal {
    /// The version of the lockup contract deployed. None means the lockup is not deployed.
    pub lockup_version: Option<Version>,
    /// The amount of NEAR tokens that are retained for the storage of the account.
    pub deposit: Balance,
    /// The nonce of the last lockup update.
    pub lockup_update_nonce: u64,
}

/// A versioned account record.
#[derive(Clone, Copy, Debug, PartialEq, Eq, Structural)]
pub enum VAccountInternal {
    Current(AccountInternal),
}

impl From<AccountInternal> for VAccountInternal {
    fn from(account: AccountInternal) -> (r: Self) {
        VAccountInternal::Current(account)
    }
}

impl vstd::std_specs::convert::FromSpecImpl<AccountInternal> for VAccountInternal {
    open spec fn obeys_from_spec() -> bool {
        true
    }

    open spec fn from_spec(account: AccountInternal) -> VAccountInternal {
        VAccountInternal::Current(account)
    }
}

impl From<VAccountInternal> for AccountInternal {
    fn from(value: VAccountInternal) -> (r: Self) {
        match value {
            VAccountInternal::Current(account) => account,
        }
    }
}

impl vstd::std_specs::convert::FromSpecImpl<VAccountInternal> for AccountInternal {
    open spec fn obeys_from_spec() -> bool {
        true
    }

    open spec fn from_spec(value: VAccountInternal) -> AccountInternal {
        match value {
            VAccountInternal::Current(account) => account,
        }
    }
}

/// Why an account operation was refused.
#[derive(Clone, Copy, Debug, PartialEq, Eq, Structural)]
pub enum AccountError {
    /// The account already has a record.
    AlreadyRegistered,
}

/// Wrapping a record in its version and unwrapping it again gives the record back,
/// and so does the other way round.
pub proof fn lemma_versioned_round_trip(account: AccountInternal, value: VAccountInternal)
    ensures
        <AccountInternal as vstd::std_specs::convert::FromSpec<VAccountInternal>>::from_spec(
            <VAccountInternal as vstd::std_specs::convert::FromSpec<AccountInternal>>::from_spec(account),
        ) == account,
        <VAccountInternal as vstd::std_specs::convert::FromSpec<AccountInternal>>::from_spec(
            <AccountInternal as vstd::std_specs::convert::FromSpec<VAccountInternal>>::from_spec(value),
        ) == value,
{
}

impl AccountInternal {
    /// The record of a newly registered account: no lockup deployed, `deposit` kept
    /// for storage, and no lockup update seen yet.
    pub fn new(deposit: Balance) -> (r: AccountInternal)
        ensures
            r == (AccountInternal { lockup_version: None, deposit, lockup_update_nonce: 0 }),
    {
        AccountInternal { lockup_version: None, deposit, lockup_update_nonce: 0 }
    }

    /// The refusal of a registration, given the record already stored for the
    /// account, if any: registering twice is refused.
    pub fn check_register(existing: &Option<AccountInternal>) -> (r: Result<(), AccountError>)
        ensures
            r == (if existing is Some {
                Err::<(), AccountError>(AccountError::AlreadyRegistered)
            } else {
                Ok(())
            }),
    {
        match existing {
            Some(_) => Err(AccountError::AlreadyRegistered),
            None => Ok(()),
        }
    }

    /// The record to store when an account registers with `deposit`.
    /// Only for an account without a record, as `check_register` checks.
    pub fn register(existing: &Option<AccountInternal>, deposit: Balance) -> (r: AccountInternal)
        requires
            existing is None,
        ensures
            r == (AccountInternal { lockup_version: None, deposit, lockup_update_nonce: 0 }),
    {
        AccountInternal::new(deposit)
    }
}

/// The start of an account listing: `from_index`, or the first account.
pub open spec fn spec_page_start(from_index: Option<u32>) -> int {
    match from_index {
        Some(i) => i as int,
        None => 0,
    }
}

/// The end (exclusive) of an account listing: `limit` accounts after the start, or
/// all of them where no limit is given, but never past the last account.
pub open spec fn spec_page_end(from_index: Option<u32>, limit: Option<u32>, num_accounts: u32) -> int {
    let limit = match limit {
        Some(l) => l as int,
        None => u32::MAX as int,
    };
    let end = spec_page_start(from_index) + limit;
    let end = if end > u32::MAX { u32::MAX as int } else { end };
    if end < num_accounts { end } else { num_accounts as int }
}

/// The indices of the accounts that a listing from `from_index` with at most `limit`
/// accounts covers, out of `num_accounts`: the range from the first to the second
/// number. The range is empty where the start is past the end.
pub fn accounts_page(from_index: Option<u32>, limit: Option<u32>, num_accounts: u32) -> (r: (u32, u32))
    ensures
        r.0 == spec_page_start(from_index),
        r.1 == spec_page_end(from_index, limit, num_accounts),
        r.0 == match from_index {
            Some(i) => i,
            None => 0,
        },
        r.1 <= num_accounts,
        r.1 as int == num_accounts || r.1 as int == u32::MAX || r.1 as int == r.0 + match limit {
            Some(l) => l as int,
            None => u32::MAX as int,
        },
        r.1 as int <= r.0 + match limit {
            Some(l) => l as int,
            None => u32::MAX as int,
        },
        r.1 < num_accounts ==> r.1 as int == r.0 + match limit {
            Some(l) => l as int,
            None => u32::MAX as int,
        } || r.1 == u32::MAX,
{
    let from_index: u32 = match from_index {
        Some(i) => i,
        None => 0,
    };
    let limit: u32 = match limit {
        Some(l) => l,
        None => u32::MAX,
    };
    let end = from_index.saturating_add(limit);
    let to_index = if end < num_accounts {
        end
    } else {
        num_accounts
    };
    (from_index, to_index)
}

/// A listing never goes past the last account nor holds more accounts than its
/// limit, and a listing that starts at an existing account and has room for one
/// holds at least that one.
pub proof fn lemma_page_bounds(from_index: Option<u32>, limit: Option<u32>, num_accounts: u32)
    ensures
        spec_page_end(from_index, limit, num_accounts) <= num_accounts,
        limit matches Some(l) ==> spec_page_end(from_index, limit, num_accounts)
            - spec_page_start(from_index) <= l,
        (spec_page_start(from_index) < num_accounts && (limit matches Some(l) ==> l > 0))
            ==> spec_page_start(from_index) < spec_page_end(from_index, limit, num_accounts),
{
}

/// Consecutive listings cover the accounts without gaps or overlaps: the listing
/// that starts where a full listing ended continues it.
pub proof fn lemma_pages_are_consecutive(from_index: u32, limit: u32, num_accounts: u32)
    requires
        from_index + limit <= u32::MAX,
    ensures
        spec_page_end(Some(from_index), Some(limit), num_accounts) == if from_index + limit
            < num_accounts {
            from_index + limit
        } else {
            num_accounts as int
        },
        from_index + limit <= num_accounts ==> spec_page_start(
            Some((from_index + limit) as u32),
        ) == spec_page_end(Some(from_index), Some(limit), num_accounts),
{
}

} // verus!
