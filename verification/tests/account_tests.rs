use venear::account::{accounts_page, AccountError, AccountInternal, VAccountInternal};

#[test]
fn new_account_record() {
    let a = AccountInternal::new(125);
    assert_eq!(a, AccountInternal { lockup_version: None, deposit: 125, lockup_update_nonce: 0 });
}

#[test]
fn versioned_record_round_trip() {
    let a = AccountInternal { lockup_version: Some(3), deposit: 7, lockup_update_nonce: 9 };
    let v: VAccountInternal = a.into();
    assert_eq!(v, VAccountInternal::Current(a));
    let back: AccountInternal = v.into();
    assert_eq!(back, a);
}

#[test]
fn page_defaults_cover_everything() {
    assert_eq!(accounts_page(None, None, 10), (0, 10));
    assert_eq!(accounts_page(None, None, 0), (0, 0));
}

#[test]
fn page_with_limit_and_start() {
    assert_eq!(accounts_page(Some(3), Some(4), 10), (3, 7));
    assert_eq!(accounts_page(Some(8), Some(4), 10), (8, 10));
    assert_eq!(accounts_page(Some(12), Some(4), 10), (12, 10));
    assert_eq!(accounts_page(Some(3), Some(0), 10), (3, 3));
}

#[test]
fn page_end_saturates() {
    assert_eq!(accounts_page(Some(u32::MAX - 1), None, u32::MAX), (u32::MAX - 1, u32::MAX));
    assert_eq!(accounts_page(Some(5), Some(u32::MAX), 100), (5, 100));
}

#[test]
fn consecutive_pages_cover_all() {
    let n: u32 = 23;
    let mut covered: Vec<u32> = Vec::new();
    let mut from: u32 = 0;
    loop {
        let (start, end) = accounts_page(Some(from), Some(5), n);
        if start >= end {
            break;
        }
        for i in start..end {
            covered.push(i);
        }
        from = end;
    }
    assert_eq!(covered, (0..n).collect::<Vec<u32>>());
}

#[test]
fn registering_twice_is_refused() {
    assert_eq!(AccountInternal::check_register(&None), Ok(()));
    let first = AccountInternal::register(&None, 50);
    assert_eq!(first, AccountInternal { lockup_version: None, deposit: 50, lockup_update_nonce: 0 });
    assert_eq!(AccountInternal::check_register(&Some(first)), Err(AccountError::AlreadyRegistered));
}
