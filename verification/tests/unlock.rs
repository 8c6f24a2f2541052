use account_provider::AccountProvider;
use account_provider::Error;
use account_provider::store::SSError;

#[test]
fn unlock_account_temp() {
    let mut ap = AccountProvider::transient_provider();
    let r = ap.insert_account([11u8; 32], "test");
    assert!(r.is_ok());
    let address = r.unwrap();
    assert!(ap.unlock_account_temporarily(&address, "test1".into()).is_err());
    assert!(ap.unlock_account_temporarily(&address, "test".into()).is_ok());
    assert!(ap.sign(&address, [0u8; 32]).is_ok());
    assert!(ap.sign(&address, [0u8; 32]).is_err());
}

#[test]
fn unlock_account_perm() {
    let mut ap = AccountProvider::transient_provider();
    let r = ap.insert_account([12u8; 32], "test");
    assert!(r.is_ok());
    let address = r.unwrap();
    assert!(ap.unlock_account_permanently(&address, "test1".into()).is_err());
    assert!(ap.unlock_account_permanently(&address, "test".into()).is_ok());
    assert!(ap.sign(&address, [0u8; 32]).is_ok());
    assert!(ap.sign(&address, [0u8; 32]).is_ok());
    assert!(ap.unlock_account_temporarily(&address, "test".into()).is_ok());
    assert!(ap.sign(&address, [0u8; 32]).is_ok());
    assert!(ap.sign(&address, [0u8; 32]).is_ok());
}

#[test]
fn unlock_account_timer() {
    let mut ap = AccountProvider::transient_provider();
    let r = ap.insert_account([13u8; 32], "test");
    assert!(r.is_ok());
    let address = r.unwrap();
    assert!(ap.unlock_account_timed_at(&address, "test1".into(), 2000, 0).is_err());
    assert!(ap.unlock_account_timed_at(&address, "test".into(), 2000, 0).is_ok());
    assert!(ap.sign_at(&address, [0u8; 32], 100).is_ok());
    assert!(ap.sign_at(&address, [0u8; 32], 2001).is_err());
}

#[test]
fn timed_window_boundary() {
    let mut ap = AccountProvider::transient_provider();
    let address = ap.insert_account([14u8; 32], "test").unwrap();
    assert!(ap.unlock_account_timed_at(&address, "test".into(), 2000, 100).is_ok());
    // exactly at the deadline the capability is still live
    assert!(ap.sign_at(&address, [7u8; 32], 2100).is_ok());
    assert!(ap.is_unlocked(&address));
    // one tick past the deadline the attempt fails and evicts the record
    let late = ap.sign_at(&address, [7u8; 32], 2101);
    assert_eq!(late.unwrap_err(), Error::NotUnlocked);
    assert!(!ap.is_unlocked(&address));
}

#[test]
fn is_unlocked_reports_lazily() {
    let mut ap = AccountProvider::transient_provider();
    let address = ap.insert_account([15u8; 32], "test").unwrap();
    assert!(ap.unlock_account_timed_at(&address, "test".into(), 5, 0).is_ok());
    // long past the deadline, no sign attempt has evicted the record yet
    assert!(ap.is_unlocked(&address));
    assert!(ap.sign_at(&address, [0u8; 32], 1_000_000).is_err());
    assert!(!ap.is_unlocked(&address));
}

#[test]
fn wrong_password_creates_no_entry() {
    let mut ap = AccountProvider::transient_provider();
    let address = ap.insert_account([16u8; 32], "test").unwrap();
    assert_eq!(
        ap.unlock_account_temporarily(&address, "bad".into()).unwrap_err(),
        Error::SStore(SSError::InvalidPassword)
    );
    assert!(!ap.is_unlocked(&address));
    assert_eq!(ap.sign(&address, [0u8; 32]).unwrap_err(), Error::NotUnlocked);
}

#[test]
fn permanent_unlock_not_downgraded() {
    let mut ap = AccountProvider::transient_provider();
    let address = ap.insert_account([17u8; 32], "test").unwrap();
    assert!(ap.unlock_account_permanently(&address, "test".into()).is_ok());
    // weaker requests leave the permanent record in place
    assert!(ap.unlock_account_temporarily(&address, "test".into()).is_ok());
    assert!(ap.sign(&address, [1u8; 32]).is_ok());
    assert!(ap.sign(&address, [1u8; 32]).is_ok());
    assert!(ap.unlock_account_timed_at(&address, "test".into(), 1, 0).is_ok());
    // far past where the timed window would have closed
    assert!(ap.sign_at(&address, [1u8; 32], 1_000_000).is_ok());
    assert!(ap.is_unlocked(&address));
}

#[test]
fn temp_unlock_one_success_among_many_signs() {
    let mut ap = AccountProvider::transient_provider();
    let address = ap.insert_account([18u8; 32], "test").unwrap();
    assert!(ap.unlock_account_temporarily(&address, "test".into()).is_ok());
    let mut successes: u32 = 0;
    let mut locked: u32 = 0;
    for _ in 0..5 {
        match ap.sign(&address, [2u8; 32]) {
            Ok(_) => successes += 1,
            Err(e) => {
                assert_eq!(e, Error::NotUnlocked);
                locked += 1;
            }
        }
    }
    assert_eq!(successes, 1);
    assert_eq!(locked, 4);
}

#[test]
fn sign_returns_signature_over_message() {
    let mut ap = AccountProvider::transient_provider();
    let address = ap.insert_account([19u8; 32], "test").unwrap();
    assert!(ap.unlock_account_permanently(&address, "test".into()).is_ok());
    let message = [42u8; 32];
    let sig = ap.sign(&address, message).unwrap();
    assert!(sig.signer == address);
    assert_eq!(sig.message, message);
}

#[test]
fn sign_with_password_bypasses_table() {
    let mut ap = AccountProvider::transient_provider();
    let address = ap.insert_account([20u8; 32], "test").unwrap();
    let sig = ap.sign_with_password(&address, "test".into(), [3u8; 32]);
    assert!(sig.is_ok());
    // no unlock record was created or consumed
    assert!(!ap.is_unlocked(&address));
    assert_eq!(
        ap.sign_with_password(&address, "bad".into(), [3u8; 32]).unwrap_err(),
        Error::SStore(SSError::InvalidPassword)
    );
}

#[test]
fn unknown_account_store_error() {
    let ap = AccountProvider::transient_provider();
    let stranger = account_provider::Address([9u8; 20]);
    assert_eq!(
        ap.sign_with_password(&stranger, "test".into(), [0u8; 32]).unwrap_err(),
        Error::SStore(SSError::InvalidAccount)
    );
}

#[test]
fn repeated_unlock_is_idempotent() {
    let mut ap = AccountProvider::transient_provider();
    let address = ap.insert_account([27u8; 32], "test").unwrap();
    assert!(ap.unlock_account_temporarily(&address, "test".into()).is_ok());
    assert!(ap.unlock_account_temporarily(&address, "test".into()).is_ok());
    // two identical requests granted one capability, not two
    assert!(ap.sign(&address, [0u8; 32]).is_ok());
    assert_eq!(ap.sign(&address, [0u8; 32]).unwrap_err(), Error::NotUnlocked);
}

#[test]
fn error_messages() {
    assert_eq!(Error::NotUnlocked.message(), "Account is locked");
    assert_eq!(Error::SStore(SSError::InvalidAccount).message(), "Invalid account");
    assert_eq!(Error::SStore(SSError::InvalidPassword).message(), "Invalid password");
}
