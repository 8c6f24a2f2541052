use account_provider::AccountProvider;
use account_provider::Address;
use account_provider::Error;
use account_provider::assoc::AddrMap;
use account_provider::store::SSError;

#[test]
fn insert_account_derives_address_from_secret() {
    let mut ap = AccountProvider::transient_provider();
    let mut secret = [0u8; 32];
    let mut i: usize = 0;
    while i < 32 {
        secret[i] = i as u8;
        i += 1;
    }
    let address = ap.insert_account(secret, "pw").unwrap();
    assert_eq!(&address.0[..], &secret[..20]);
    // inserting does not unlock
    assert!(!ap.is_unlocked(&address));
    assert_eq!(ap.sign(&address, [0u8; 32]).unwrap_err(), Error::NotUnlocked);
}

#[test]
fn new_account_is_listed_and_locked() {
    let mut ap = AccountProvider::transient_provider();
    let address = ap.new_account("fresh").unwrap();
    let listed = ap.accounts().unwrap();
    assert!(listed.iter().any(|a| *a == address));
    assert!(!ap.is_unlocked(&address));
    assert!(ap.sign_with_password(&address, "fresh".into(), [0u8; 32]).is_ok());
}

#[test]
fn account_meta_defaults() {
    let mut ap = AccountProvider::transient_provider();
    let address = ap.insert_account([21u8; 32], "pw").unwrap();
    let meta = ap.account_meta(&address).unwrap();
    assert_eq!(meta.name, "");
    assert_eq!(meta.meta, "{}");
    assert!(meta.uuid.is_none());
}

#[test]
fn set_name_and_meta_round_trip() {
    let mut ap = AccountProvider::transient_provider();
    let address = ap.insert_account([22u8; 32], "pw").unwrap();
    assert!(ap.set_account_name(&address, "savings".into()).is_ok());
    assert!(ap.set_account_meta(&address, "{\"tag\":1}".into()).is_ok());
    let meta = ap.account_meta(&address).unwrap();
    assert_eq!(meta.name, "savings");
    assert_eq!(meta.meta, "{\"tag\":1}");
}

#[test]
fn metadata_of_unknown_account_fails() {
    let mut ap = AccountProvider::transient_provider();
    let stranger = Address([1u8; 20]);
    assert_eq!(
        ap.account_meta(&stranger).unwrap_err(),
        Error::SStore(SSError::InvalidAccount)
    );
    assert_eq!(
        ap.set_account_name(&stranger, "x".into()).unwrap_err(),
        Error::SStore(SSError::InvalidAccount)
    );
    assert_eq!(
        ap.set_account_meta(&stranger, "y".into()).unwrap_err(),
        Error::SStore(SSError::InvalidAccount)
    );
}

#[test]
fn accounts_info_covers_every_account() {
    let mut ap = AccountProvider::transient_provider();
    let first = ap.insert_account([23u8; 32], "pw1").unwrap();
    let second = ap.insert_account([24u8; 32], "pw2").unwrap();
    assert!(ap.set_account_name(&first, "hot".into()).is_ok());
    let info = ap.accounts_info().unwrap();
    let first_meta = info.get(&first).unwrap();
    assert_eq!(first_meta.name, "hot");
    let second_meta = info.get(&second).unwrap();
    assert_eq!(second_meta.name, "");
    assert_eq!(second_meta.meta, "{}");
    assert!(info.get(&Address([5u8; 20])).is_none());
}

#[test]
fn accounts_lists_each_address_once() {
    let mut ap = AccountProvider::transient_provider();
    let first = ap.insert_account([25u8; 32], "pw").unwrap();
    // the same key material lands on the same address, not a second entry
    let again = ap.insert_account([25u8; 32], "pw2").unwrap();
    assert!(first == again);
    let second = ap.insert_account([26u8; 32], "pw").unwrap();
    let listed = ap.accounts().unwrap();
    assert_eq!(listed.len(), 2);
    assert!(listed.iter().any(|a| *a == first));
    assert!(listed.iter().any(|a| *a == second));
}

#[test]
fn provider_over_prepared_store() {
    let mut store = account_provider::store::SecretStore::empty();
    let address = store.insert_account([28u8; 32], "pw").unwrap();
    let sig = store.sign(&address, "pw", [6u8; 32]).unwrap();
    assert!(sig.signer == address);
    let mut ap = AccountProvider::new(store);
    assert!(ap.unlock_account_temporarily(&address, "pw".into()).is_ok());
    assert!(ap.sign(&address, [0u8; 32]).is_ok());
}

#[test]
fn miner_status_reports_counts() {
    let status = account_provider::miner::MinerStatus {
        transactions_in_pending_queue: 3,
        transactions_in_future_queue: 1,
        transactions_in_pending_block: 2,
    };
    assert_eq!(status.transactions_in_pending_queue, 3);
    assert_eq!(status.transactions_in_future_queue, 1);
    assert_eq!(status.transactions_in_pending_block, 2);
}

#[test]
fn addr_map_insert_get_remove() {
    let mut m: AddrMap<u32> = AddrMap::new();
    let a = Address([2u8; 20]);
    let b = Address([3u8; 20]);
    assert!(!m.contains(&a));
    m.insert(a, 10);
    m.insert(b, 20);
    m.insert(a, 30);
    assert_eq!(m.get(&a), Some(&30));
    assert_eq!(m.get(&b), Some(&20));
    assert_eq!(m.keys().len(), 2);
    m.remove(&a);
    assert!(m.get(&a).is_none());
    assert!(m.contains(&b));
}
