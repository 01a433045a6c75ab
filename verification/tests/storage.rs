use blogchain::types::hash_eq;
use blogchain::{ensure_signed, Error, Origin, StorageMap};

fn key(first: u8, last: u8) -> [u8; 32] {
    let mut k = [0u8; 32];
    k[0] = first;
    k[31] = last;
    k
}

#[test]
fn hash_eq_compares_every_byte() {
    assert!(hash_eq(&key(1, 2), &key(1, 2)));
    assert!(!hash_eq(&key(1, 2), &key(1, 3)));
    assert!(!hash_eq(&key(1, 2), &key(0, 2)));
    let mut middle = key(1, 2);
    middle[17] = 9;
    assert!(!hash_eq(&key(1, 2), &middle));
}

#[test]
fn ensure_signed_accepts_only_signed_origins() {
    assert_eq!(ensure_signed(Origin::Signed(12)), Ok(12));
    assert_eq!(ensure_signed(Origin::Root), Err(Error::BadOrigin));
    assert_eq!(ensure_signed(Origin::Unsigned), Err(Error::BadOrigin));
}

#[test]
fn store_inserts_and_overwrites() {
    let mut store: StorageMap<u32> = StorageMap::new();
    assert_eq!(store.get(&key(1, 1)), None);

    store.insert(key(1, 1), 10);
    store.insert(key(1, 2), 20);
    assert_eq!(store.get(&key(1, 1)), Some(&10));
    assert_eq!(store.get(&key(1, 2)), Some(&20));
    assert_eq!(store.get(&key(2, 1)), None);

    store.insert(key(1, 1), 11);
    assert_eq!(store.get(&key(1, 1)), Some(&11));
    assert_eq!(store.get(&key(1, 2)), Some(&20));
}

#[test]
fn store_takes_what_it_holds() {
    let mut store: StorageMap<u32> = StorageMap::new();
    store.insert(key(1, 1), 10);
    store.insert(key(1, 2), 20);
    store.insert(key(1, 3), 30);

    assert_eq!(store.take(&key(9, 9)), None);
    assert_eq!(store.take(&key(1, 2)), Some(20));
    assert_eq!(store.take(&key(1, 2)), None);
    assert_eq!(store.get(&key(1, 2)), None);
    assert_eq!(store.get(&key(1, 1)), Some(&10));
    assert_eq!(store.get(&key(1, 3)), Some(&30));
}
