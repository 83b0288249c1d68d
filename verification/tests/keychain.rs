use in_page_provider::error::Error;
use in_page_provider::keychain::{soft_delete_rename, InMemoryKeychain, KeyEncryptionKey};

fn key(name: &str, material: &[u8]) -> KeyEncryptionKey {
    KeyEncryptionKey { name: name.into(), key_material: material.to_vec() }
}

fn name_taken() -> Error {
    Error::Fatal { error: "A keychain item by this name already exists".into() }
}

#[test]
fn new_keychain_is_empty() {
    let keychain = InMemoryKeychain::new();
    assert_eq!(keychain.len(), 0);
    assert_eq!(
        keychain.get("a").map(|found| found.key_material),
        Err(Error::Fatal { error: "Key 'a' not found".into() })
    );
}

#[test]
fn put_then_get() {
    let mut keychain = InMemoryKeychain::new();
    assert_eq!(keychain.put_local_unlocked(key("a", &[1, 2, 3])), Ok(()));
    assert_eq!(keychain.put_local_unlocked(key("b", &[4])), Ok(()));
    let found = keychain.get("a").unwrap();
    assert_eq!(found.name, "a");
    assert_eq!(found.key_material, vec![1, 2, 3]);
    assert_eq!(keychain.get("b").unwrap().key_material, vec![4]);
    assert_eq!(keychain.len(), 2);
}

#[test]
fn put_does_not_overwrite() {
    let mut keychain = InMemoryKeychain::new();
    keychain.put_local_unlocked(key("a", &[1])).unwrap();
    assert_eq!(keychain.put_local_unlocked(key("a", &[2])), Err(name_taken()));
    assert_eq!(keychain.get("a").unwrap().key_material, vec![1]);
    assert_eq!(keychain.len(), 1);
}

#[test]
fn soft_delete_renames() {
    let mut keychain = InMemoryKeychain::new();
    keychain.put_local_unlocked(key("a", &[1])).unwrap();
    keychain.put_local_unlocked(key("b", &[2])).unwrap();
    assert_eq!(keychain.soft_delete("a"), Ok(()));
    assert!(keychain.get("a").is_err());
    assert_eq!(soft_delete_rename("a"), "soft-deleted-a");
    assert_eq!(keychain.get("soft-deleted-a").unwrap().key_material, vec![1]);
    assert_eq!(keychain.get("b").unwrap().key_material, vec![2]);
    assert_eq!(keychain.len(), 2);
    // The name is free again.
    assert_eq!(keychain.put_local_unlocked(key("a", &[3])), Ok(()));
    // A second key of the name cannot be deleted into the same place.
    assert_eq!(keychain.soft_delete("a"), Err(name_taken()));
    assert_eq!(keychain.get("a").unwrap().key_material, vec![3]);
    assert_eq!(keychain.get("soft-deleted-a").unwrap().key_material, vec![1]);
    assert_eq!(keychain.len(), 3);
}

#[test]
fn soft_delete_of_a_missing_key_fails() {
    let mut keychain = InMemoryKeychain::new();
    keychain.put_local_unlocked(key("a", &[1])).unwrap();
    assert_eq!(keychain.soft_delete("b"), Err(Error::Fatal { error: "Key 'b' not found".into() }));
    assert_eq!(keychain.len(), 1);
    assert_eq!(keychain.get("a").unwrap().key_material, vec![1]);
}
