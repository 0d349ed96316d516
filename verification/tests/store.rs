use cosmwasm_std::testing::MockApi;
use cosmwasm_std::MemoryStorage;
use cosmwasm_std::Storage;
use my_nameservice::gate::assert_owner;
use my_nameservice::gate::initialize_owner;
use my_nameservice::gate::NotOwner;
use my_nameservice::state::has;
use my_nameservice::state::load;
use my_nameservice::state::may_load;
use my_nameservice::state::save;
use my_nameservice::state::NameRecord;
use my_nameservice::state::NAME_RESOLVER;

fn record(owner: &str) -> NameRecord {
    NameRecord {
        owner: owner.to_owned(),
    }
}

#[test]
fn fresh_storage_has_no_name() {
    let storage = MemoryStorage::new();
    assert!(!has(&storage, b"alice"));
    assert_eq!(may_load(&storage, b"alice"), Ok(None));
    assert!(load(&storage, b"alice").is_err());
}

#[test]
fn saved_record_is_found_and_loaded() {
    let mut storage = MemoryStorage::new();
    assert_eq!(save(&mut storage, b"alice", &record("O")), Ok(()));
    assert!(has(&storage, b"alice"));
    assert_eq!(may_load(&storage, b"alice"), Ok(Some(record("O"))));
    assert_eq!(load(&storage, b"alice"), Ok(record("O")));
}

#[test]
fn save_touches_one_name_only() {
    let mut storage = MemoryStorage::new();
    save(&mut storage, b"alice", &record("O")).unwrap();
    save(&mut storage, b"bob", &record("P")).unwrap();
    assert_eq!(load(&storage, b"alice"), Ok(record("O")));
    assert_eq!(load(&storage, b"bob"), Ok(record("P")));
    assert!(!has(&storage, b"ali"));
    assert!(!has(&storage, b"alicebob"));
    assert_eq!(may_load(&storage, b""), Ok(None));
}

#[test]
fn save_replaces_the_record_under_the_name() {
    let mut storage = MemoryStorage::new();
    save(&mut storage, b"alice", &record("O")).unwrap();
    save(&mut storage, b"alice", &record("X")).unwrap();
    assert_eq!(load(&storage, b"alice"), Ok(record("X")));
}

#[test]
fn keys_are_raw_bytes() {
    let mut storage = MemoryStorage::new();
    let key: [u8; 4] = [0, 255, 34, 92];
    save(&mut storage, &key, &record("O")).unwrap();
    assert!(has(&storage, &key));
    assert!(!has(&storage, &[0, 255, 34]));
    assert_eq!(load(&storage, &key), Ok(record("O")));
}

#[test]
fn record_is_kept_under_the_namespace_as_a_json_text() {
    let mut storage = MemoryStorage::new();
    save(&mut storage, b"alice", &record("O")).unwrap();
    assert_eq!(NAME_RESOLVER, "name_resolver");
    assert_eq!(
        storage.get(b"\0\x0dname_resolveralice"),
        Some(b"\"O\"".to_vec())
    );
    assert_eq!(storage.get(b"alice"), None);
}

#[test]
fn unreadable_data_is_found_but_not_loaded() {
    let mut storage = MemoryStorage::new();
    storage.set(b"\0\x0dname_resolveralice", b"17");
    assert!(has(&storage, b"alice"));
    assert!(may_load(&storage, b"alice").is_err());
    assert!(load(&storage, b"alice").is_err());
}

#[test]
fn gate_of_a_fresh_storage_lets_nobody_pass() {
    let storage = MemoryStorage::new();
    let minter = MockApi::default().addr_make("minter").to_string();
    assert_eq!(assert_owner(&storage, &minter), Err(NotOwner));
    assert_eq!(assert_owner(&storage, ""), Err(NotOwner));
}

#[test]
fn initialized_gate_lets_its_identity_pass_and_nobody_else() {
    let mut storage = MemoryStorage::new();
    let api = MockApi::default();
    let minter = api.addr_make("minter").to_string();
    let other = api.addr_make("other").to_string();
    assert_eq!(initialize_owner(&mut storage, &minter), Ok(()));
    assert_eq!(assert_owner(&storage, &minter), Ok(()));
    assert_eq!(assert_owner(&storage, &other), Err(NotOwner));
    assert_eq!(assert_owner(&storage, "minter"), Err(NotOwner));
    assert_eq!(assert_owner(&storage, &minter.to_uppercase()), Err(NotOwner));
}

#[test]
fn gate_refuses_a_candidate_that_is_no_address() {
    let mut storage = MemoryStorage::new();
    assert!(initialize_owner(&mut storage, "minter").is_err());
    assert_eq!(assert_owner(&storage, "minter"), Err(NotOwner));
    assert_eq!(format!("{storage:?}"), format!("{:?}", MemoryStorage::new()));
}

#[test]
fn gate_and_names_do_not_touch_each_other() {
    let mut storage = MemoryStorage::new();
    let api = MockApi::default();
    let minter = api.addr_make("minter").to_string();
    save(&mut storage, b"alice", &record("O")).unwrap();
    initialize_owner(&mut storage, &minter).unwrap();
    assert_eq!(load(&storage, b"alice"), Ok(record("O")));
    save(&mut storage, b"collection_minter", &record("P")).unwrap();
    save(&mut storage, b"bob", &record("Q")).unwrap();
    assert_eq!(assert_owner(&storage, &minter), Ok(()));
    assert_eq!(assert_owner(&storage, "P"), Err(NotOwner));
}
