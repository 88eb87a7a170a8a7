use murmur_api::store::{Error, Store};

#[test]
fn store_round_trip_returns_written_state() {
    let mut store = Store::init();
    let blob = vec![0u8, 1, 2, 254, 255];
    store.write("alice".to_string(), &blob).unwrap();
    let loaded = store.load(&"alice".to_string()).unwrap();
    assert_eq!(loaded, Some(blob));
}

#[test]
fn store_round_trip_empty_blob() {
    let mut store = Store::init();
    store.write("alice".to_string(), &Vec::new()).unwrap();
    assert_eq!(store.load(&"alice".to_string()).unwrap(), Some(Vec::new()));
}

#[test]
fn store_upsert_keeps_only_the_second_state() {
    let mut store = Store::init();
    store.write("alice".to_string(), &vec![1u8, 2, 3]).unwrap();
    store.write("alice".to_string(), &vec![7u8, 8]).unwrap();
    let loaded = store.load(&"alice".to_string()).unwrap();
    assert_eq!(loaded, Some(vec![7u8, 8]));
}

#[test]
fn store_keeps_users_apart() {
    let mut store = Store::init();
    store.write("alice".to_string(), &vec![1u8]).unwrap();
    store.write("bob".to_string(), &vec![2u8]).unwrap();
    store.write("alice".to_string(), &vec![3u8]).unwrap();
    assert_eq!(store.load(&"alice".to_string()).unwrap(), Some(vec![3u8]));
    assert_eq!(store.load(&"bob".to_string()).unwrap(), Some(vec![2u8]));
}

#[test]
fn store_load_missing_returns_none() {
    let store = Store::init();
    assert_eq!(store.load(&"nobody".to_string()).unwrap(), None);
    let mut store = Store::init();
    store.write("alice".to_string(), &vec![1u8]).unwrap();
    assert_eq!(store.load(&"bob".to_string()).unwrap(), None);
}

#[test]
fn store_error_messages() {
    assert_eq!(Error::Db.message(), "Db error");
    assert_eq!(Error::Hex.message(), "Hex error");
    assert_eq!(Error::Codec.message(), "Codec error");
}
