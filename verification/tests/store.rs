use linkstore::db::Store;
use linkstore::db::StoreError;
use linkstore::db::connect;
use linkstore::db::create_file;
use linkstore::db::create_link;
use linkstore::db::delete_file;
use linkstore::db::delete_link;
use linkstore::db::fix_tables;
use linkstore::db::get_file_by_name;
use linkstore::db::get_file_data;
use linkstore::db::get_link_by_name;
use linkstore::db::update_file;
use linkstore::db::update_link;

fn fresh_store() -> Store {
    connect(Some(":memory:")).expect("in-memory store should open")
}

#[test]
fn second_create_conflicts_and_keeps_first_target() {
    let mut store = fresh_store();
    create_link(&mut store, "http://one".to_string(), "n".to_string()).unwrap();
    let second = create_link(&mut store, "http://two".to_string(), "n".to_string());
    assert!(matches!(second, Err(StoreError::Conflict)));
    let link = get_link_by_name(&store, "n".to_string()).unwrap().unwrap();
    assert_eq!(link.target, "http://one");
}

#[test]
fn create_then_get_round_trip() {
    let mut store = fresh_store();
    let created = create_link(&mut store, "http://t".to_string(), "name".to_string()).unwrap();
    let read = get_link_by_name(&store, "name".to_string()).unwrap().unwrap();
    assert_eq!(read.target, "http://t");
    assert_eq!(read.id, created.id);
    assert_eq!(read.name, "name");
    let again = get_link_by_name(&store, "name".to_string()).unwrap().unwrap();
    assert_eq!(again.id, created.id);
}

#[test]
fn update_reflects_in_handle_and_fresh_read() {
    let mut store = fresh_store();
    create_link(&mut store, "http://old".to_string(), "u".to_string()).unwrap();
    let mut handle = get_link_by_name(&store, "u".to_string()).unwrap().unwrap();
    update_link(&mut store, &mut handle, "http://new".to_string()).unwrap();
    assert_eq!(handle.target, "http://new");
    let read = get_link_by_name(&store, "u".to_string()).unwrap().unwrap();
    assert_eq!(read.target, "http://new");
    assert_eq!(read.id, handle.id);
}

#[test]
fn delete_twice_succeeds_and_name_is_gone() {
    let mut store = fresh_store();
    create_link(&mut store, "http://t".to_string(), "d".to_string()).unwrap();
    let handle = get_link_by_name(&store, "d".to_string()).unwrap().unwrap();
    delete_link(&mut store, &handle).unwrap();
    delete_link(&mut store, &handle).unwrap();
    assert!(get_link_by_name(&store, "d".to_string()).unwrap().is_none());
}

#[test]
fn blob_round_trip() {
    let mut store = fresh_store();
    let bytes = vec![0u8, 1, 2, 3, 255, 254, 0];
    create_file(&mut store, "blob".to_string(), bytes.clone()).unwrap();
    let handle = get_file_by_name(&store, "blob".to_string()).unwrap().unwrap();
    assert!(handle.data.is_none());
    let data = get_file_data(&store, &handle).unwrap().unwrap();
    assert_eq!(data, bytes);
}

#[test]
fn empty_blob_round_trip() {
    let mut store = fresh_store();
    create_file(&mut store, "empty".to_string(), Vec::new()).unwrap();
    let handle = get_file_by_name(&store, "empty".to_string()).unwrap().unwrap();
    let data = get_file_data(&store, &handle).unwrap().unwrap();
    assert_eq!(data.len(), 0);
}

#[test]
fn link_and_file_share_a_name() {
    let mut store = fresh_store();
    create_link(&mut store, "http://t".to_string(), "x".to_string()).unwrap();
    let bytes = vec![9u8, 8, 7];
    create_file(&mut store, "x".to_string(), bytes.clone()).unwrap();
    let link = get_link_by_name(&store, "x".to_string()).unwrap().unwrap();
    assert_eq!(link.target, "http://t");
    let handle = get_file_by_name(&store, "x".to_string()).unwrap().unwrap();
    let data = get_file_data(&store, &handle).unwrap().unwrap();
    assert_eq!(data, bytes);
}

#[test]
fn schema_bootstrap_is_idempotent() {
    let mut store = fresh_store();
    create_link(&mut store, "http://t".to_string(), "keep".to_string()).unwrap();
    fix_tables(&mut store).unwrap();
    fix_tables(&mut store).unwrap();
    let link = get_link_by_name(&store, "keep".to_string()).unwrap().unwrap();
    assert_eq!(link.target, "http://t");
}

#[test]
fn create_resolve_delete_scenario() {
    let mut store = fresh_store();
    create_link(&mut store, "http://example.com".to_string(), "abc".to_string()).unwrap();
    let link = get_link_by_name(&store, "abc".to_string()).unwrap().unwrap();
    assert_eq!(link.target, "http://example.com");
    delete_link(&mut store, &link).unwrap();
    assert!(get_link_by_name(&store, "abc".to_string()).unwrap().is_none());
}

#[test]
fn connect_to_unusable_path_reports_storage_failure() {
    let result = connect(Some("/"));
    assert!(matches!(result, Err(StoreError::StorageFailure)));
}

#[test]
fn duplicate_file_name_conflicts() {
    let mut store = fresh_store();
    create_file(&mut store, "f".to_string(), vec![1u8]).unwrap();
    let second = create_file(&mut store, "f".to_string(), vec![2u8]);
    assert!(matches!(second, Err(StoreError::Conflict)));
    let handle = get_file_by_name(&store, "f".to_string()).unwrap().unwrap();
    let data = get_file_data(&store, &handle).unwrap().unwrap();
    assert_eq!(data, vec![1u8]);
}

#[test]
fn file_data_after_delete_is_absent_not_an_error() {
    let mut store = fresh_store();
    create_file(&mut store, "gone".to_string(), vec![5u8, 6]).unwrap();
    let handle = get_file_by_name(&store, "gone".to_string()).unwrap().unwrap();
    delete_file(&mut store, &handle).unwrap();
    delete_file(&mut store, &handle).unwrap();
    assert!(get_file_data(&store, &handle).unwrap().is_none());
    assert!(get_file_by_name(&store, "gone".to_string()).unwrap().is_none());
}

#[test]
fn update_file_overwrites_whole_blob() {
    let mut store = fresh_store();
    create_file(&mut store, "w".to_string(), vec![1u8, 2, 3]).unwrap();
    let handle = get_file_by_name(&store, "w".to_string()).unwrap().unwrap();
    update_file(&mut store, &handle, vec![9u8]).unwrap();
    let data = get_file_data(&store, &handle).unwrap().unwrap();
    assert_eq!(data, vec![9u8]);
}

#[test]
fn update_of_deleted_link_is_a_silent_noop() {
    let mut store = fresh_store();
    create_link(&mut store, "http://t".to_string(), "s".to_string()).unwrap();
    let mut handle = get_link_by_name(&store, "s".to_string()).unwrap().unwrap();
    delete_link(&mut store, &handle).unwrap();
    update_link(&mut store, &mut handle, "http://other".to_string()).unwrap();
    assert_eq!(handle.target, "http://other");
    assert!(get_link_by_name(&store, "s".to_string()).unwrap().is_none());
}

#[test]
fn created_links_get_distinct_ids() {
    let mut store = fresh_store();
    let a = create_link(&mut store, "http://a".to_string(), "a".to_string()).unwrap();
    let b = create_link(&mut store, "http://b".to_string(), "b".to_string()).unwrap();
    assert_ne!(a.id, b.id);
    let a2 = get_link_by_name(&store, "a".to_string()).unwrap().unwrap();
    let b2 = get_link_by_name(&store, "b".to_string()).unwrap().unwrap();
    assert_eq!(a2.id, a.id);
    assert_eq!(b2.id, b.id);
    assert_eq!(a2.target, "http://a");
    assert_eq!(b2.target, "http://b");
}

#[test]
fn deleted_link_id_is_not_reused() {
    let mut store = fresh_store();
    let first = create_link(&mut store, "http://a".to_string(), "a".to_string()).unwrap();
    let handle = get_link_by_name(&store, "a".to_string()).unwrap().unwrap();
    delete_link(&mut store, &handle).unwrap();
    let second = create_link(&mut store, "http://b".to_string(), "b".to_string()).unwrap();
    assert_ne!(second.id, first.id);
}

#[test]
fn deleted_file_id_is_not_reused() {
    let mut store = fresh_store();
    let first = create_file(&mut store, "a".to_string(), vec![1u8]).unwrap();
    let handle = get_file_by_name(&store, "a".to_string()).unwrap().unwrap();
    delete_file(&mut store, &handle).unwrap();
    let second = create_file(&mut store, "b".to_string(), vec![2u8]).unwrap();
    assert_ne!(second.id, first.id);
}

#[test]
fn absent_name_resolves_to_none() {
    let store = fresh_store();
    assert!(get_link_by_name(&store, "nope".to_string()).unwrap().is_none());
    assert!(get_file_by_name(&store, "nope".to_string()).unwrap().is_none());
}

#[test]
fn create_file_returns_payload_in_handle() {
    let mut store = fresh_store();
    let created = create_file(&mut store, "h".to_string(), vec![4u8, 2]).unwrap();
    assert_eq!(created.name, "h");
    assert_eq!(created.data, Some(vec![4u8, 2]));
    let read = get_file_by_name(&store, "h".to_string()).unwrap().unwrap();
    assert_eq!(read.id, created.id);
}
