use bonerjams_db::batch::DbBatch;
use bonerjams_db::client::{exists_kvs_request, put_kvs_request};
use bonerjams_db::config::{DbMode, DbOpts};
use bonerjams_db::engine::{drop_failures, trees_to_drop, Database, DbTree};
use std::collections::BTreeMap;
use bonerjams_db::error::{Code, DbError};
use bonerjams_db::kv_service::{delete_kv_step, plan_delete_kvs, plan_put_kvs, put_kv_step, State};
use bonerjams_db::rpc_types::{
    BatchPutEntry, DeleteKVsRequest, Exists, ExistsKVsRequest, KeyValue, KeystoreValue, PutKVsRequest,
};
use bonerjams_db::tree_id::{encode_wire, DbTrees};

fn open_state(path: &str) -> State {
    let opts = DbOpts { path: path.to_string(), ..DbOpts::default() };
    let db = Database::new(&opts).unwrap();
    db.destroy();
    State { db }
}

fn kv(k: &str, v: &str) -> KeyValue {
    KeyValue { key: k.as_bytes().to_vec(), value: v.as_bytes().to_vec() }
}

fn has(values: &[KeyValue], k: &str, v: &str) -> bool {
    values.iter().any(|e| e.key == k.as_bytes() && e.value == v.as_bytes())
}

fn test_data(key: &str, foo: &str) -> Vec<u8> {
    let mut fields = BTreeMap::new();
    fields.insert("key", key);
    fields.insert("foo", foo);
    serde_json::to_vec(&fields).unwrap()
}

fn read_test_data(tree: &DbTree, key: &[u8]) -> BTreeMap<String, String> {
    serde_json::from_slice(&tree.get(key).unwrap().unwrap()).unwrap()
}

#[test]
fn test_db_basic() {
    let db = Database::new(&DbOpts { path: "/tmp/bonerjams_test_db_basic.db".to_string(), ..DbOpts::default() }).unwrap();
    db.destroy();
    let _ = db.delete(b"key4");
    let mut db_batch = DbBatch::new();
    db_batch.insert_raw(b"key1", &test_data("key1", "foo1")).unwrap();
    {
        let tree = db.open_tree(DbTrees::Custom("foobar".to_string())).unwrap();
        tree.apply_batch(&mut db_batch).unwrap();
        tree.flush().unwrap();
        assert_eq!(tree.len(), 1);
    }
    db_batch.insert_raw(b"key2", &test_data("key2", "foo2")).unwrap();
    {
        let tree = db.open_tree(DbTrees::Custom("foobar".to_string())).unwrap();
        tree.apply_batch(&mut db_batch).unwrap();
        tree.flush().unwrap();
        assert_eq!(tree.len(), 2);
    }
    db_batch.insert_raw(b"key3", &test_data("key3", "foo3")).unwrap();
    {
        let tree = db.open_tree(DbTrees::Custom("foobarbaz".to_string())).unwrap();
        tree.apply_batch(&mut db_batch).unwrap();
        tree.flush().unwrap();
        assert_eq!(tree.len(), 1);
    }
    db_batch.insert_raw(b"key4", &test_data("key4", "foo4")).unwrap();
    db.apply_batch(&mut db_batch).unwrap();
    db_batch.insert_raw(b"rawkey", b"rawvalue").unwrap();
    {
        let tree = db.open_tree(DbTrees::Binary(b"rawkeys".to_vec())).unwrap();
        tree.apply_batch(&mut db_batch).unwrap();
        tree.flush().unwrap();
        assert_eq!(tree.len(), 1);
    }
    db.flush().unwrap();

    let foobar_values = db.list_values(DbTrees::Custom("foobar".to_string())).unwrap();
    assert_eq!(foobar_values.len(), 2);
    let tree = db.open_tree(DbTrees::Custom("foobar".to_string())).unwrap();
    let one = read_test_data(&tree, &foobar_values[0].0);
    assert_eq!(one.get("key").map(String::as_str), Some("key1"));
    assert_eq!(one.get("foo").map(String::as_str), Some("foo1"));
    let two = read_test_data(&tree, &foobar_values[1].0);
    assert_eq!(two.get("key").map(String::as_str), Some("key2"));
    assert_eq!(two.get("foo").map(String::as_str), Some("foo2"));
    let foobarbaz_values = db.list_values(DbTrees::Custom("foobarbaz".to_string())).unwrap();
    assert_eq!(foobarbaz_values.len(), 1);
    let tree = db.open_tree(DbTrees::Custom("foobarbaz".to_string())).unwrap();
    let three = read_test_data(&tree, &foobarbaz_values[0].0);
    assert_eq!(three.get("key").map(String::as_str), Some("key3"));
    assert_eq!(three.get("foo").map(String::as_str), Some("foo3"));
    let default_tree_values = db.list_values(DbTrees::Default).unwrap();
    assert_eq!(default_tree_values.len(), 1);
    let raw_values = db.list_values(DbTrees::Binary(b"rawkeys".to_vec())).unwrap();
    assert_eq!(raw_values.len(), 1);
    assert_eq!(raw_values[0].0, b"rawkey".to_vec());
    assert_eq!(raw_values[0].1, b"rawvalue".to_vec());
    assert!(db.destroy().is_empty());
}

#[test]
fn batch_counts_and_resets() {
    let mut b = DbBatch::new();
    assert_eq!(b.count(), 0);
    b.insert_raw(b"a", b"1").unwrap();
    b.remove_raw(b"b").unwrap();
    assert_eq!(b.count(), 2);
    let _taken = b.take_inner();
    assert_eq!(b.count(), 0);
    b.remove(&KeystoreValue { key: b"k".to_vec(), value: b"v".to_vec() }).unwrap();
    assert_eq!(b.count(), 1);
}

#[test]
fn apply_batch_leaves_count_zero() {
    let state = open_state("/tmp/bonerjams_test_apply_count.db");
    let tree = state.db.open_tree(DbTrees::Custom("counted".to_string())).unwrap();
    let mut b = DbBatch::new();
    b.insert_raw(b"x", b"1").unwrap();
    b.insert_raw(b"y", b"2").unwrap();
    b.remove_raw(b"x").unwrap();
    tree.apply_batch(&mut b).unwrap();
    assert_eq!(b.count(), 0);
    assert_eq!(tree.get(b"y").unwrap(), Some(b"2".to_vec()));
    assert_eq!(tree.get(b"x").unwrap(), None);
    assert!(!tree.contains_key(b"x").unwrap());
    let mut empty = DbBatch::new();
    tree.apply_batch(&mut empty).unwrap();
    assert_eq!(empty.count(), 0);
    assert_eq!(tree.len(), 1);
}

#[test]
fn batch_put_across_two_trees() {
    let state = open_state("/tmp/bonerjams_test_two_trees.db");
    let req = PutKVsRequest {
        entries: vec![
            ("".to_string(), vec![kv("sixety_nine", "l33tm0d3")]),
            (encode_wire(&[4, 2, 0]), vec![kv("sixety_nine", "l33tm0d3")]),
        ],
    };
    assert!(state.put_kvs(&req).is_ok());
    assert!(has(&state.list(&[]).unwrap(), "sixety_nine", "l33tm0d3"));
    assert!(has(&state.list(&[4, 2, 0]).unwrap(), "sixety_nine", "l33tm0d3"));
    assert_eq!(state.exist(b"sixety_nine").unwrap(), Exists::Found);
}

#[test]
fn client_request_matches_server_names() {
    let state = open_state("/tmp/bonerjams_test_client_request.db");
    let req = put_kvs_request(vec![
        (vec![], vec![BatchPutEntry { key: b"k1".to_vec(), value: b"v1".to_vec() }]),
        (vec![4, 2, 0], vec![BatchPutEntry { key: b"k2".to_vec(), value: b"v2".to_vec() }]),
    ]);
    assert_eq!(req.entries[0].0, "");
    assert_eq!(req.entries[1].0, "BAIA");
    assert!(state.put_kvs(&req).is_ok());
    assert!(has(&state.list(&[4, 2, 0]).unwrap(), "k2", "v2"));
    let q = exists_kvs_request(vec![(vec![4, 2, 0], vec![b"k2".to_vec(), b"nope".to_vec()])]);
    assert_eq!(q.entries[0].0, "BAIA");
    let r = state.batch_exist(&q).unwrap();
    assert_eq!(r.entries.len(), 1);
    assert_eq!(r.entries[0].0, "BAIA");
    assert_eq!(r.entries[0].1[0].0, "azI=");
    assert_eq!(r.entries[0].1[0].1, Exists::Found);
    assert_eq!(r.entries[0].1[1].0, "bm9wZQ==");
    assert_eq!(r.entries[0].1[1].1, Exists::NotFound);
}

#[test]
fn put_many_then_get_and_exists() {
    let state = open_state("/tmp/bonerjams_test_put_many.db");
    let name = encode_wire(b"trees");
    let req = PutKVsRequest { entries: vec![(name.clone(), vec![kv("k", "v")])] };
    assert!(state.put_kvs(&req).is_ok());
    let r = state.batch_exist(&ExistsKVsRequest { entries: vec![(name, vec![b"k".to_vec()])] }).unwrap();
    assert_eq!(r.entries[0].1[0].1, Exists::Found);
    assert!(has(&state.list(b"trees").unwrap(), "k", "v"));
}

#[test]
fn get_after_put_and_exists_after_delete() {
    let state = open_state("/tmp/bonerjams_test_get_put.db");
    state.put_kv(b"1", b"2").unwrap();
    assert_eq!(state.get_kv(b"1").unwrap(), b"2".to_vec());
    state.put_kv(b"1", b"3").unwrap();
    assert_eq!(state.get_kv(b"1").unwrap(), b"3".to_vec());
    state.delete_kv(b"1").unwrap();
    assert_eq!(state.exist(b"1").unwrap(), Exists::NotFound);
    let missing = state.get_kv(b"1").unwrap_err();
    assert_eq!(missing.code, Code::NotFound);
    assert!(missing.msg.is_empty());
}

#[test]
fn list_keeps_live_puts() {
    let state = open_state("/tmp/bonerjams_test_live_puts.db");
    state.put_kv(b"a", b"1").unwrap();
    state.put_kv(b"b", b"2").unwrap();
    state.delete_kv(b"a").unwrap();
    state.put_kv(b"c", b"3").unwrap();
    let values = state.list(&[]).unwrap();
    assert!(has(&values, "b", "2"));
    assert!(has(&values, "c", "3"));
    assert!(!values.iter().any(|e| e.key == b"a"));
}

#[test]
fn batched_delete_removes_keys() {
    let state = open_state("/tmp/bonerjams_test_delete_kvs.db");
    let name = encode_wire(b"del");
    state.put_kvs(&PutKVsRequest { entries: vec![(name.clone(), vec![kv("x", "1"), kv("y", "2")])] }).unwrap();
    state.delete_kvs(&DeleteKVsRequest { entries: vec![(name, vec![b"x".to_vec()])] }).unwrap();
    let values = state.list(b"del").unwrap();
    assert_eq!(values.len(), 1);
    assert!(has(&values, "y", "2"));
}

#[test]
fn invalid_tree_name_fails_internal() {
    let state = open_state("/tmp/bonerjams_test_invalid_name.db");
    let first = encode_wire(b"first");
    let req = PutKVsRequest {
        entries: vec![(first, vec![kv("kept", "yes")]), ("%%%".to_string(), vec![kv("a", "b")])],
    };
    let err = state.put_kvs(&req).unwrap_err();
    assert_eq!(err.code, Code::Internal);
    assert!(has(&state.list(b"first").unwrap(), "kept", "yes"));
    let del = DeleteKVsRequest { entries: vec![("%%%".to_string(), vec![b"a".to_vec()])] };
    assert_eq!(state.delete_kvs(&del).unwrap_err().code, Code::Internal);
    let q = ExistsKVsRequest { entries: vec![("%%%".to_string(), vec![b"a".to_vec()])] };
    assert_eq!(state.batch_exist(&q).unwrap_err().code, Code::Internal);
    let mixed = ExistsKVsRequest {
        entries: vec![("".to_string(), vec![b"a".to_vec()]), ("%%%".to_string(), vec![b"a".to_vec()])],
    };
    assert_eq!(state.batch_exist(&mixed).unwrap_err().code, Code::Internal);
}

#[test]
fn list_of_new_tree_is_empty() {
    let state = open_state("/tmp/bonerjams_test_new_tree.db");
    assert!(state.list(b"never-written").unwrap().is_empty());
    assert!(state.health_check().ok);
}

#[test]
fn destroy_preserves_default() {
    let state = open_state("/tmp/bonerjams_test_destroy.db");
    let db = &state.db;
    for name in ["foobar", "foobarbaz"] {
        let tree = db.open_tree(DbTrees::Custom(name.to_string())).unwrap();
        tree.insert_raw(b"k", b"v").unwrap();
    }
    db.open_tree(DbTrees::Binary(b"rawkeys".to_vec())).unwrap().insert_raw(b"rawkey", b"rawvalue").unwrap();
    db.insert_raw(b"kept", b"record").unwrap();
    assert!(db.destroy().is_empty());
    let default_values = db.list_values(DbTrees::Default).unwrap();
    assert!(default_values.iter().any(|(k, v)| k == b"kept" && v == b"record"));
    assert!(db.list_values(DbTrees::Custom("foobar".to_string())).unwrap().is_empty());
    assert_eq!(db.get(b"kept").unwrap(), Some(b"record".to_vec()));
}

#[test]
fn default_tree_name_is_never_dropped() {
    let names = vec![b"__sled__default".to_vec(), b"foobar".to_vec(), b"x".to_vec()];
    assert_eq!(trees_to_drop(&names), vec![b"foobar".to_vec(), b"x".to_vec()]);
    assert!(trees_to_drop(&vec![]).is_empty());
}

#[test]
fn database_options_are_applied() {
    let opts = DbOpts {
        path: "/tmp/bonerjams_test_options.db".to_string(),
        system_page_cache: Some(1024 * 1024),
        mode: Some(DbMode::LowSpace),
        debug: false,
        compression_factor: None,
    };
    let db = Database::new(&opts).unwrap();
    db.insert_raw(b"k", b"v").unwrap();
    assert_eq!(db.get(b"k").unwrap(), Some(b"v".to_vec()));
    let compressed = DbOpts {
        path: "/tmp/bonerjams_test_compressed.db".to_string(),
        compression_factor: Some(3),
        ..DbOpts::default()
    };
    assert!(matches!(Database::new(&compressed), Err(DbError::CustomServerError(_))));
}

#[test]
fn plans_stop_at_first_invalid_name() {
    let req = PutKVsRequest {
        entries: vec![
            ("".to_string(), vec![kv("a", "1"), kv("b", "2")]),
            ("%%%".to_string(), vec![kv("c", "3")]),
            ("BAIA".to_string(), vec![kv("d", "4")]),
        ],
    };
    let (steps, stopped) = plan_put_kvs(&req);
    assert!(stopped);
    assert_eq!(steps.len(), 1);
    assert!(matches!(steps[0].tree, DbTrees::Default));
    assert_eq!(steps[0].batch.count(), 2);
    let del = DeleteKVsRequest { entries: vec![("BAIA".to_string(), vec![b"x".to_vec()])] };
    let (steps, stopped) = plan_delete_kvs(&del);
    assert!(!stopped);
    assert!(matches!(&steps[0].tree, DbTrees::Binary(raw) if raw == &vec![4u8, 2, 0]));
    assert_eq!(steps[0].batch.count(), 1);
}

#[test]
fn empty_entry_is_a_no_op() {
    let state = open_state("/tmp/bonerjams_test_empty_entry.db");
    let name = encode_wire(b"quiet");
    assert!(state.put_kvs(&PutKVsRequest { entries: vec![(name.clone(), vec![])] }).is_ok());
    assert!(state.put_kvs(&PutKVsRequest { entries: vec![] }).is_ok());
    let tree = state.db.open_tree(DbTrees::Binary(b"quiet".to_vec())).unwrap();
    assert!(tree.is_empty());
    assert_eq!(tree.len(), 0);
    let r = state.batch_exist(&ExistsKVsRequest { entries: vec![(name.clone(), vec![])] }).unwrap();
    assert_eq!(r.entries.len(), 1);
    assert_eq!(r.entries[0].0, name);
    assert!(r.entries[0].1.is_empty());
}

#[test]
fn single_writes_are_one_op_batches() {
    let step = put_kv_step(b"k", b"v");
    assert!(matches!(step.tree, DbTrees::Default));
    assert_eq!(step.batch.count(), 1);
    let step = delete_kv_step(b"k");
    assert!(matches!(step.tree, DbTrees::Default));
    assert_eq!(step.batch.count(), 1);
}

#[test]
fn engine_settings_follow_options() {
    let opts = DbOpts { path: "p".to_string(), system_page_cache: Some(7), compression_factor: Some(3), mode: None, debug: true };
    let st = opts.engine_settings();
    assert_eq!(st.path, "p");
    assert_eq!(st.cache_capacity, Some(7));
    assert_eq!(st.compression_factor, Some(3));
    assert_eq!(st.mode, DbMode::Fast);
    assert!(st.print_profile_on_drop);
}

#[test]
fn drop_failures_keep_failed_names() {
    let names = vec![b"a".to_vec(), b"b".to_vec(), b"c".to_vec()];
    let outcomes = vec![Ok(true), Err(DbError::CustomServerError("busy".to_string())), Ok(false)];
    let failed = drop_failures(&names, outcomes);
    assert_eq!(failed.len(), 1);
    assert_eq!(failed[0].0, b"b".to_vec());
    assert!(matches!(&failed[0].1, DbError::CustomServerError(m) if m == "busy"));
}
