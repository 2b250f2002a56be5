use bonerjams_db::tree_id::{decode_wire, encode_wire, DbTrees, DEFAULT_TREE_ID};
use bonerjams_db::rpc_types::Exists;

#[test]
fn raw_names_of_trees() {
    assert_eq!(DbTrees::Custom("foobar".to_string()).raw(), b"foobar".to_vec());
    assert_eq!(DbTrees::Binary(vec![4, 2, 0]).raw(), vec![4, 2, 0]);
    assert_eq!(DbTrees::Default.raw(), DEFAULT_TREE_ID.as_bytes().to_vec());
    assert_eq!(DbTrees::Default.raw(), b"__sled__default".to_vec());
}

#[test]
fn engine_names_of_trees() {
    assert_eq!(DbTrees::Custom("foobar".to_string()).to_string(), "foobar");
    assert_eq!(DbTrees::Binary(b"rawkeys".to_vec()).to_string(), "cmF3a2V5cw==");
    assert_eq!(DbTrees::Default.to_string(), "__sled__default");
}

#[test]
fn wire_name_of_raw_bytes() {
    assert_eq!(encode_wire(&[4, 2, 0]), "BAIA");
    assert_eq!(encode_wire(&[]), "");
    assert_eq!(encode_wire(b"foo"), "Zm9v");
}

#[test]
fn empty_wire_name_is_default_tree() {
    assert!(matches!(decode_wire(""), Some(DbTrees::Default)));
}

#[test]
fn wire_name_decodes_to_raw_bytes() {
    match decode_wire("BAIA") {
        Some(DbTrees::Binary(raw)) => assert_eq!(raw, vec![4, 2, 0]),
        _ => panic!("expected a binary tree name"),
    }
}

#[test]
fn invalid_wire_name_is_rejected() {
    assert!(decode_wire("not base64!").is_none());
    assert!(decode_wire("====").is_none());
}

#[test]
fn wire_names_round_trip() {
    for raw in [vec![1u8], vec![4, 2, 0], b"rawkeys".to_vec(), vec![255, 0, 255, 0, 7]] {
        let s = encode_wire(&raw);
        match decode_wire(&s) {
            Some(DbTrees::Binary(back)) => {
                assert_eq!(back, raw);
                assert_eq!(encode_wire(&back), s);
            }
            _ => panic!("expected a binary tree name"),
        }
    }
}

#[test]
fn exists_as_bool() {
    assert!(Exists::Found.bool());
    assert!(!Exists::NotFound.bool());
}
