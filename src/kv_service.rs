//! The key-value service: the handlers of its RPC methods over the database,
//! and a model of the store against which its laws are stated.
//!
//! In the model a store maps each tree's engine name to the tree's records,
//! and applying a batch sets each key it writes to the value written, or
//! removes it, as the engine documents for `apply_batch`.
use vstd::prelude::*;
use crate::batch::{DbBatch, no_writes};
use crate::codec::{b64_encode, base64_of};
use crate::engine::{readable, readable_entries, Database, DbTree, Entry};
use crate::error::{error_message, Code, DbError, Status};
use crate::rpc_types::{
    DeleteKVsRequest, Empty, ExistKVsResponse, Exists, ExistsKVsRequest, HealthCheck, KeyValue,
    PutKVsRequest, Values,
};
use crate::tree_id::{decode_wire, engine_name, raw_tree, wire_tree, DbTrees, TreeName};

verus! {

/// The records of one tree.
pub type TreeModel = Map<Seq<u8>, Seq<u8>>;

/// Trees by engine name.
pub type StoreModel = Map<Seq<u8>, TreeModel>;

/// The writes a batch stages: per key, the value set, or `None` for a removal.
pub type Writes = Map<Seq<u8>, Option<Seq<u8>>>;

/// The engine name of a tree, as bytes.
pub open spec fn tree_key(t: TreeName) -> Seq<u8> {
    vstd::utf8::encode_utf8(engine_name(t))
}

/// The records of the named tree; a tree that was never written is empty.
pub open spec fn contents(s: StoreModel, name: Seq<u8>) -> TreeModel {
    if s.contains_key(name) {
        s[name]
    } else {
        Map::empty()
    }
}

/// The records of a tree after its writes are applied.
pub open spec fn apply_writes(t: TreeModel, w: Writes) -> TreeModel {
    Map::new(
        |k: Seq<u8>| if w.contains_key(k) { w[k] is Some } else { t.contains_key(k) },
        |k: Seq<u8>| if w.contains_key(k) { w[k]->Some_0 } else { t[k] },
    )
}

/// The store after the writes are applied to one tree.
pub open spec fn apply_to(s: StoreModel, t: TreeName, w: Writes) -> StoreModel {
    s.insert(tree_key(t), apply_writes(contents(s, tree_key(t)), w))
}

/// The writes that set each record in turn; a later record of a key wins.
pub open spec fn put_writes(items: Seq<(Seq<u8>, Seq<u8>)>) -> Writes
    decreases items.len(),
{
    if items.len() == 0 {
        no_writes()
    } else {
        put_writes(items.drop_last()).insert(items.last().0, Some(items.last().1))
    }
}

/// The writes that remove each key.
pub open spec fn delete_writes(keys: Seq<Seq<u8>>) -> Writes
    decreases keys.len(),
{
    if keys.len() == 0 {
        no_writes()
    } else {
        delete_writes(keys.drop_last()).insert(keys.last(), None)
    }
}

/// The view of a list of records.
pub open spec fn kv_view(v: Seq<KeyValue>) -> Seq<(Seq<u8>, Seq<u8>)> {
    v.map_values(|kv: KeyValue| (kv.key@, kv.value@))
}

/// The view of a list of keys.
pub open spec fn keys_view(v: Seq<Vec<u8>>) -> Seq<Seq<u8>> {
    v.map_values(|k: Vec<u8>| k@)
}

/// A batched put as the model sees it: entries in order, each applied to its
/// tree at once; it stops, failing, at the first wire name that is not valid,
/// keeping what the entries before it wrote.
pub open spec fn put_kvs_model(s: StoreModel, entries: Seq<(Seq<char>, Seq<(Seq<u8>, Seq<u8>)>)>) -> (StoreModel, bool)
    decreases entries.len(),
{
    if entries.len() == 0 {
        (s, true)
    } else {
        let (s1, ok) = put_kvs_model(s, entries.drop_last());
        if !ok {
            (s1, false)
        } else {
            match wire_tree(entries.last().0) {
                Some(t) => (apply_to(s1, t, put_writes(entries.last().1)), true),
                None => (s1, false),
            }
        }
    }
}

/// A single put into the default tree.
pub open spec fn put_kv_model(s: StoreModel, k: Seq<u8>, v: Seq<u8>) -> StoreModel {
    apply_to(s, TreeName::Default, no_writes().insert(k, Some(v)))
}

/// A single removal from the default tree.
pub open spec fn delete_kv_model(s: StoreModel, k: Seq<u8>) -> StoreModel {
    apply_to(s, TreeName::Default, no_writes().insert(k, None))
}

/// The value of a key in the default tree.
pub open spec fn get_model(s: StoreModel, k: Seq<u8>) -> Option<Seq<u8>> {
    let t = contents(s, tree_key(TreeName::Default));
    if t.contains_key(k) {
        Some(t[k])
    } else {
        None
    }
}

/// A write to the default tree.
pub enum KvOp {
    Put(Seq<u8>, Seq<u8>),
    Delete(Seq<u8>),
}

/// The key a write touches.
pub open spec fn op_key(op: KvOp) -> Seq<u8> {
    match op {
        KvOp::Put(k, _) => k,
        KvOp::Delete(k) => k,
    }
}

/// The store after the writes, in order.
pub open spec fn run_ops(s: StoreModel, ops: Seq<KvOp>) -> StoreModel
    decreases ops.len(),
{
    if ops.len() == 0 {
        s
    } else {
        let s1 = run_ops(s, ops.drop_last());
        match ops.last() {
            KvOp::Put(k, v) => put_kv_model(s1, k, v),
            KvOp::Delete(k) => delete_kv_model(s1, k),
        }
    }
}

/// The answer of `GetKv` to what the engine returned for the key: the value,
/// `NotFound` where it is absent, `Internal` where the engine failed.
pub fn lookup_response(found: Result<Option<Vec<u8>>, DbError>) -> (r: Result<Vec<u8>, Status>)
    ensures
        match found {
            Ok(Some(v)) => r is Ok && r->Ok_0@ == v@,
            Ok(None) => r is Err && r->Err_0.code == Code::NotFound && r->Err_0.msg@.len() == 0,
            Err(e) => r is Err && r->Err_0.code == Code::Internal,
        },
{
    match found {
        Ok(Some(v)) => Ok(v),
        Ok(None) => Err(Status::new(Code::NotFound, String::new())),
        Err(e) => Err(e.to_status()),
    }
}

/// The answer of `Exist` to what the engine returned for the key.
pub fn exists_response(found: Result<bool, DbError>) -> (r: Result<Exists, Status>)
    ensures
        match found {
            Ok(true) => r == Ok::<Exists, Status>(Exists::Found),
            Ok(false) => r == Ok::<Exists, Status>(Exists::NotFound),
            Err(_) => r is Err && r->Err_0.code == Code::Internal,
        },
{
    match found {
        Ok(true) => Ok(Exists::Found),
        Ok(false) => Ok(Exists::NotFound),
        Err(e) => Err(e.to_status()),
    }
}

/// The batch that inserts the records in order.
pub fn put_batch(items: &Vec<KeyValue>) -> (r: DbBatch)
    ensures
        r.writes() == put_writes(kv_view(items@)),
        r.spec_count() == items@.len(),
{
    let mut batch = DbBatch::new();
    let mut i: usize = 0;
    while i < items.len()
        invariant
            i <= items@.len(),
            batch.writes() == put_writes(kv_view(items@.take(i as int))),
            batch.spec_count() == i,
        decreases items@.len() - i,
    {
        assert(kv_view(items@.take(i as int + 1)).drop_last() =~= kv_view(items@.take(i as int)));
        let _ = batch.insert_raw(items[i].key.as_slice(), items[i].value.as_slice());
        i = i + 1;
    }
    assert(items@.take(items@.len() as int) =~= items@);
    batch
}

/// The batch that removes the keys in order.
pub fn delete_batch(keys: &Vec<Vec<u8>>) -> (r: DbBatch)
    ensures
        r.writes() == delete_writes(keys_view(keys@)),
        r.spec_count() == keys@.len(),
{
    let mut batch = DbBatch::new();
    let mut i: usize = 0;
    while i < keys.len()
        invariant
            i <= keys@.len(),
            batch.writes() == delete_writes(keys_view(keys@.take(i as int))),
            batch.spec_count() == i,
        decreases keys@.len() - i,
    {
        assert(keys_view(keys@.take(i as int + 1)).drop_last() =~= keys_view(keys@.take(i as int)));
        let _ = batch.remove_raw(keys[i].as_slice());
        i = i + 1;
    }
    assert(keys@.take(keys@.len() as int) =~= keys@);
    batch
}

/// The records among the entries that could be read, as key-values, in order.
pub fn key_values(entries: Vec<Entry>) -> (r: Values)
    ensures
        kv_view(r@) == readable(entries@),
{
    let pairs = readable_entries(entries);
    let mut out: Values = Vec::new();
    let mut i: usize = 0;
    while i < pairs.len()
        invariant
            i <= pairs@.len(),
            out@.len() == i,
            kv_view(out@) == crate::engine::pairs_view(pairs@.take(i as int)),
            crate::engine::pairs_view(pairs@) == readable(entries@),
        decreases pairs@.len() - i,
    {
        let key = pairs[i].0.clone();
        let value = pairs[i].1.clone();
        let ghost old_out = out@;
        out.push(KeyValue { key, value });
        assert forall|j: int| 0 <= j < i + 1 implies #[trigger] kv_view(out@)[j]
            == crate::engine::pairs_view(pairs@.take(i as int + 1))[j] by {
            if j < i {
                assert(out@[j] == old_out[j]);
                assert(kv_view(old_out)[j] == crate::engine::pairs_view(pairs@.take(i as int))[j]);
            }
        }
        assert(kv_view(out@) =~= crate::engine::pairs_view(pairs@.take(i as int + 1)));
        i = i + 1;
    }
    assert(pairs@.take(pairs@.len() as int) =~= pairs@);
    out
}

/// The tree that `List` reads: empty bytes name the default tree.
pub fn list_tree(raw: &[u8]) -> (r: DbTrees)
    ensures
        r@ == raw_tree(raw@),
{
    if raw.len() == 0 {
        DbTrees::Default
    } else {
        DbTrees::Binary(vstd::slice::slice_to_vec(raw))
    }
}

/// The presence of each key, each key given as its base64 text.
pub fn presence(keys: &Vec<Vec<u8>>, found: &Vec<Exists>) -> (r: Vec<(String, Exists)>)
    requires
        keys@.len() == found@.len(),
    ensures
        r@.len() == keys@.len(),
        forall|i: int| 0 <= i < r@.len() ==> (#[trigger] r@[i]).0@ == base64_of(keys@[i]@) && r@[i].1 == found@[i],
{
    let mut out: Vec<(String, Exists)> = Vec::new();
    let mut i: usize = 0;
    while i < keys.len()
        invariant
            i <= keys@.len(),
            keys@.len() == found@.len(),
            out@.len() == i,
            forall|j: int| 0 <= j < i ==> (#[trigger] out@[j]).0@ == base64_of(keys@[j]@) && out@[j].1 == found@[j],
        decreases keys@.len() - i,
    {
        let text = b64_encode(keys[i].as_slice());
        let e = found[i];
        let ghost old_out = out@;
        out.push((text, e));
        assert forall|j: int| 0 <= j < i + 1 implies (#[trigger] out@[j]).0@ == base64_of(keys@[j]@) && out@[j].1 == found@[j] by {
            if j < i {
                assert(out@[j] == old_out[j]);
            } else {
                assert(out@[j].0@ == text@);
            }
        }
        i = i + 1;
    }
    out
}

/// Whether `out` reports on the query entry `q`: under the same wire name,
/// which is valid, the presence of each of its keys, in order, each key given
/// as its base64 text.
pub open spec fn reports(out: (String, Vec<(String, Exists)>), q: (String, Vec<Vec<u8>>)) -> bool {
    &&& out.0@ == q.0@
    &&& wire_tree(q.0@) is Some
    &&& out.1@.len() == q.1@.len()
    &&& forall|m: int| 0 <= m < out.1@.len() ==> (#[trigger] out.1@[m]).0@ == base64_of(q.1@[m]@)
}

/// The presence that a lookup's outcome gives: `Found` exactly for `Ok(true)`.
pub open spec fn presence_of(lookup: Result<bool, DbError>) -> Exists {
    match lookup {
        Ok(true) => Exists::Found,
        _ => Exists::NotFound,
    }
}

/// The answer for one entry of a batched presence query, from the outcome of
/// looking up each of its keys in its tree: the entry's wire name with each
/// key's base64 text and presence, in order; `Internal` where a lookup failed.
pub fn exist_entry(name: &String, keys: &Vec<Vec<u8>>, lookups: Vec<Result<bool, DbError>>) -> (r: Result<
    (String, Vec<(String, Exists)>),
    Status,
>)
    requires
        keys@.len() == lookups@.len(),
    ensures
        r is Ok <==> forall|m: int| 0 <= m < lookups@.len() ==> (#[trigger] lookups@[m]) is Ok,
        r is Err ==> r->Err_0.code == Code::Internal,
        r is Ok ==> {
            &&& r->Ok_0.0@ == name@
            &&& r->Ok_0.1@.len() == keys@.len()
            &&& forall|m: int| 0 <= m < keys@.len() ==> (#[trigger] r->Ok_0.1@[m]).0@ == base64_of(keys@[m]@)
                && r->Ok_0.1@[m].1 == presence_of(lookups@[m])
        },
{
    let mut found: Vec<Exists> = Vec::new();
    let mut m: usize = 0;
    while m < lookups.len()
        invariant
            m <= lookups@.len(),
            found@.len() == m,
            forall|j: int| 0 <= j < m ==> (#[trigger] lookups@[j]) is Ok && found@[j] == presence_of(lookups@[j]),
        decreases lookups@.len() - m,
    {
        match &lookups[m] {
            Ok(b) => {
                found.push(if *b { Exists::Found } else { Exists::NotFound });
            },
            Err(e) => {
                return Err(e.to_status());
            },
        }
        m = m + 1;
    }
    let row = presence(keys, &found);
    Ok((name.clone(), row))
}

/// The outcome of looking up each key in the tree, in order.
fn lookup_all(tree: &DbTree, keys: &Vec<Vec<u8>>) -> (r: Vec<Result<bool, DbError>>)
    ensures
        r@.len() == keys@.len(),
{
    let mut found: Vec<Result<bool, DbError>> = Vec::new();
    let mut m: usize = 0;
    while m < keys.len()
        invariant
            m <= keys@.len(),
            found@.len() == m,
        decreases keys@.len() - m,
    {
        found.push(tree.contains_key(keys[m].as_slice()));
        m = m + 1;
    }
    found
}

/// The answer of a write from what the engine returned at each of its steps:
/// the write itself; then, only once it succeeded, the tree's flush; then,
/// only once that succeeded, the store's flush. It succeeds exactly when all
/// three did, and otherwise fails with `Internal` and the first failure's
/// message.
pub fn write_outcome(
    written: Result<(), DbError>,
    tree_flush: Option<Result<usize, DbError>>,
    store_flush: Option<Result<usize, DbError>>,
) -> (r: Result<(), Status>)
    requires
        tree_flush is Some <==> written is Ok,
        store_flush is Some <==> (tree_flush is Some && tree_flush->Some_0 is Ok),
    ensures
        r is Ok <==> (store_flush is Some && store_flush->Some_0 is Ok),
        r is Err ==> r->Err_0.code == Code::Internal,
        written is Err ==> r is Err && r->Err_0.msg@ == error_message(written->Err_0),
        tree_flush is Some && tree_flush->Some_0 is Err
            ==> r is Err && r->Err_0.msg@ == error_message(tree_flush->Some_0->Err_0),
        store_flush is Some && store_flush->Some_0 is Err
            ==> r is Err && r->Err_0.msg@ == error_message(store_flush->Some_0->Err_0),
{
    if let Err(e) = written {
        return Err(e.to_status());
    }
    match tree_flush {
        Some(Err(e)) => return Err(e.to_status()),
        _ => {},
    }
    match store_flush {
        Some(Ok(_)) => Ok(()),
        Some(Err(e)) => Err(e.to_status()),
        None => Err(Status::new(Code::Internal, String::new())),
    }
}

/// The message of a wire tree name that is not base64.
fn invalid_tree_name() -> (r: Status)
    ensures
        r.code == Code::Internal,
{
    Status::new(Code::Internal, "invalid base64 tree name".to_owned())
}

/// One planned write: a batch and the tree it goes to.
pub struct WriteStep {
    pub tree: DbTrees,
    pub batch: DbBatch,
}

/// The view of planned writes: each one's tree and writes.
pub open spec fn steps_view(steps: Seq<WriteStep>) -> Seq<(TreeName, Writes)> {
    steps.map_values(|w: WriteStep| (w.tree@, w.batch.writes()))
}

/// The view of the entries of a batched put.
pub open spec fn put_entries_view(entries: Seq<(String, Vec<KeyValue>)>) -> Seq<(Seq<char>, Seq<(Seq<u8>, Seq<u8>)>)> {
    entries.map_values(|e: (String, Vec<KeyValue>)| (e.0@, kv_view(e.1@)))
}

/// Whether `steps` are the writes of the entries up to the first one whose
/// wire name is not valid (`stopped`), or of all of them: the i-th step goes
/// to the tree that the i-th entry names and holds the i-th entry's writes.
pub open spec fn planned(
    names: Seq<Seq<char>>,
    writes: Seq<Writes>,
    steps: Seq<(TreeName, Writes)>,
    stopped: bool,
) -> bool {
    &&& names.len() == writes.len()
    &&& steps.len() <= names.len()
    &&& stopped <==> steps.len() < names.len()
    &&& steps.len() < names.len() ==> wire_tree(names[steps.len() as int]) is None
    &&& forall|i: int| 0 <= i < steps.len()
        ==> wire_tree(names[i]) == Some((#[trigger] steps[i]).0) && steps[i].1 == writes[i]
}

/// The write of `PutKv`: the key set to the value, in the default tree.
pub fn put_kv_step(key: &[u8], value: &[u8]) -> (r: WriteStep)
    ensures
        r.tree@ == TreeName::Default,
        r.batch.writes() == no_writes().insert(key@, Some(value@)),
        r.batch.spec_count() == 1,
{
    let mut batch = DbBatch::new();
    let _ = batch.insert_raw(key, value);
    WriteStep { tree: DbTrees::Default, batch }
}

/// The write of `DeleteKv`: the key removed from the default tree.
pub fn delete_kv_step(key: &[u8]) -> (r: WriteStep)
    ensures
        r.tree@ == TreeName::Default,
        r.batch.writes() == no_writes().insert(key@, None),
        r.batch.spec_count() == 1,
{
    let mut batch = DbBatch::new();
    let _ = batch.remove_raw(key);
    WriteStep { tree: DbTrees::Default, batch }
}

/// The plan of a batched put: for each entry in order, up to the first whose
/// wire name is not valid, the batch of its records for the tree it names;
/// and whether it stopped at such a name.
pub fn plan_put_kvs(request: &PutKVsRequest) -> (r: (Vec<WriteStep>, bool))
    ensures
        planned(
            request.entries@.map_values(|e: (String, Vec<KeyValue>)| e.0@),
            request.entries@.map_values(|e: (String, Vec<KeyValue>)| put_writes(kv_view(e.1@))),
            steps_view(r.0@),
            r.1,
        ),
{
    let entries = &request.entries;
    let ghost names = entries@.map_values(|e: (String, Vec<KeyValue>)| e.0@);
    let ghost writes = entries@.map_values(|e: (String, Vec<KeyValue>)| put_writes(kv_view(e.1@)));
    let mut steps: Vec<WriteStep> = Vec::new();
    let mut i: usize = 0;
    while i < entries.len()
        invariant
            i <= entries@.len(),
            entries@ == request.entries@,
            steps@.len() == i,
            names == entries@.map_values(|e: (String, Vec<KeyValue>)| e.0@),
            writes == entries@.map_values(|e: (String, Vec<KeyValue>)| put_writes(kv_view(e.1@))),
            forall|j: int| 0 <= j < i ==> wire_tree(names[j]) == Some((#[trigger] steps_view(steps@)[j]).0)
                && steps_view(steps@)[j].1 == writes[j],
        decreases entries@.len() - i,
    {
        let tree = match decode_wire(entries[i].0.as_str()) {
            Some(t) => t,
            None => {
                assert(names[i as int] == entries@[i as int].0@);
                return (steps, true);
            },
        };
        let batch = put_batch(&entries[i].1);
        let ghost before = steps@;
        steps.push(WriteStep { tree, batch });
        proof {
            assert forall|j: int| 0 <= j < i + 1 implies wire_tree(names[j]) == Some((#[trigger] steps_view(steps@)[j]).0)
                && steps_view(steps@)[j].1 == writes[j] by {
                if j < i {
                    assert(steps@[j] == before[j]);
                    assert(steps_view(before)[j] == steps_view(steps@)[j]);
                }
            }
        }
        i = i + 1;
    }
    (steps, false)
}

/// The plan of a batched removal: as `plan_put_kvs`, with each entry's batch
/// removing its keys.
pub fn plan_delete_kvs(request: &DeleteKVsRequest) -> (r: (Vec<WriteStep>, bool))
    ensures
        planned(
            request.entries@.map_values(|e: (String, Vec<Vec<u8>>)| e.0@),
            request.entries@.map_values(|e: (String, Vec<Vec<u8>>)| delete_writes(keys_view(e.1@))),
            steps_view(r.0@),
            r.1,
        ),
{
    let entries = &request.entries;
    let ghost names = entries@.map_values(|e: (String, Vec<Vec<u8>>)| e.0@);
    let ghost writes = entries@.map_values(|e: (String, Vec<Vec<u8>>)| delete_writes(keys_view(e.1@)));
    let mut steps: Vec<WriteStep> = Vec::new();
    let mut i: usize = 0;
    while i < entries.len()
        invariant
            i <= entries@.len(),
            entries@ == request.entries@,
            steps@.len() == i,
            names == entries@.map_values(|e: (String, Vec<Vec<u8>>)| e.0@),
            writes == entries@.map_values(|e: (String, Vec<Vec<u8>>)| delete_writes(keys_view(e.1@))),
            forall|j: int| 0 <= j < i ==> wire_tree(names[j]) == Some((#[trigger] steps_view(steps@)[j]).0)
                && steps_view(steps@)[j].1 == writes[j],
        decreases entries@.len() - i,
    {
        let tree = match decode_wire(entries[i].0.as_str()) {
            Some(t) => t,
            None => {
                assert(names[i as int] == entries@[i as int].0@);
                return (steps, true);
            },
        };
        let batch = delete_batch(&entries[i].1);
        let ghost before = steps@;
        steps.push(WriteStep { tree, batch });
        proof {
            assert forall|j: int| 0 <= j < i + 1 implies wire_tree(names[j]) == Some((#[trigger] steps_view(steps@)[j]).0)
                && steps_view(steps@)[j].1 == writes[j] by {
                if j < i {
                    assert(steps@[j] == before[j]);
                    assert(steps_view(before)[j] == steps_view(steps@)[j]);
                }
            }
        }
        i = i + 1;
    }
    (steps, false)
}

/// The service's state: the database it serves.
pub struct State {
    pub db: Database,
}

impl State {
    /// Flushes the tree, then the store, after a write that succeeded, and
    /// answers from the three outcomes (`write_outcome`).
    fn flush_and_answer(&self, tree: &DbTree, written: Result<(), DbError>) -> (r: Result<(), Status>)
        ensures
            r is Err ==> r->Err_0.code == Code::Internal,
            written is Err ==> r is Err,
    {
        let tree_flush = if written.is_ok() {
            Some(tree.flush())
        } else {
            None
        };
        let store_flush = match &tree_flush {
            Some(Ok(_)) => Some(self.db.flush()),
            _ => None,
        };
        write_outcome(written, tree_flush, store_flush)
    }

    /// `GetKv`: the value of the key in the default tree; `NotFound` where it
    /// is absent, `Internal` where the engine fails.
    pub fn get_kv(&self, key: &[u8]) -> (r: Result<Vec<u8>, Status>)
        ensures
            r is Err ==> (r->Err_0.code == Code::NotFound || r->Err_0.code == Code::Internal),
    {
        lookup_response(self.db.get(key))
    }

    /// `List`: the readable records of the tree (empty bytes: the default
    /// tree) in key order; a tree never written is created, and empty.
    pub fn list(&self, tree: &[u8]) -> (r: Result<Values, Status>)
        ensures
            r is Err ==> r->Err_0.code == Code::Internal,
    {
        let db_tree = match self.db.open_tree(list_tree(tree)) {
            Ok(t) => t,
            Err(e) => return Err(e.to_status()),
        };
        Ok(key_values(db_tree.iter()))
    }

    /// `PutKv`: sets the key in the default tree (the step of `put_kv_step`),
    /// then flushes the tree and the store.
    pub fn put_kv(&self, key: &[u8], value: &[u8]) -> (r: Result<Empty, Status>)
        ensures
            r is Err ==> r->Err_0.code == Code::Internal,
    {
        let mut step = put_kv_step(key, value);
        self.apply_and_flush(step.tree, &mut step.batch)?;
        Ok(Empty)
    }

    /// `DeleteKv`: removes the key from the default tree (the step of
    /// `delete_kv_step`), then flushes the tree and the store.
    pub fn delete_kv(&self, key: &[u8]) -> (r: Result<Empty, Status>)
        ensures
            r is Err ==> r->Err_0.code == Code::Internal,
    {
        let mut step = delete_kv_step(key);
        self.apply_and_flush(step.tree, &mut step.batch)?;
        Ok(Empty)
    }

    /// Applies one batch to the tree, then flushes the tree and the store.
    fn apply_and_flush(&self, tree: DbTrees, batch: &mut DbBatch) -> (r: Result<(), Status>)
        ensures
            r is Err ==> r->Err_0.code == Code::Internal,
            final(batch).spec_count() == 0,
            final(batch).writes() == no_writes(),
    {
        let db_tree = match self.db.open_tree(tree) {
            Ok(t) => t,
            Err(e) => {
                let _ = batch.take_inner();
                return Err(e.to_status());
            },
        };
        let written = db_tree.apply_batch(batch);
        self.flush_and_answer(&db_tree, written)
    }

    /// Applies the planned writes in order, each to its tree at once followed
    /// by a flush of the tree and the store; stops at the first failure.
    fn apply_steps(&self, plan: Vec<WriteStep>) -> (r: Result<(), Status>)
        ensures
            r is Err ==> r->Err_0.code == Code::Internal,
            plan@.len() == 0 ==> r is Ok,
    {
        let mut steps = plan;
        while steps.len() > 0
            invariant
                plan@.len() == 0 ==> steps@.len() == 0,
            decreases steps@.len(),
        {
            let mut step = steps.remove(0);
            self.apply_and_flush(step.tree, &mut step.batch)?;
        }
        Ok(())
    }

    /// `PutKvs`: for each entry in order, resolves its wire tree name, then
    /// applies all of its records to that tree at once and flushes the tree
    /// and the store (the steps of `plan_put_kvs`). It stops at the first
    /// failure with `Internal`, keeping what the entries before wrote; a name
    /// that is not base64 fails it.
    pub fn put_kvs(&self, request: &PutKVsRequest) -> (r: Result<Empty, Status>)
        ensures
            r is Err ==> r->Err_0.code == Code::Internal,
            request.entries@.len() == 0 ==> r is Ok,
            r is Ok ==> forall|i: int| 0 <= i < request.entries@.len()
                ==> (#[trigger] wire_tree(request.entries@[i].0@)) is Some,
    {
        let (steps, stopped) = plan_put_kvs(request);
        proof {
            let names = request.entries@.map_values(|e: (String, Vec<KeyValue>)| e.0@);
            assert forall|i: int| !stopped && 0 <= i < request.entries@.len()
                implies (#[trigger] wire_tree(request.entries@[i].0@)) is Some by {
                assert(names[i] == request.entries@[i].0@);
                assert(wire_tree(names[i]) == Some(steps_view(steps@)[i].0));
            }
        }
        self.apply_steps(steps)?;
        if stopped {
            return Err(invalid_tree_name());
        }
        Ok(Empty)
    }

    /// `DeleteKvs`: as `PutKvs`, removing each entry's keys from its tree (the
    /// steps of `plan_delete_kvs`).
    pub fn delete_kvs(&self, request: &DeleteKVsRequest) -> (r: Result<Empty, Status>)
        ensures
            r is Err ==> r->Err_0.code == Code::Internal,
            request.entries@.len() == 0 ==> r is Ok,
            r is Ok ==> forall|i: int| 0 <= i < request.entries@.len()
                ==> (#[trigger] wire_tree(request.entries@[i].0@)) is Some,
    {
        let (steps, stopped) = plan_delete_kvs(request);
        proof {
            let names = request.entries@.map_values(|e: (String, Vec<Vec<u8>>)| e.0@);
            assert forall|i: int| !stopped && 0 <= i < request.entries@.len()
                implies (#[trigger] wire_tree(request.entries@[i].0@)) is Some by {
                assert(names[i] == request.entries@[i].0@);
                assert(wire_tree(names[i]) == Some(steps_view(steps@)[i].0));
            }
        }
        self.apply_steps(steps)?;
        if stopped {
            return Err(invalid_tree_name());
        }
        Ok(Empty)
    }

    /// `Exist`: whether the key is in the default tree.
    pub fn exist(&self, key: &[u8]) -> (r: Result<Exists, Status>)
        ensures
            r is Err ==> r->Err_0.code == Code::Internal,
    {
        let db_tree = match self.db.open_tree(DbTrees::Default) {
            Ok(t) => t,
            Err(e) => return Err(e.to_status()),
        };
        exists_response(db_tree.contains_key(key))
    }

    /// `BatchExist`: for each entry in order, resolves its wire name, opens
    /// its tree and looks up each of its keys; answers one entry per request
    /// entry, in the same order, with each key's presence (`exist_entry`). The
    /// first name that is not base64, tree that fails to open or lookup that
    /// fails ends the request with `Internal`.
    pub fn batch_exist(&self, request: &ExistsKVsRequest) -> (r: Result<ExistKVsResponse, Status>)
        ensures
            r is Err ==> r->Err_0.code == Code::Internal,
            r is Ok ==> r->Ok_0.entries@.len() == request.entries@.len(),
            r is Ok ==> forall|j: int| 0 <= j < request.entries@.len()
                ==> reports(#[trigger] r->Ok_0.entries@[j], request.entries@[j]),
            (exists|j: int| 0 <= j < request.entries@.len() && (#[trigger] wire_tree(request.entries@[j].0@)) is None)
                ==> r is Err,
    {
        let entries = &request.entries;
        let mut out: Vec<(String, Vec<(String, Exists)>)> = Vec::new();
        let mut i: usize = 0;
        while i < entries.len()
            invariant
                i <= entries@.len(),
                entries@ == request.entries@,
                out@.len() == i,
                forall|j: int| 0 <= j < i ==> reports(#[trigger] out@[j], entries@[j]),
            decreases entries@.len() - i,
        {
            let tree = match decode_wire(entries[i].0.as_str()) {
                Some(t) => t,
                None => return Err(invalid_tree_name()),
            };
            let db_tree = match self.db.open_tree(tree) {
                Ok(t) => t,
                Err(e) => return Err(e.to_status()),
            };
            let keys = &entries[i].1;
            let lookups = lookup_all(&db_tree, keys);
            let row = exist_entry(&entries[i].0, keys, lookups)?;
            let ghost before = out@;
            out.push(row);
            proof {
                assert forall|j: int| 0 <= j < i + 1 implies reports(#[trigger] out@[j], entries@[j]) by {
                    if j < i {
                        assert(out@[j] == before[j]);
                    }
                }
            }
            i = i + 1;
        }
        proof {
            assert forall|j: int| 0 <= j < request.entries@.len() implies (#[trigger] wire_tree(request.entries@[j].0@)) is Some by {
                assert(reports(out@[j], entries@[j]));
            }
        }
        Ok(ExistKVsResponse { entries: out })
    }

    /// `HealthCheck`: the service is up.
    pub fn health_check(&self) -> (r: HealthCheck)
        ensures
            r.ok,
    {
        HealthCheck { ok: true }
    }
}

} // verus!
