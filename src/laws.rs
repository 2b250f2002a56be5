//! Laws of the store, proved over the model of `kv_service`.
use vstd::prelude::*;
use crate::batch::no_writes;
use crate::engine::droppable;
use crate::kv_service::{
    apply_to, contents, delete_kv_model, get_model, op_key, planned, put_kv_model, put_kvs_model,
    put_writes, run_ops, tree_key, KvOp, StoreModel, Writes,
};
use crate::tree_id::{default_tree_bytes, wire_tree, TreeName};

verus! {

/// A tree with no record.
pub open spec fn empty_tree() -> Map<Seq<u8>, Seq<u8>> {
    Map::empty()
}

/// The store with the named trees dropped.
pub open spec fn drop_trees(s: StoreModel, names: Seq<Seq<u8>>) -> StoreModel {
    Map::new(|n: Seq<u8>| s.contains_key(n) && !names.contains(n), |n: Seq<u8>| s[n])
}

/// A batched put of one record into the tree with wire name `t`.
pub open spec fn one_record(t: Seq<char>, k: Seq<u8>, v: Seq<u8>) -> Seq<(Seq<char>, Seq<(Seq<u8>, Seq<u8>)>)> {
    seq![(t, seq![(k, v)])]
}

/// After a batched put of the single record `(k, v)` into the tree with wire
/// name `t` succeeds, that tree holds `k`, with value `v`.
pub proof fn lemma_put_many_then_get(s: StoreModel, t: Seq<char>, k: Seq<u8>, v: Seq<u8>)
    requires
        wire_tree(t) is Some,
    ensures
        put_kvs_model(s, one_record(t, k, v)).1,
        contents(put_kvs_model(s, one_record(t, k, v)).0, tree_key(wire_tree(t)->Some_0)).contains_key(k),
        contents(put_kvs_model(s, one_record(t, k, v)).0, tree_key(wire_tree(t)->Some_0))[k] == v,
{
    reveal_with_fuel(put_kvs_model, 2);
    reveal_with_fuel(put_writes, 2);
    let entries = one_record(t, k, v);
    assert(entries.drop_last() =~= Seq::<(Seq<char>, Seq<(Seq<u8>, Seq<u8>)>)>::empty());
    let items = seq![(k, v)];
    assert(items.drop_last() =~= Seq::<(Seq<u8>, Seq<u8>)>::empty());
    assert(put_writes(items) == no_writes().insert(k, Some(v)));
}

/// Reading a key after putting it gives the value put.
pub proof fn lemma_get_after_put(s: StoreModel, k: Seq<u8>, v: Seq<u8>)
    ensures
        get_model(put_kv_model(s, k, v), k) == Some(v),
{
}

/// A key is absent after it is removed.
pub proof fn lemma_absent_after_delete(s: StoreModel, k: Seq<u8>)
    ensures
        get_model(delete_kv_model(s, k), k) is None,
{
}

/// A write to the default tree leaves every other key of it as it was.
proof fn lemma_other_key_kept(s: StoreModel, op: KvOp, k: Seq<u8>)
    requires
        op_key(op) != k,
    ensures
        get_model(run_ops(s, seq![op]), k) == get_model(s, k),
{
    reveal_with_fuel(run_ops, 2);
    assert(seq![op].drop_last() =~= Seq::<KvOp>::empty());
}

/// The default tree lists every record that was put and whose key no later
/// write touched.
pub proof fn lemma_live_puts_listed(s: StoreModel, ops: Seq<KvOp>, i: int, k: Seq<u8>, v: Seq<u8>)
    requires
        0 <= i < ops.len(),
        ops[i] == KvOp::Put(k, v),
        forall|j: int| i < j < ops.len() ==> op_key(#[trigger] ops[j]) != k,
    ensures
        get_model(run_ops(s, ops), k) == Some(v),
    decreases ops.len(),
{
    let prefix = ops.drop_last();
    if i == ops.len() - 1 {
        lemma_get_after_put(run_ops(s, prefix), k, v);
    } else {
        lemma_live_puts_listed(s, prefix, i, k, v);
        let last = ops.last();
        assert(op_key(ops[ops.len() - 1]) != k);
        lemma_other_key_kept(run_ops(s, prefix), last, k);
        assert(seq![last].drop_last() =~= Seq::<KvOp>::empty());
    }
}

/// Batched puts go entry by entry: running two lists of entries one after the
/// other is running them joined, and a failure stops the rest.
pub proof fn lemma_put_kvs_in_order(
    s: StoreModel,
    a: Seq<(Seq<char>, Seq<(Seq<u8>, Seq<u8>)>)>,
    b: Seq<(Seq<char>, Seq<(Seq<u8>, Seq<u8>)>)>,
)
    ensures
        put_kvs_model(s, a + b) == (if put_kvs_model(s, a).1 {
            put_kvs_model(put_kvs_model(s, a).0, b)
        } else {
            put_kvs_model(s, a)
        }),
    decreases b.len(),
{
    if b.len() == 0 {
        assert(a + b =~= a);
    } else {
        lemma_put_kvs_in_order(s, a, b.drop_last());
        assert((a + b).drop_last() =~= a + b.drop_last());
        assert((a + b).last() == b.last());
    }
}

/// The store after planned writes, applied in order, each to its tree.
pub open spec fn run_steps(s: StoreModel, steps: Seq<(TreeName, Writes)>) -> StoreModel
    decreases steps.len(),
{
    if steps.len() == 0 {
        s
    } else {
        apply_to(run_steps(s, steps.drop_last()), steps.last().0, steps.last().1)
    }
}

/// The names of the entries of a batched put.
pub open spec fn entry_names(entries: Seq<(Seq<char>, Seq<(Seq<u8>, Seq<u8>)>)>) -> Seq<Seq<char>> {
    entries.map_values(|e: (Seq<char>, Seq<(Seq<u8>, Seq<u8>)>)| e.0)
}

/// The writes of the entries of a batched put.
pub open spec fn entry_writes(entries: Seq<(Seq<char>, Seq<(Seq<u8>, Seq<u8>)>)>) -> Seq<Writes> {
    entries.map_values(|e: (Seq<char>, Seq<(Seq<u8>, Seq<u8>)>)| put_writes(e.1))
}

/// Applying, in order, the steps planned for a batched put gives the store
/// that the put gives, and the plan stops exactly where the put fails: the
/// entries are applied one after another, each all at once.
pub proof fn lemma_plan_is_put(
    s: StoreModel,
    entries: Seq<(Seq<char>, Seq<(Seq<u8>, Seq<u8>)>)>,
    steps: Seq<(TreeName, Writes)>,
    stopped: bool,
)
    requires
        planned(entry_names(entries), entry_writes(entries), steps, stopped),
    ensures
        put_kvs_model(s, entries) == (run_steps(s, steps), !stopped),
    decreases entries.len(),
{
    let n = entries.len();
    let k = steps.len();
    if n > 0 {
        let rest = entries.drop_last();
        assert(entry_names(rest) =~= entry_names(entries).drop_last());
        assert(entry_writes(rest) =~= entry_writes(entries).drop_last());
        assert(entry_names(entries)[n - 1] == entries.last().0);
        assert(entry_writes(entries)[n - 1] == put_writes(entries.last().1));
        if k == n {
            let before = steps.drop_last();
            assert(planned(entry_names(rest), entry_writes(rest), before, false)) by {
                assert forall|i: int| 0 <= i < before.len() implies wire_tree(entry_names(rest)[i])
                    == Some((#[trigger] before[i]).0) && before[i].1 == entry_writes(rest)[i] by {
                    assert(before[i] == steps[i]);
                }
            }
            lemma_plan_is_put(s, rest, before, false);
            assert(steps[n - 1] == steps.last());
        } else {
            let still = k < n - 1;
            assert(planned(entry_names(rest), entry_writes(rest), steps, still)) by {
                assert forall|i: int| 0 <= i < steps.len() implies wire_tree(entry_names(rest)[i])
                    == Some((#[trigger] steps[i]).0) && steps[i].1 == entry_writes(rest)[i] by {
                    assert(entry_names(rest)[i] == entry_names(entries)[i]);
                }
                if still {
                    assert(entry_names(rest)[k as int] == entry_names(entries)[k as int]);
                }
            }
            lemma_plan_is_put(s, rest, steps, still);
        }
    }
}

/// The write of `put_kv_step` is the model's single put, and that of
/// `delete_kv_step` its single removal.
pub proof fn lemma_kv_steps_are_model(s: StoreModel, k: Seq<u8>, v: Seq<u8>)
    ensures
        run_steps(s, seq![(TreeName::Default, no_writes().insert(k, Some(v)))]) == put_kv_model(s, k, v),
        run_steps(s, seq![(TreeName::Default, no_writes().insert(k, None))]) == delete_kv_model(s, k),
{
    reveal_with_fuel(run_steps, 2);
    assert(seq![(TreeName::Default, no_writes().insert(k, Some(v)))].drop_last() =~= Seq::<(TreeName, Writes)>::empty());
    assert(seq![(TreeName::Default, no_writes().insert(k, None))].drop_last() =~= Seq::<(TreeName, Writes)>::empty());
}

/// After the steps that `plan_put_kvs` plans for a batched put of the single
/// record `(k, v)` into the tree with wire name `t` are applied, the plan has
/// not stopped and that tree holds `k` with value `v`.
pub proof fn lemma_planned_put_then_get(
    s: StoreModel,
    t: Seq<char>,
    k: Seq<u8>,
    v: Seq<u8>,
    steps: Seq<(TreeName, Writes)>,
    stopped: bool,
)
    requires
        wire_tree(t) is Some,
        planned(entry_names(one_record(t, k, v)), entry_writes(one_record(t, k, v)), steps, stopped),
    ensures
        !stopped,
        contents(run_steps(s, steps), tree_key(wire_tree(t)->Some_0)).contains_key(k),
        contents(run_steps(s, steps), tree_key(wire_tree(t)->Some_0))[k] == v,
{
    lemma_plan_is_put(s, one_record(t, k, v), steps, stopped);
    lemma_put_many_then_get(s, t, k, v);
}

/// The write that `put_kv_step` or `delete_kv_step` makes for a write of the
/// default tree.
pub open spec fn op_step(op: KvOp) -> (TreeName, Writes) {
    match op {
        KvOp::Put(k, v) => (TreeName::Default, no_writes().insert(k, Some(v))),
        KvOp::Delete(k) => (TreeName::Default, no_writes().insert(k, None)),
    }
}

/// Applying the steps of a run of `PutKv` and `DeleteKv` calls, in order, is
/// running those writes in the model.
pub proof fn lemma_ops_are_steps(s: StoreModel, ops: Seq<KvOp>)
    ensures
        run_steps(s, ops.map_values(|op: KvOp| op_step(op))) == run_ops(s, ops),
    decreases ops.len(),
{
    if ops.len() > 0 {
        let prefix = ops.drop_last();
        lemma_ops_are_steps(s, prefix);
        assert(ops.map_values(|op: KvOp| op_step(op)).drop_last() =~= prefix.map_values(|op: KvOp| op_step(op)));
    }
}

/// After a run of `PutKv` and `DeleteKv` steps, the default tree lists every
/// record that was put and whose key no later step touched.
pub proof fn lemma_live_puts_listed_by_steps(s: StoreModel, ops: Seq<KvOp>, i: int, k: Seq<u8>, v: Seq<u8>)
    requires
        0 <= i < ops.len(),
        ops[i] == KvOp::Put(k, v),
        forall|j: int| i < j < ops.len() ==> op_key(#[trigger] ops[j]) != k,
    ensures
        get_model(run_steps(s, ops.map_values(|op: KvOp| op_step(op))), k) == Some(v),
{
    lemma_ops_are_steps(s, ops);
    lemma_live_puts_listed(s, ops, i, k, v);
}

/// A name is dropped by `destroy` exactly when it is listed and is not the
/// default tree's.
proof fn lemma_droppable_contains(names: Seq<Seq<u8>>, n: Seq<u8>)
    ensures
        droppable(names).contains(n) <==> names.contains(n) && n != default_tree_bytes(),
    decreases names.len(),
{
    if names.len() > 0 {
        let rest = names.drop_last();
        lemma_droppable_contains(rest, n);
        assert(names =~= rest.push(names.last()));
        if names.contains(n) && n != default_tree_bytes() && !rest.contains(n) {
            assert(n == names.last());
            assert(droppable(names) == droppable(rest).push(n));
            assert(droppable(names)[droppable(names).len() - 1] == n);
        }
        if droppable(names).contains(n) && !droppable(rest).contains(n) {
            assert(names.last() != default_tree_bytes());
            let idx = choose|x: int| 0 <= x < droppable(names).len() && droppable(names)[x] == n;
            if idx < droppable(rest).len() {
                assert(droppable(rest)[idx] == n);
            }
            assert(names[names.len() - 1] == n);
        }
        if rest.contains(n) {
            let idx = choose|x: int| 0 <= x < rest.len() && rest[x] == n;
            assert(names[idx] == n);
        }
        if droppable(rest).contains(n) {
            let idx = choose|x: int| 0 <= x < droppable(rest).len() && droppable(rest)[x] == n;
            if names.last() != default_tree_bytes() {
                assert(droppable(names)[idx] == n);
            }
        }
    }
}

/// `destroy` keeps the default tree as it was and leaves every other listed
/// tree empty.
pub proof fn lemma_destroy_keeps_default(s: StoreModel, names: Seq<Seq<u8>>)
    ensures
        contents(drop_trees(s, droppable(names)), tree_key(TreeName::Default))
            == contents(s, tree_key(TreeName::Default)),
        forall|n: Seq<u8>| names.contains(n) && n != tree_key(TreeName::Default)
            ==> contents(#[trigger] drop_trees(s, droppable(names)), n) == empty_tree(),
{
    lemma_droppable_contains(names, default_tree_bytes());
    assert forall|n: Seq<u8>| names.contains(n) && n != tree_key(TreeName::Default)
        implies contents(#[trigger] drop_trees(s, droppable(names)), n) == empty_tree() by {
        lemma_droppable_contains(names, n);
    }
}

} // verus!
