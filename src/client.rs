//! What a client computes around its calls: the requests it sends and when it
//! stops waiting for the server.
use vstd::prelude::*;
use crate::codec::base64_of;
use crate::rpc_types::{BatchPutEntry, ExistsKVsRequest, HealthCheck, KeyValue, PutKVsRequest};
use crate::tree_id::encode_wire;

verus! {

/// How long a client waits between two health checks, in milliseconds.
pub const READY_POLL_MS: u64 = 250;

/// The view of a list of records to put.
pub open spec fn entries_view(v: Seq<BatchPutEntry>) -> Seq<(Seq<u8>, Seq<u8>)> {
    v.map_values(|e: BatchPutEntry| (e.key@, e.value@))
}

/// The records of a batched put, as key-values.
fn key_values_of(items: Vec<BatchPutEntry>) -> (r: Vec<KeyValue>)
    ensures
        r@.len() == items@.len(),
        forall|m: int| 0 <= m < r@.len()
            ==> (#[trigger] r@[m]).key@ == items@[m].key@ && r@[m].value@ == items@[m].value@,
{
    let mut items = items;
    let ghost all = items@;
    let mut out: Vec<KeyValue> = Vec::new();
    let mut m: usize = 0;
    let n = items.len();
    while items.len() > 0
        invariant
            m <= all.len(),
            all.len() == n,
            items@ == all.skip(m as int),
            out@.len() == m,
            forall|j: int| 0 <= j < m ==> (#[trigger] out@[j]).key@ == all[j].key@ && out@[j].value@ == all[j].value@,
        decreases items@.len(),
    {
        let e = items.remove(0);
        proof {
            assert(all[m as int] == e);
            assert(items@ =~= all.skip(m as int + 1));
        }
        out.push(KeyValue { key: e.key, value: e.value });
        m = m + 1;
    }
    out
}

/// The request of a batched put: for each raw tree name (empty bytes for the
/// default tree) its wire name, base64 of the raw name, with its records, in
/// order.
pub fn put_kvs_request(args: Vec<(Vec<u8>, Vec<BatchPutEntry>)>) -> (r: PutKVsRequest)
    ensures
        r.entries@.len() == args@.len(),
        forall|i: int| 0 <= i < args@.len() ==> {
            &&& (#[trigger] r.entries@[i]).0@ == base64_of(args@[i].0@)
            &&& r.entries@[i].1@.len() == args@[i].1@.len()
            &&& forall|m: int| 0 <= m < r.entries@[i].1@.len()
                ==> (#[trigger] r.entries@[i].1@[m]).key@ == args@[i].1@[m].key@
                    && r.entries@[i].1@[m].value@ == args@[i].1@[m].value@
        },
{
    let mut args = args;
    let ghost all = args@;
    let n = args.len();
    let mut out: Vec<(String, Vec<KeyValue>)> = Vec::new();
    let mut i: usize = 0;
    while args.len() > 0
        invariant
            i <= all.len(),
            all.len() == n,
            args@ == all.skip(i as int),
            out@.len() == i,
            forall|j: int| 0 <= j < i ==> {
                &&& (#[trigger] out@[j]).0@ == base64_of(all[j].0@)
                &&& out@[j].1@.len() == all[j].1@.len()
                &&& forall|m: int| 0 <= m < out@[j].1@.len()
                    ==> (#[trigger] out@[j].1@[m]).key@ == all[j].1@[m].key@
                        && out@[j].1@[m].value@ == all[j].1@[m].value@
            },
        decreases args@.len(),
    {
        let (tree, items) = args.remove(0);
        proof {
            assert(all[i as int] == (tree, items));
            assert(args@ =~= all.skip(i as int + 1));
        }
        let name = encode_wire(tree.as_slice());
        let kvs = key_values_of(items);
        out.push((name, kvs));
        i = i + 1;
    }
    PutKVsRequest { entries: out }
}

/// The request of a batched presence query: for each raw tree name its wire
/// name, with its keys, in order.
pub fn exists_kvs_request(args: Vec<(Vec<u8>, Vec<Vec<u8>>)>) -> (r: ExistsKVsRequest)
    ensures
        r.entries@.len() == args@.len(),
        forall|i: int| 0 <= i < args@.len()
            ==> (#[trigger] r.entries@[i]).0@ == base64_of(args@[i].0@) && r.entries@[i].1@ == args@[i].1@,
{
    let mut args = args;
    let ghost all = args@;
    let n = args.len();
    let mut out: Vec<(String, Vec<Vec<u8>>)> = Vec::new();
    let mut i: usize = 0;
    while args.len() > 0
        invariant
            i <= all.len(),
            all.len() == n,
            args@ == all.skip(i as int),
            out@.len() == i,
            forall|j: int| 0 <= j < i
                ==> (#[trigger] out@[j]).0@ == base64_of(all[j].0@) && out@[j].1@ == all[j].1@,
        decreases args@.len(),
    {
        let (tree, keys) = args.remove(0);
        proof {
            assert(all[i as int] == (tree, keys));
            assert(args@ =~= all.skip(i as int + 1));
        }
        let name = encode_wire(tree.as_slice());
        out.push((name, keys));
        i = i + 1;
    }
    ExistsKVsRequest { entries: out }
}

/// What a client waiting for the server does after a health check: stop
/// (`None`) once the server answered ok, else wait the poll interval, in
/// milliseconds, and check again.
pub fn ready_step(answer: Option<HealthCheck>) -> (r: Option<u64>)
    ensures
        r is None <==> (answer is Some && answer->Some_0.ok),
        r is Some ==> r->Some_0 == READY_POLL_MS,
{
    match answer {
        Some(h) => if h.ok {
            None
        } else {
            Some(READY_POLL_MS)
        },
        None => Some(READY_POLL_MS),
    }
}

} // verus!
