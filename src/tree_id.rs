//! Identifiers of the trees (keyspaces) of a database, and their wire names.
use vstd::prelude::*;
use crate::codec::{b64_decode, b64_encode, base64_decoded, base64_of};

verus! {

/// The engine's name of the default tree, kept for on-disk compatibility.
pub const DEFAULT_TREE_ID: &'static str = "__sled__default";

/// The characters of the default tree's name.
pub open spec fn default_tree_name() -> Seq<char> {
    seq!['_', '_', 's', 'l', 'e', 'd', '_', '_', 'd', 'e', 'f', 'a', 'u', 'l', 't']
}

/// The default tree's name as UTF-8 bytes.
pub open spec fn default_tree_bytes() -> Seq<u8> {
    vstd::utf8::encode_utf8(default_tree_name())
}

/// What a tree identifier denotes.
pub enum TreeName {
    Default,
    Text(Seq<char>),
    Bytes(Seq<u8>),
}

/// Identifies a tree: the default tree, a tree named by text, or one named by
/// raw bytes.
pub enum DbTrees {
    /// custom tree names specified as strings
    Custom(String),
    /// custom tree names specified as raw bytes
    Binary(Vec<u8>),
    /// the default tree
    Default,
}

impl View for DbTrees {
    type V = TreeName;

    open spec fn view(&self) -> TreeName {
        match self {
            DbTrees::Custom(s) => TreeName::Text(s@),
            DbTrees::Binary(b) => TreeName::Bytes(b@),
            DbTrees::Default => TreeName::Default,
        }
    }
}

/// The name under which the engine stores the tree: text as given, raw bytes
/// as their base64 text, the default tree under its reserved name.
pub open spec fn engine_name(t: TreeName) -> Seq<char> {
    match t {
        TreeName::Default => default_tree_name(),
        TreeName::Text(s) => s,
        TreeName::Bytes(b) => base64_of(b),
    }
}

/// The tree that a wire tree name denotes: the empty text is the default tree,
/// any other text is base64 of the raw name; `None` when it is not base64.
pub open spec fn wire_tree(s: Seq<char>) -> Option<TreeName> {
    if s.len() == 0 {
        Some(TreeName::Default)
    } else {
        match base64_decoded(s) {
            Some(b) => Some(TreeName::Bytes(b)),
            None => None,
        }
    }
}

/// The tree that the client names by the raw bytes `raw`: empty bytes name the
/// default tree.
pub open spec fn raw_tree(raw: Seq<u8>) -> TreeName {
    if raw.len() == 0 {
        TreeName::Default
    } else {
        TreeName::Bytes(raw)
    }
}

/// The wire text of a tree.
pub open spec fn wire_text(t: TreeName) -> Seq<char> {
    match t {
        TreeName::Bytes(b) => base64_of(b),
        _ => Seq::empty(),
    }
}

impl DbTrees {
    /// The raw bytes that name the tree.
    pub fn raw(&self) -> (r: Vec<u8>)
        ensures
            r@ == match self@ {
                TreeName::Default => default_tree_bytes(),
                TreeName::Text(s) => vstd::utf8::encode_utf8(s),
                TreeName::Bytes(b) => b,
            },
    {
        match self {
            DbTrees::Custom(tree_key) => vstd::slice::slice_to_vec(tree_key.as_str().as_bytes()),
            DbTrees::Default => {
                proof {
                    reveal_strlit("__sled__default");
                }
                assert(DEFAULT_TREE_ID@ =~= default_tree_name());
                vstd::slice::slice_to_vec(DEFAULT_TREE_ID.as_bytes())
            },
            DbTrees::Binary(tree_key) => tree_key.clone(),
        }
    }

    /// The name under which the engine stores the tree.
    pub fn to_string(&self) -> (r: String)
        ensures
            r@ == engine_name(self@),
    {
        match self {
            DbTrees::Binary(tree_key) => b64_encode(tree_key.as_slice()),
            DbTrees::Custom(tree_key) => tree_key.clone(),
            DbTrees::Default => {
                proof {
                    reveal_strlit("__sled__default");
                }
                let r = DEFAULT_TREE_ID.to_owned();
                assert(r@ =~= default_tree_name());
                r
            },
        }
    }
}

/// Resolves a wire tree name: empty text is the default tree, other text is
/// decoded from base64 to the raw name. `None` when the text is not base64.
pub fn decode_wire(s: &str) -> (r: Option<DbTrees>)
    ensures
        r is Some <==> wire_tree(s@) is Some,
        r is Some ==> wire_tree(s@) == Some(r->Some_0@),
        r is Some ==> !(r->Some_0 is Custom),
{
    if s.is_empty() {
        Some(DbTrees::Default)
    } else {
        match b64_decode(s) {
            Ok(raw) => Some(DbTrees::Binary(raw)),
            Err(_) => None,
        }
    }
}

/// The wire name of the tree named by raw bytes (empty bytes: the default
/// tree). Decoding it gives back that tree, and encoding that tree again gives
/// back the same text.
pub fn encode_wire(raw: &[u8]) -> (r: String)
    ensures
        r@ == base64_of(raw@),
        wire_tree(r@) == Some(raw_tree(raw@)),
        wire_text(raw_tree(raw@)) == r@,
{
    let r = b64_encode(raw);
    proof {
        if raw@.len() == 0 {
            assert(r@.len() == 0);
        }
    }
    r
}

} // verus!
