//! The messages of the key-value service.
use vstd::prelude::*;
use crate::batch::DbKey;
use crate::error::DbError;

verus! {

/// One record handed to a batched put.
#[derive(Debug)]
pub struct BatchPutEntry {
    pub key: Vec<u8>,
    pub value: Vec<u8>,
}

/// The empty response of a write.
#[derive(PartialEq, Eq, Structural, Clone, Copy, Debug)]
pub struct Empty;

/// Whether a key is present.
#[derive(PartialEq, Eq, Structural, Clone, Copy, Debug)]
pub enum Exists {
    Found,
    NotFound,
}

impl Exists {
    /// `true` for `Found`.
    pub fn bool(&self) -> (r: bool)
        ensures
            r == (*self == Exists::Found),
    {
        match self {
            Exists::Found => true,
            Exists::NotFound => false,
        }
    }
}

/// A record of a tree.
#[derive(Debug)]
pub struct KeyValue {
    pub key: Vec<u8>,
    pub value: Vec<u8>,
}

/// The records of a tree.
pub type Values = Vec<KeyValue>;

/// A batched insert: for each wire tree name (empty for the default tree,
/// else base64 of the raw name), the records to insert there.
#[derive(Debug)]
pub struct PutKVsRequest {
    pub entries: Vec<(String, Vec<KeyValue>)>,
}

/// A batched removal: for each wire tree name, the keys to remove there.
#[derive(Debug)]
pub struct DeleteKVsRequest {
    pub entries: Vec<(String, Vec<Vec<u8>>)>,
}

/// A batched presence query: for each wire tree name, the keys to look up.
#[derive(Debug)]
pub struct ExistsKVsRequest {
    pub entries: Vec<(String, Vec<Vec<u8>>)>,
}

/// The answer to a batched presence query: for each wire tree name, each key
/// (as its base64 text) with whether it is present.
#[derive(Debug)]
pub struct ExistKVsResponse {
    pub entries: Vec<(String, Vec<(String, Exists)>)>,
}

/// The answer of the health check.
#[derive(PartialEq, Eq, Structural, Clone, Copy, Debug)]
pub struct HealthCheck {
    pub ok: bool,
}

/// A value to store together with the key it is stored under; the key is not
/// part of the stored value.
#[derive(Debug)]
pub struct KeystoreValue {
    pub key: Vec<u8>,
    pub value: Vec<u8>,
}

impl DbKey for KeystoreValue {
    fn key(&self) -> Result<Vec<u8>, DbError> {
        Ok(self.key.clone())
    }
}

} // verus!
