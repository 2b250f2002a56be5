//! A certificate and its private key as carried in the configuration: each a
//! PEM document, stored as base64 text.
use vstd::prelude::*;
use crate::codec::{b64_decode, b64_encode, base64_decoded, base64_of};
use crate::config::RPC;
use crate::error::DbError;

verus! {

#[verifier::external_type_specification]
#[verifier::external_body]
pub struct ExFromUtf8Error(std::string::FromUtf8Error);

/// Relies on `String::from_utf8`: succeeds exactly on valid UTF-8, with the
/// text the bytes encode.
#[verifier::external_body]
fn text_of_utf8(b: Vec<u8>) -> (r: Result<String, std::string::FromUtf8Error>)
    ensures
        r is Ok <==> vstd::utf8::valid_utf8(b@),
        r is Ok ==> r->Ok_0@ == vstd::utf8::decode_utf8(b@),
{
    String::from_utf8(b)
}

/// The text that base64 text `s` stands for, where it is base64 of valid
/// UTF-8.
pub open spec fn pem_of(s: Seq<char>) -> Option<Seq<char>> {
    match base64_decoded(s) {
        Some(b) => if vstd::utf8::valid_utf8(b) {
            Some(vstd::utf8::decode_utf8(b))
        } else {
            None
        },
        None => None,
    }
}

/// Decodes base64 text that holds a UTF-8 document.
fn decode_pem(s: &String) -> (r: Result<String, DbError>)
    ensures
        r is Ok <==> pem_of(s@) is Some,
        r is Ok ==> r->Ok_0@ == pem_of(s@)->Some_0,
{
    let bytes = match b64_decode(s.as_str()) {
        Ok(b) => b,
        Err(_) => return Err(DbError::CustomError("certificate material is not base64".to_owned())),
    };
    match text_of_utf8(bytes) {
        Ok(t) => Ok(t),
        Err(_) => Err(DbError::CustomError("certificate material is not UTF-8".to_owned())),
    }
}

/// A certificate and its key, each as base64 of its PEM document.
pub struct SelfSignedCert {
    /// base64 pem encoded keypair
    pub base64_key: String,
    /// base64 pem encoded certificate
    pub base64_cert: String,
    /// whether the certificate is a CA certificate; `None` where unknown
    pub is_ca: Option<bool>,
}

impl SelfSignedCert {
    /// Holds the PEM certificate and key as base64.
    pub fn from_pem(cert_pem: &str, key_pem: &str, is_ca: Option<bool>) -> (r: SelfSignedCert)
        ensures
            r.base64_cert@ == base64_of(crate::codec::bytes_of(cert_pem@)),
            r.base64_key@ == base64_of(crate::codec::bytes_of(key_pem@)),
            pem_of(r.base64_cert@) == Some(cert_pem@),
            pem_of(r.base64_key@) == Some(key_pem@),
            r.is_ca == is_ca,
    {
        proof {
            vstd::utf8::encode_utf8_valid_utf8(cert_pem@);
            vstd::utf8::encode_utf8_decode_utf8(cert_pem@);
            vstd::utf8::encode_utf8_valid_utf8(key_pem@);
            vstd::utf8::encode_utf8_decode_utf8(key_pem@);
        }
        SelfSignedCert {
            base64_cert: b64_encode(cert_pem.as_bytes()),
            base64_key: b64_encode(key_pem.as_bytes()),
            is_ca,
        }
    }

    /// The certificate material that the RPC options carry.
    pub fn from_rpc(rpc: &RPC) -> (r: SelfSignedCert)
        ensures
            r.base64_cert@ == rpc.tls_cert@,
            r.base64_key@ == rpc.tls_key@,
            r.is_ca is None,
    {
        SelfSignedCert { base64_cert: rpc.tls_cert.clone(), base64_key: rpc.tls_key.clone(), is_ca: None }
    }

    /// The PEM private key.
    pub fn key(&self) -> (r: Result<String, DbError>)
        ensures
            r is Ok <==> pem_of(self.base64_key@) is Some,
            r is Ok ==> r->Ok_0@ == pem_of(self.base64_key@)->Some_0,
    {
        decode_pem(&self.base64_key)
    }

    /// The PEM certificate.
    pub fn cert(&self) -> (r: Result<String, DbError>)
        ensures
            r is Ok <==> pem_of(self.base64_cert@) is Some,
            r is Ok ==> r->Ok_0@ == pem_of(self.base64_cert@)->Some_0,
    {
        decode_pem(&self.base64_cert)
    }
}

} // verus!
