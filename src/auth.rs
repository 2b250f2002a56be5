//! The bearer-token check made on every request, and the header a client
//! attaches.
use vstd::prelude::*;
use crate::codec::bytes_of;
use crate::error::{Code, Status};

verus! {

/// Whether a request whose `authorization` header is `header` may proceed
/// where the configured token is `token`: always where no token is configured
/// (empty), else only where the header is byte for byte the token.
pub open spec fn authorized(token: Seq<u8>, header: Option<Seq<u8>>) -> bool {
    token.len() == 0 || header == Some(token)
}

/// The view of an optional header value.
pub open spec fn header_view(header: Option<&[u8]>) -> Option<Seq<u8>> {
    match header {
        Some(h) => Some(h@),
        None => None,
    }
}

/// The message of a rejected request.
pub open spec fn rejection_message() -> Seq<char> {
    seq!['N', 'o', ' ', 'v', 'a', 'l', 'i', 'd', ' ', 'a', 'u', 't', 'h', ' ', 't', 'o', 'k', 'e', 'n']
}

/// Lets the request through, or fails it with `Unauthenticated` ("No valid
/// auth token") where a token is configured and the request's
/// `authorization` header is absent or differs from it.
pub fn check_auth(token: &str, header: Option<&[u8]>) -> (r: Result<(), Status>)
    ensures
        r is Ok <==> authorized(bytes_of(token@), header_view(header)),
        r is Err ==> r->Err_0.code == Code::Unauthenticated && r->Err_0.msg@ == rejection_message(),
{
    let t = token.as_bytes();
    let pass = if t.len() == 0 {
        true
    } else {
        match header {
            Some(h) => crate::engine::bytes_eq(h, t),
            None => false,
        }
    };
    if pass {
        Ok(())
    } else {
        proof {
            reveal_strlit("No valid auth token");
        }
        let msg = "No valid auth token".to_owned();
        assert(msg@ =~= rejection_message());
        Err(Status::new(Code::Unauthenticated, msg))
    }
}

/// The `authorization` header a client attaches: the token verbatim, where
/// one is configured.
pub fn authorization_header(token: &str) -> (r: Option<String>)
    ensures
        token@.len() == 0 ==> r is None,
        token@.len() > 0 ==> r is Some && r->Some_0@ == token@,
{
    if token.is_empty() {
        None
    } else {
        Some(token.to_owned())
    }
}

} // verus!
