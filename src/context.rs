//! The per-request context: who is asking, which origin may read the
//! answer, and how large a body the request may send.
use vstd::prelude::*;
use crate::authority::Authority;
use crate::http::Method;

verus! {

/// What the protocol recognizer found in a request head, as plain values.
pub struct RequestHead {
    pub method: Option<Method>,
    pub path: Option<String>,
    /// The value of the `Authorization` header, if one was sent.
    pub authorization: Option<String>,
}

/// The immutable bundle a handler works with.
pub struct Context {
    pub authority: Authority,
    pub cors: String,
    pub pending: usize,
}

/// What every request of a server shares: the origin allowed to read
/// responses and the largest body a request may send.
pub struct ContextBuilder {
    pub cors: String,
    pub pending: usize,
}

impl Context {
    /// The caller of this request.
    pub fn authority(&self) -> (r: &Authority)
        ensures
            r == &self.authority,
    {
        &self.authority
    }

    /// The origin allowed to read responses.
    pub fn cors(&self) -> (r: &String)
        ensures
            r == &self.cors,
    {
        &self.cors
    }

    /// The largest request body, in bytes, that a handler reads.
    pub fn pending(&self) -> (r: usize)
        ensures
            r == self.pending,
    {
        self.pending
    }
}

impl ContextBuilder {
    /// The session token that a request head presents: its non-empty
    /// `Authorization` header.
    pub fn session_token(head: &RequestHead) -> (r: Option<String>)
        ensures
            r matches Some(t) ==> head.authorization == Some(t) && t@.len() > 0,
            r is None ==> head.authorization is None || head.authorization->0@.len() == 0,
    {
        match &head.authorization {
            Some(t) => {
                if t.as_str().unicode_len() > 0 {
                    Some(t.clone())
                } else {
                    None
                }
            },
            None => None,
        }
    }

    /// The context of one request, given what the session store resolved its
    /// token to. A token the store does not know leaves the caller anonymous.
    pub fn for_request(&self, resolved: Option<Authority>) -> (r: Context)
        ensures
            r.cors == self.cors,
            r.pending == self.pending,
            r.authority == match resolved {
                Some(a) => a,
                None => Authority::Anonymous,
            },
    {
        let authority = match resolved {
            Some(a) => a,
            None => Authority::Anonymous,
        };
        Context { authority, cors: self.cors.clone(), pending: self.pending }
    }
}

} // verus!
