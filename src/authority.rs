//! Who is asking: the identity resolved for one request.
use vstd::prelude::*;

verus! {

/// The caller of a request: nobody known, or a signed-in user.
pub enum Authority {
    Anonymous,
    User { id: String, email: String, name: String },
}

impl Authority {
    /// The identifier of the signed-in user, if there is one.
    pub fn user_id(&self) -> (r: Option<String>)
        ensures
            r == user_of(*self),
    {
        match self {
            Authority::Anonymous => None,
            Authority::User { id, .. } => Some(id.clone()),
        }
    }
}

/// The identifier of the signed-in user behind `a`, if any.
pub open spec fn user_of(a: Authority) -> Option<String> {
    match a {
        Authority::Anonymous => None,
        Authority::User { id, .. } => Some(id),
    }
}

} // verus!
