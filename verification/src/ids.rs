//! Identity types: principals (actor identifiers of at most 29 bytes) and the
//! user identities and canister addresses derived from them.

use vstd::prelude::*;

verus! {

/// An actor identifier: an opaque byte string of at most 29 bytes.
pub struct Principal {
    pub bytes: Vec<u8>,
}

/// A canister (service) address is a principal.
pub type CanisterId = Principal;

/// A point in time, in nanoseconds since the epoch.
pub type TimestampNanos = u64;

impl View for Principal {
    type V = Seq<u8>;

    open spec fn view(&self) -> Seq<u8> {
        self.bytes@
    }
}

impl Principal {
    /// A principal is well formed when it fits in 29 bytes.
    pub open spec fn wf(&self) -> bool {
        self.bytes@.len() <= 29
    }

    pub fn from_bytes(bytes: Vec<u8>) -> (p: Principal)
        requires
            bytes@.len() <= 29,
        ensures
            p@ == bytes@,
            p.wf(),
    {
        Principal { bytes }
    }

    pub fn eq_principal(&self, other: &Principal) -> (r: bool)
        ensures
            r == (self@ == other@),
    {
        bytes_eq(&self.bytes, &other.bytes)
    }
}

impl Clone for Principal {
    fn clone(&self) -> (r: Self)
        ensures
            r@ == self@,
            r.wf() == self.wf(),
    {
        Principal { bytes: vstd::slice::slice_to_vec(self.bytes.as_slice()) }
    }
}

/// A logical user identity; it is addressed by a principal.
pub struct UserId {
    pub principal: Principal,
}

impl View for UserId {
    type V = Seq<u8>;

    open spec fn view(&self) -> Seq<u8> {
        self.principal@
    }
}

impl UserId {
    pub open spec fn wf(&self) -> bool {
        self.principal.wf()
    }

    pub fn from_principal(principal: Principal) -> (u: UserId)
        ensures
            u@ == principal@,
    {
        UserId { principal }
    }

    pub fn into_principal(self) -> (p: Principal)
        ensures
            p@ == self@,
    {
        self.principal
    }

    pub fn eq_user(&self, other: &UserId) -> (r: bool)
        ensures
            r == (self@ == other@),
    {
        self.principal.eq_principal(&other.principal)
    }
}

impl Clone for UserId {
    fn clone(&self) -> (r: Self)
        ensures
            r@ == self@,
            r.wf() == self.wf(),
    {
        UserId { principal: self.principal.clone() }
    }
}

/// Byte-for-byte equality of two byte vectors.
pub fn bytes_eq(a: &Vec<u8>, b: &Vec<u8>) -> (r: bool)
    ensures
        r == (a@ == b@),
{
    if a.len() != b.len() {
        proof {
            assert(a@ != b@);
        }
        return false;
    }
    let n = a.len();
    let mut i: usize = 0;
    while i < n
        invariant
            n == a@.len() == b@.len(),
            0 <= i <= n,
            forall|j: int| 0 <= j < i ==> a@[j] == b@[j],
        decreases n - i,
    {
        if a[i] != b[i] {
            proof {
                assert(a@ != b@);
            }
            return false;
        }
        i += 1;
    }
    proof {
        assert(a@ =~= b@);
    }
    true
}

} // verus!
