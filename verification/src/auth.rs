//! Identity verification as an injected capability.
//!
//! Every mutating operation begins by proving that the caller is who it
//! claims to be.  The verification mechanism itself is an external
//! collaborator: the core only depends on this interface, satisfied by an
//! allow-list verifier here and by a real authentication backend in
//! production.

use vstd::prelude::*;
use crate::claim::Principal;

verus! {

/// The "prove identity of principal P" capability.
///
/// `allows` is the mathematical authorization predicate; `verify` is the
/// runtime check, and must decide exactly that predicate.
pub trait IdentityVerifier {
    /// Which principals this verifier accepts as authorized callers.
    spec fn allows(&self, p: Principal) -> bool;

    /// Confirm that the current call was authorized by `p`.
    fn verify(&self, p: &Principal) -> (r: bool)
        ensures
            r == self.allows(*p),
    ;
}

/// A verifier that authorizes exactly the principals on a fixed list.
pub struct AllowListVerifier {
    pub allowed: Vec<Principal>,
}

impl AllowListVerifier {
    pub fn new(allowed: Vec<Principal>) -> (v: Self)
        ensures
            v.allowed == allowed,
    {
        AllowListVerifier { allowed }
    }
}

impl IdentityVerifier for AllowListVerifier {
    open spec fn allows(&self, p: Principal) -> bool {
        self.allowed@.contains(p)
    }

    fn verify(&self, p: &Principal) -> (r: bool) {
        let mut i: usize = 0;
        while i < self.allowed.len()
            invariant
                i <= self.allowed@.len(),
                forall|j: int| 0 <= j < i ==> self.allowed@[j] != *p,
            decreases self.allowed@.len() - i,
        {
            if self.allowed[i].id == p.id {
                return true;
            }
            i = i + 1;
        }
        false
    }
}

} // verus!
