//! The claim registry, document ledger, status engine and notification
//! builder: every state-changing rule of the system, stated and proved.
//!
//! The durable key-value store is modelled in memory: the counter scalar
//! (persisted under [`StorageKey::ClaimID`]) and one record per issued claim
//! id.  Claim ids are issued consecutively starting at 1 and never reused, so
//! the record for claim `id` lives at position `id - 1`.

use vstd::prelude::*;
use crate::auth::IdentityVerifier;
use crate::claim::{ClaimError, ClaimStatus, ClaimView, InsuranceClaim, Principal};

verus! {

/// Keys of the singleton slots in the durable store.  Claim records are
/// keyed by their claim id directly.
#[derive(Clone, Copy, PartialEq, Eq, Structural, Debug)]
pub enum StorageKey {
    /// The slot holding the highest claim id issued so far.
    ClaimID,
}

/// A structured record describing one state-changing operation, handed to
/// the external notification channel (kind tag plus ordered fields).
#[derive(Debug)]
pub enum Notification {
    ClaimCreated { claim_id: u64, claimant: Principal, policy_number: String },
    DocumentAdded { claim_id: u64, document_url: String },
    StatusUpdated { claim_id: u64, new_status: ClaimStatus },
}

/// The claim store: the monotonic claim-id counter and the claim-by-id
/// index, both persisted by the enclosing host between invocations.
pub struct InsuranceContract {
    counter: u64,
    claims: Vec<InsuranceClaim>,
}

impl InsuranceContract {
    /// The highest claim id issued so far; 0 if none.
    pub closed spec fn last_id(self) -> u64 {
        self.counter
    }

    /// All claim records, in order of creation: the claim with id `i`
    /// (ids start at 1) is element `i - 1`.
    pub closed spec fn claim_seq(self) -> Seq<ClaimView> {
        self.claims@.map_values(|c: InsuranceClaim| c@)
    }

    /// Store invariant: every id from 1 up to the counter has exactly one
    /// record, and no other id has one.
    pub open spec fn wf(self) -> bool {
        self.last_id() as nat == self.claim_seq().len()
    }

    /// Whether a record exists under `claim_id`.
    pub open spec fn has_claim(self, claim_id: u64) -> bool {
        1 <= claim_id && claim_id as nat <= self.claim_seq().len()
    }

    /// The record stored under `claim_id`.
    pub open spec fn claim_at(self, claim_id: u64) -> ClaimView
        recommends
            self.has_claim(claim_id),
    {
        self.claim_seq()[claim_id as int - 1]
    }

    /// An empty store: no claims issued yet.
    pub fn new() -> (c: Self)
        ensures
            c.wf(),
            c.last_id() == 0,
            c.claim_seq() == Seq::<ClaimView>::empty(),
    {
        let c = InsuranceContract { counter: 0, claims: Vec::new() };
        proof {
            assert(c.claim_seq() =~= Seq::<ClaimView>::empty());
        }
        c
    }

    /// The persisted counter value: the highest claim id issued so far.
    pub fn counter_value(&self) -> (n: u64)
        ensures
            n == self.last_id(),
    {
        self.counter
    }

    /// Register a new claim: increments the persisted counter, records a
    /// `Pending` claim with the given fields under the new id, and returns
    /// that id.  Fails with `Unauthorized`, touching nothing, if the caller
    /// cannot prove its identity.
    pub fn create_claim<V: IdentityVerifier>(
        &mut self,
        verifier: &V,
        from: Principal,
        claimant: Principal,
        policy_number: String,
        initial_documents: Vec<String>,
    ) -> (r: Result<u64, ClaimError>)
        requires
            old(self).wf(),
            old(self).last_id() < u64::MAX,
        ensures
            final(self).wf(),
            !verifier.allows(from) ==> r == Err::<u64, ClaimError>(ClaimError::Unauthorized)
                && *final(self) == *old(self),
            verifier.allows(from) ==> (r matches Ok(id) && create_step(
                *old(self),
                *final(self),
                id,
                claimant,
                policy_number@,
                initial_documents@.map_values(|d: String| d@),
            )),
    {
        if !verifier.verify(&from) {
            return Err(ClaimError::Unauthorized);
        }
        let claim_id: u64 = self.counter + 1;
        let claim = InsuranceClaim {
            claimant,
            policy_number,
            documents: initial_documents,
            status: ClaimStatus::Pending,
        };
        self.counter = claim_id;
        self.claims.push(claim);
        proof {
            assert(self.claim_seq() =~= old(self).claim_seq().push(
                ClaimView {
                    claimant,
                    policy_number: policy_number@,
                    documents: initial_documents@.map_values(|d: String| d@),
                    status: ClaimStatus::Pending,
                },
            ));
        }
        Ok(claim_id)
    }

    /// Read the claim stored under `claim_id`; `NotFound` if there is none.
    /// Reads are not authorization-gated.
    pub fn get_claim(&self, claim_id: u64) -> (r: Result<&InsuranceClaim, ClaimError>)
        requires
            self.wf(),
        ensures
            self.has_claim(claim_id) ==> (r matches Ok(c) && c@ == self.claim_at(claim_id)),
            !self.has_claim(claim_id) ==> r == Err::<&InsuranceClaim, ClaimError>(
                ClaimError::NotFound,
            ),
    {
        let n = self.claims.len();
        if 1 <= claim_id && claim_id - 1 < n as u64 {
            let idx = (claim_id - 1) as usize;
            Ok(&self.claims[idx])
        } else {
            Err(ClaimError::NotFound)
        }
    }

    /// Append `document_url` to the documents of the claim under `claim_id`,
    /// keeping every existing entry in place.  Fails with `Unauthorized` or
    /// `NotFound`, touching nothing.
    pub fn add_document<V: IdentityVerifier>(
        &mut self,
        verifier: &V,
        from: Principal,
        claim_id: u64,
        document_url: String,
    ) -> (r: Result<(), ClaimError>)
        requires
            old(self).wf(),
        ensures
            final(self).wf(),
            !verifier.allows(from) ==> r == Err::<(), ClaimError>(ClaimError::Unauthorized)
                && *final(self) == *old(self),
            verifier.allows(from) && !old(self).has_claim(claim_id) ==> r == Err::<(), ClaimError>(
                ClaimError::NotFound,
            ) && *final(self) == *old(self),
            verifier.allows(from) && old(self).has_claim(claim_id) ==> r == Ok::<(), ClaimError>(())
                && add_document_step(*old(self), *final(self), claim_id, document_url@),
    {
        if !verifier.verify(&from) {
            return Err(ClaimError::Unauthorized);
        }
        let n = self.claims.len();
        if !(1 <= claim_id && claim_id - 1 < n as u64) {
            return Err(ClaimError::NotFound);
        }
        let idx = (claim_id - 1) as usize;
        let claim = &mut self.claims[idx];
        claim.documents.push(document_url);
        proof {
            assert(self.claim_seq() =~~= old(self).claim_seq().update(
                claim_id as int - 1,
                ClaimView {
                    claimant: old(self).claim_at(claim_id).claimant,
                    policy_number: old(self).claim_at(claim_id).policy_number,
                    documents: old(self).claim_at(claim_id).documents.push(document_url@),
                    status: old(self).claim_at(claim_id).status,
                },
            ));
        }
        Ok(())
    }

    /// Replace the status of the claim under `claim_id` with `new_status`.
    /// Any of the four states may be set; there is no transition
    /// restriction.  Fails with `Unauthorized` or `NotFound`, touching
    /// nothing.
    pub fn process_claim<V: IdentityVerifier>(
        &mut self,
        verifier: &V,
        from: Principal,
        claim_id: u64,
        new_status: ClaimStatus,
    ) -> (r: Result<(), ClaimError>)
        requires
            old(self).wf(),
        ensures
            final(self).wf(),
            !verifier.allows(from) ==> r == Err::<(), ClaimError>(ClaimError::Unauthorized)
                && *final(self) == *old(self),
            verifier.allows(from) && !old(self).has_claim(claim_id) ==> r == Err::<(), ClaimError>(
                ClaimError::NotFound,
            ) && *final(self) == *old(self),
            verifier.allows(from) && old(self).has_claim(claim_id) ==> r == Ok::<(), ClaimError>(())
                && update_status_step(*old(self), *final(self), claim_id, new_status),
    {
        if !verifier.verify(&from) {
            return Err(ClaimError::Unauthorized);
        }
        let n = self.claims.len();
        if !(1 <= claim_id && claim_id - 1 < n as u64) {
            return Err(ClaimError::NotFound);
        }
        let idx = (claim_id - 1) as usize;
        let claim = &mut self.claims[idx];
        claim.status = new_status;
        proof {
            assert(self.claim_seq() =~~= old(self).claim_seq().update(
                claim_id as int - 1,
                ClaimView {
                    claimant: old(self).claim_at(claim_id).claimant,
                    policy_number: old(self).claim_at(claim_id).policy_number,
                    documents: old(self).claim_at(claim_id).documents,
                    status: new_status,
                },
            ));
        }
        Ok(())
    }

    /// Build the "claim created" notification for the external channel.
    pub fn event_claim_created(claim_id: u64, claimant: Principal, policy_number: &str) -> (n:
        Notification)
        ensures
            n matches Notification::ClaimCreated { claim_id: c, claimant: who, policy_number: p }
                && c == claim_id && who == claimant && p@ == policy_number@,
    {
        Notification::ClaimCreated { claim_id, claimant, policy_number: policy_number.to_owned() }
    }

    /// Build the "document added" notification for the external channel.
    pub fn event_document_added(claim_id: u64, document_url: &str) -> (n: Notification)
        ensures
            n matches Notification::DocumentAdded { claim_id: c, document_url: d } && c == claim_id
                && d@ == document_url@,
    {
        Notification::DocumentAdded { claim_id, document_url: document_url.to_owned() }
    }

    /// Build the "claim status updated" notification for the external
    /// channel.
    pub fn event_claim_status_updated(claim_id: u64, new_status: ClaimStatus) -> (n: Notification)
        ensures
            n matches Notification::StatusUpdated { claim_id: c, new_status: s } && c == claim_id
                && s == new_status,
    {
        Notification::StatusUpdated { claim_id, new_status }
    }
}

/// What one successful `create_claim` does to the store: the counter moves
/// up by one, the new id is the new counter value, and one `Pending` record
/// with the given fields is added under it; nothing else changes.
pub open spec fn create_step(
    pre: InsuranceContract,
    post: InsuranceContract,
    id: u64,
    claimant: Principal,
    policy_number: Seq<char>,
    documents: Seq<Seq<char>>,
) -> bool {
    &&& id == pre.last_id() + 1
    &&& post.last_id() == pre.last_id() + 1
    &&& post.claim_seq() == pre.claim_seq().push(
        ClaimView { claimant, policy_number, documents, status: ClaimStatus::Pending },
    )
}

/// What one successful `add_document` does to the store: the record under
/// `claim_id` gets `document_url` appended to its documents, its other
/// fields and every other record stay as they were.
pub open spec fn add_document_step(
    pre: InsuranceContract,
    post: InsuranceContract,
    claim_id: u64,
    document_url: Seq<char>,
) -> bool {
    &&& pre.has_claim(claim_id)
    &&& post.last_id() == pre.last_id()
    &&& post.claim_seq() == pre.claim_seq().update(
        claim_id as int - 1,
        ClaimView {
            claimant: pre.claim_at(claim_id).claimant,
            policy_number: pre.claim_at(claim_id).policy_number,
            documents: pre.claim_at(claim_id).documents.push(document_url),
            status: pre.claim_at(claim_id).status,
        },
    )
}

/// What one successful `process_claim` does to the store: the record under
/// `claim_id` gets `new_status`, its other fields and every other record
/// stay as they were.
pub open spec fn update_status_step(
    pre: InsuranceContract,
    post: InsuranceContract,
    claim_id: u64,
    new_status: ClaimStatus,
) -> bool {
    &&& pre.has_claim(claim_id)
    &&& post.last_id() == pre.last_id()
    &&& post.claim_seq() == pre.claim_seq().update(
        claim_id as int - 1,
        ClaimView {
            claimant: pre.claim_at(claim_id).claimant,
            policy_number: pre.claim_at(claim_id).policy_number,
            documents: pre.claim_at(claim_id).documents,
            status: new_status,
        },
    )
}

} // verus!
