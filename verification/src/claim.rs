//! Claim records and the errors that claim operations can surface.

use vstd::prelude::*;

verus! {

/// An opaque principal identity: a party that can file claims or be
/// authenticated as the caller of an operation.
#[derive(Clone, Copy, PartialEq, Eq, Structural, Debug)]
pub struct Principal {
    pub id: u64,
}

/// Processing state of a claim.  A claim starts out `Pending`; any of the
/// four states may be set later, there is no transition restriction and no
/// terminal state.
#[derive(Clone, Copy, PartialEq, Eq, Structural, Debug)]
pub enum ClaimStatus {
    Pending,
    InProgress,
    Approved,
    Denied,
}

/// Why a claim operation failed.
#[derive(Clone, Copy, PartialEq, Eq, Structural, Debug)]
pub enum ClaimError {
    /// Identity verification of the caller failed.
    Unauthorized,
    /// The referenced claim id has no record.
    NotFound,
}

/// One insurance claim record.
#[derive(Debug)]
pub struct InsuranceClaim {
    /// The party that filed the claim (recorded, not authenticated).
    pub claimant: Principal,
    /// Immutable after creation.
    pub policy_number: String,
    /// Ordered document references, append-only.
    pub documents: Vec<String>,
    pub status: ClaimStatus,
}

/// Mathematical model of a claim record, used by all contracts.
#[verifier::ext_equal]
pub ghost struct ClaimView {
    pub claimant: Principal,
    pub policy_number: Seq<char>,
    pub documents: Seq<Seq<char>>,
    pub status: ClaimStatus,
}

impl View for InsuranceClaim {
    type V = ClaimView;

    open spec fn view(&self) -> ClaimView {
        ClaimView {
            claimant: self.claimant,
            policy_number: self.policy_number@,
            documents: self.documents@.map_values(|d: String| d@),
            status: self.status,
        }
    }
}

} // verus!
