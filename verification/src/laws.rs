//! The guarantees the library makes across operations, each proved from the
//! step predicates that the operations' own contracts establish.

use vstd::prelude::*;
use crate::claim::{ClaimStatus, ClaimView, Principal};
use crate::contract::{
    add_document_step, create_step, update_status_step, InsuranceContract,
};

verus! {

/// Ids handed out by `create_claim` are strictly increasing by one and never
/// repeat: whenever one creation follows another, the second id is exactly
/// the first plus one.
pub proof fn lemma_created_ids_consecutive(
    s0: InsuranceContract,
    s1: InsuranceContract,
    s2: InsuranceContract,
    id1: u64,
    id2: u64,
    claimant1: Principal,
    claimant2: Principal,
    policy1: Seq<char>,
    policy2: Seq<char>,
    docs1: Seq<Seq<char>>,
    docs2: Seq<Seq<char>>,
)
    requires
        create_step(s0, s1, id1, claimant1, policy1, docs1),
        create_step(s1, s2, id2, claimant2, policy2, docs2),
    ensures
        id2 == id1 + 1,
        id1 < id2,
{
}

/// Reading a claim right after creating it yields a `Pending` record holding
/// exactly the claimant, policy number and initial documents that were
/// handed to `create_claim`, the documents in the same order.  The new id
/// was not in use before the call, and every existing record is untouched.
pub proof fn lemma_create_then_get(
    pre: InsuranceContract,
    post: InsuranceContract,
    id: u64,
    claimant: Principal,
    policy_number: Seq<char>,
    documents: Seq<Seq<char>>,
)
    requires
        pre.wf(),
        create_step(pre, post, id, claimant, policy_number, documents),
    ensures
        !pre.has_claim(id),
        post.has_claim(id),
        post.claim_at(id) == (ClaimView {
            claimant,
            policy_number,
            documents,
            status: ClaimStatus::Pending,
        }),
        forall|other: u64| pre.has_claim(other) ==> post.has_claim(other)
            && post.claim_at(other) == pre.claim_at(other),
{
}

/// `add_document` is append-only: the documents of the targeted claim grow
/// by exactly the new reference, so what was stored before is a strict
/// prefix of what is stored after; every claim's old document sequence is a
/// prefix of its new one, and no other field of any claim changes.
pub proof fn lemma_add_document_append_only(
    pre: InsuranceContract,
    post: InsuranceContract,
    claim_id: u64,
    document_url: Seq<char>,
)
    requires
        pre.wf(),
        add_document_step(pre, post, claim_id, document_url),
    ensures
        forall|id: u64| pre.has_claim(id) ==> post.has_claim(id)
            && #[trigger] pre.claim_at(id).documents.is_prefix_of(post.claim_at(id).documents),
        post.claim_at(claim_id).documents == pre.claim_at(claim_id).documents.push(document_url),
        pre.claim_at(claim_id).documents.len() < post.claim_at(claim_id).documents.len(),
        forall|id: u64| pre.has_claim(id) ==> {
            &&& #[trigger] post.claim_at(id).claimant == pre.claim_at(id).claimant
            &&& post.claim_at(id).policy_number == pre.claim_at(id).policy_number
            &&& post.claim_at(id).status == pre.claim_at(id).status
        },
        forall|id: u64| pre.has_claim(id) && id != claim_id ==> #[trigger] post.claim_at(id)
            == pre.claim_at(id),
{
    assert forall|id: u64| pre.has_claim(id) implies post.has_claim(id)
        && #[trigger] pre.claim_at(id).documents.is_prefix_of(post.claim_at(id).documents) by {
        let docs = pre.claim_at(id).documents;
        if id == claim_id {
            assert(docs.is_prefix_of(docs.push(document_url))) by {
                assert(docs =~= docs.push(document_url).subrange(0, docs.len() as int));
            }
        } else {
            assert(docs.is_prefix_of(docs)) by {
                assert(docs =~= docs.subrange(0, docs.len() as int));
            }
        }
    }
}

/// After `process_claim` sets a status, reading the claim yields exactly
/// that status, whatever the prior status was; nothing else about any claim
/// changes.
pub proof fn lemma_update_status_then_get(
    pre: InsuranceContract,
    post: InsuranceContract,
    claim_id: u64,
    new_status: ClaimStatus,
)
    requires
        pre.wf(),
        update_status_step(pre, post, claim_id, new_status),
    ensures
        post.has_claim(claim_id),
        post.claim_at(claim_id).status == new_status,
        post.claim_at(claim_id).claimant == pre.claim_at(claim_id).claimant,
        post.claim_at(claim_id).policy_number == pre.claim_at(claim_id).policy_number,
        post.claim_at(claim_id).documents == pre.claim_at(claim_id).documents,
        forall|id: u64| pre.has_claim(id) && id != claim_id ==> #[trigger] post.claim_at(id)
            == pre.claim_at(id),
{
}

} // verus!
