use insurance_claim::auth::{AllowListVerifier, IdentityVerifier};
use insurance_claim::claim::{ClaimError, ClaimStatus, Principal};
use insurance_claim::contract::{InsuranceContract, Notification};

fn verifier_for(p: Principal) -> AllowListVerifier {
    AllowListVerifier::new(vec![p])
}

#[test]
fn create_add_update_get_composes() {
    let mut store = InsuranceContract::new();
    let caller = Principal { id: 1 };
    let claimant = Principal { id: 2 };
    let v = verifier_for(caller);

    let id = store
        .create_claim(&v, caller, claimant, "POL-1".to_string(), Vec::new())
        .unwrap();
    assert_eq!(id, 1);
    {
        let claim = store.get_claim(1).unwrap();
        assert_eq!(claim.status, ClaimStatus::Pending);
        assert!(claim.documents.is_empty());
    }

    store
        .add_document(&v, caller, 1, "doc://a".to_string())
        .unwrap();
    {
        let claim = store.get_claim(1).unwrap();
        assert_eq!(claim.documents, vec!["doc://a"]);
    }

    store
        .process_claim(&v, caller, 1, ClaimStatus::Approved)
        .unwrap();
    let claim = store.get_claim(1).unwrap();
    assert_eq!(claim.claimant, claimant);
    assert_eq!(claim.policy_number, "POL-1");
    assert_eq!(claim.documents, vec!["doc://a"]);
    assert_eq!(claim.status, ClaimStatus::Approved);
}

#[test]
fn add_document_on_empty_store_fails_not_found() {
    let mut store = InsuranceContract::new();
    let caller = Principal { id: 1 };
    let v = verifier_for(caller);

    let r = store.add_document(&v, caller, 999, "doc://x".to_string());
    assert_eq!(r, Err(ClaimError::NotFound));
}

#[test]
fn created_ids_start_at_one_and_increase_by_one() {
    let mut store = InsuranceContract::new();
    let caller = Principal { id: 1 };
    let v = verifier_for(caller);

    let mut previous: Option<u64> = None;
    for _ in 0..5 {
        let id = store
            .create_claim(&v, caller, caller, "POL".to_string(), Vec::new())
            .unwrap();
        match previous {
            None => assert_eq!(id, 1),
            Some(p) => assert_eq!(id, p + 1),
        }
        previous = Some(id);
    }
}

#[test]
fn create_records_initial_documents_in_order() {
    let mut store = InsuranceContract::new();
    let caller = Principal { id: 4 };
    let claimant = Principal { id: 5 };
    let v = verifier_for(caller);

    let docs = vec!["doc://first".to_string(), "doc://second".to_string()];
    let id = store
        .create_claim(&v, caller, claimant, "POL-9".to_string(), docs)
        .unwrap();
    let claim = store.get_claim(id).unwrap();
    assert_eq!(claim.status, ClaimStatus::Pending);
    assert_eq!(claim.claimant, claimant);
    assert_eq!(claim.policy_number, "POL-9");
    assert_eq!(claim.documents, vec!["doc://first", "doc://second"]);
}

#[test]
fn add_document_is_append_only() {
    let mut store = InsuranceContract::new();
    let caller = Principal { id: 1 };
    let v = verifier_for(caller);

    store
        .create_claim(&v, caller, caller, "POL".to_string(), vec!["doc://0".to_string()])
        .unwrap();
    let before = store.get_claim(1).unwrap().documents.clone();
    store
        .add_document(&v, caller, 1, "doc://1".to_string())
        .unwrap();
    let after = store.get_claim(1).unwrap().documents.clone();

    assert_eq!(&after[..before.len()], &before[..]);
    assert_eq!(after.len(), before.len() + 1);
    assert_eq!(after, vec!["doc://0", "doc://1"]);
}

#[test]
fn status_updates_are_unrestricted() {
    let mut store = InsuranceContract::new();
    let caller = Principal { id: 1 };
    let v = verifier_for(caller);

    store
        .create_claim(&v, caller, caller, "POL".to_string(), Vec::new())
        .unwrap();
    for status in [
        ClaimStatus::Approved,
        ClaimStatus::Pending,
        ClaimStatus::Denied,
        ClaimStatus::InProgress,
        ClaimStatus::Denied,
    ] {
        store.process_claim(&v, caller, 1, status).unwrap();
        assert_eq!(store.get_claim(1).unwrap().status, status);
    }
}

#[test]
fn unauthorized_caller_changes_nothing() {
    let mut store = InsuranceContract::new();
    let caller = Principal { id: 1 };
    let stranger = Principal { id: 66 };
    let v = verifier_for(caller);

    store
        .create_claim(&v, caller, caller, "POL".to_string(), Vec::new())
        .unwrap();

    let r = store.create_claim(&v, stranger, stranger, "POL-2".to_string(), Vec::new());
    assert_eq!(r, Err(ClaimError::Unauthorized));
    let r = store.add_document(&v, stranger, 1, "doc://evil".to_string());
    assert_eq!(r, Err(ClaimError::Unauthorized));
    let r = store.process_claim(&v, stranger, 1, ClaimStatus::Approved);
    assert_eq!(r, Err(ClaimError::Unauthorized));

    let claim = store.get_claim(1).unwrap();
    assert_eq!(claim.policy_number, "POL");
    assert!(claim.documents.is_empty());
    assert_eq!(claim.status, ClaimStatus::Pending);
    assert!(matches!(store.get_claim(2), Err(ClaimError::NotFound)));
}

#[test]
fn operations_on_missing_claims_fail_not_found() {
    let mut store = InsuranceContract::new();
    let caller = Principal { id: 1 };
    let v = verifier_for(caller);

    store
        .create_claim(&v, caller, caller, "POL".to_string(), Vec::new())
        .unwrap();

    assert!(matches!(store.get_claim(0), Err(ClaimError::NotFound)));
    assert!(matches!(store.get_claim(2), Err(ClaimError::NotFound)));
    assert_eq!(
        store.process_claim(&v, caller, 2, ClaimStatus::Denied),
        Err(ClaimError::NotFound)
    );
    assert_eq!(
        store.add_document(&v, caller, 0, "doc://x".to_string()),
        Err(ClaimError::NotFound)
    );
    // The failed calls left the one existing claim untouched.
    let claim = store.get_claim(1).unwrap();
    assert_eq!(claim.status, ClaimStatus::Pending);
    assert!(claim.documents.is_empty());
}

#[test]
fn allow_list_verifier_decides_membership() {
    let a = Principal { id: 1 };
    let b = Principal { id: 2 };
    let v = AllowListVerifier::new(vec![a]);
    assert!(v.verify(&a));
    assert!(!v.verify(&b));
    let empty = AllowListVerifier::new(Vec::new());
    assert!(!empty.verify(&a));
}

#[test]
fn event_claim_created_carries_fields() {
    let claimant = Principal { id: 3 };
    let n = InsuranceContract::event_claim_created(7, claimant, "POL-7");
    match n {
        Notification::ClaimCreated { claim_id, claimant: who, policy_number } => {
            assert_eq!(claim_id, 7);
            assert_eq!(who, claimant);
            assert_eq!(policy_number, "POL-7");
        }
        other => panic!("wrong notification kind: {:?}", other),
    }
}

#[test]
fn event_document_added_carries_fields() {
    let n = InsuranceContract::event_document_added(9, "doc://y");
    match n {
        Notification::DocumentAdded { claim_id, document_url } => {
            assert_eq!(claim_id, 9);
            assert_eq!(document_url, "doc://y");
        }
        other => panic!("wrong notification kind: {:?}", other),
    }
}

#[test]
fn event_claim_status_updated_carries_fields() {
    let n = InsuranceContract::event_claim_status_updated(4, ClaimStatus::Denied);
    match n {
        Notification::StatusUpdated { claim_id, new_status } => {
            assert_eq!(claim_id, 4);
            assert_eq!(new_status, ClaimStatus::Denied);
        }
        other => panic!("wrong notification kind: {:?}", other),
    }
}
