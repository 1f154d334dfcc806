use cw721_base::error::ErrorKind;
use cw721_base::expiration::{BlockInfo, Expiration};
use cw721_base::ownership::{none_or, Action, Ownership, OwnershipStore};

fn block(height: u64, time: u64) -> BlockInfo {
    BlockInfo { height, time, chain_id: "chain".to_string() }
}

fn held_by(owner: &str) -> Ownership {
    Ownership { owner: Some(owner.to_string()), pending_owner: None, pending_expiry: None }
}

#[test]
fn store_starts_uninitialized() {
    let s = OwnershipStore::new("collection_minter");
    assert_eq!(s.key(), "collection_minter");
    assert!(!s.is_initialized());
    assert_eq!(s.may_load(), None);
    let e = s.get_ownership().unwrap_err();
    assert_eq!(e.kind, ErrorKind::Uninitialized);
    assert_eq!(e.context, "collection_minter");
    assert_eq!(s.is_owner("A").unwrap_err().kind, ErrorKind::Uninitialized);
    assert_eq!(s.assert_owner("A").unwrap_err().kind, ErrorKind::Uninitialized);
}

#[test]
fn initialize_sets_the_owner_once() {
    let mut s = OwnershipStore::new("ownership");
    assert_eq!(s.initialize(Some("A")).unwrap(), held_by("A"));
    assert_eq!(s.get_ownership().unwrap(), held_by("A"));
    let e = s.initialize(Some("B")).unwrap_err();
    assert_eq!(e.kind, ErrorKind::AlreadyInitialized);
    assert_eq!(e.context, "ownership");
    assert_eq!(s.get_ownership().unwrap(), held_by("A"));
}

#[test]
fn initialize_owner_overrides() {
    let mut s = OwnershipStore::new("ownership");
    s.initialize(Some("A")).unwrap();
    s.propose_transfer("A", "B", None).unwrap();
    assert_eq!(s.initialize_owner(Some("C")), held_by("C"));
    assert_eq!(s.get_ownership().unwrap(), held_by("C"));
    let none = s.initialize_owner(None);
    assert_eq!(none, Ownership { owner: None, pending_owner: None, pending_expiry: None });
    assert!(s.is_initialized());
}

#[test]
fn only_the_owner_proposes() {
    let mut s = OwnershipStore::new("ownership");
    assert_eq!(s.propose_transfer("A", "B", None).unwrap_err().kind, ErrorKind::Uninitialized);
    s.initialize(Some("A")).unwrap();
    let e = s.propose_transfer("X", "B", None).unwrap_err();
    assert_eq!(e.kind, ErrorKind::Unauthorized);
    assert_eq!(s.get_ownership().unwrap(), held_by("A"));
    let o = s.propose_transfer("A", "B", Some(Expiration::AtHeight(10))).unwrap();
    assert_eq!(
        o,
        Ownership {
            owner: Some("A".to_string()),
            pending_owner: Some("B".to_string()),
            pending_expiry: Some(Expiration::AtHeight(10)),
        }
    );
    assert_eq!(s.get_ownership().unwrap(), o);
    let o = s.propose_transfer("A", "C", None).unwrap();
    assert_eq!(o.pending_owner, Some("C".to_string()));
    assert_eq!(o.pending_expiry, None);
}

#[test]
fn pending_owner_accepts_before_expiry() {
    let mut s = OwnershipStore::new("ownership");
    s.initialize(Some("A")).unwrap();
    assert_eq!(
        s.accept_transfer("B", &block(1, 1)).unwrap_err().kind,
        ErrorKind::NoPendingTransfer
    );
    s.propose_transfer("A", "B", Some(Expiration::AtHeight(10))).unwrap();
    assert_eq!(s.accept_transfer("X", &block(1, 1)).unwrap_err().kind, ErrorKind::Unauthorized);
    assert_eq!(
        s.accept_transfer("B", &block(10, 1)).unwrap_err().kind,
        ErrorKind::TransferExpired
    );
    assert_eq!(s.get_ownership().unwrap().owner, Some("A".to_string()));
    assert_eq!(s.accept_transfer("B", &block(9, 1)).unwrap(), held_by("B"));
    assert_eq!(s.get_ownership().unwrap(), held_by("B"));
    assert_eq!(s.is_owner("B").unwrap(), true);
    assert_eq!(s.is_owner("A").unwrap(), false);
    assert!(s.assert_owner("B").is_ok());
    assert_eq!(s.assert_owner("A").unwrap_err().kind, ErrorKind::Unauthorized);
}

#[test]
fn transfer_without_deadline_does_not_expire() {
    let mut s = OwnershipStore::new("ownership");
    s.initialize(Some("A")).unwrap();
    s.propose_transfer("A", "B", None).unwrap();
    assert_eq!(s.accept_transfer("B", &block(u64::MAX, u64::MAX)).unwrap(), held_by("B"));
}

#[test]
fn renounce_is_final() {
    let mut s = OwnershipStore::new("ownership");
    assert_eq!(s.renounce("A").unwrap_err().kind, ErrorKind::Uninitialized);
    s.initialize(Some("A")).unwrap();
    s.propose_transfer("A", "B", None).unwrap();
    assert_eq!(s.renounce("B").unwrap_err().kind, ErrorKind::Unauthorized);
    let o = s.renounce("A").unwrap();
    assert_eq!(o, Ownership { owner: None, pending_owner: None, pending_expiry: None });
    assert_eq!(s.propose_transfer("A", "B", None).unwrap_err().kind, ErrorKind::Unauthorized);
    assert_eq!(
        s.accept_transfer("B", &block(0, 0)).unwrap_err().kind,
        ErrorKind::NoPendingTransfer
    );
    assert_eq!(s.renounce("A").unwrap_err().kind, ErrorKind::Unauthorized);
    assert_eq!(s.is_owner("A").unwrap(), false);
}

#[test]
fn update_ownership_takes_each_action() {
    let mut s = OwnershipStore::new("ownership");
    s.initialize(Some("A")).unwrap();
    let b = block(5, 5);
    let o = s
        .update_ownership(
            &b,
            "A",
            Action::TransferOwnership {
                new_owner: "B".to_string(),
                expiry: Some(Expiration::AtTime(6)),
            },
        )
        .unwrap();
    assert_eq!(o.pending_owner, Some("B".to_string()));
    assert_eq!(s.update_ownership(&b, "B", Action::AcceptOwnership).unwrap(), held_by("B"));
    let o = s.update_ownership(&b, "B", Action::RenounceOwnership).unwrap();
    assert_eq!(o.owner, None);
    assert_eq!(
        s.update_ownership(&b, "B", Action::RenounceOwnership).unwrap_err().kind,
        ErrorKind::Unauthorized
    );
}

#[test]
fn none_or_names_the_absent() {
    assert_eq!(none_or(Some(&"blue".to_string())), "blue");
    assert_eq!(none_or(None), "none");
}
