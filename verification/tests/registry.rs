use cw721_base::config::{Cw721Config, DEFAULT_LIMIT, MAX_LIMIT};
use cw721_base::error::ErrorKind;
use cw721_base::expiration::{BlockInfo, Expiration};
use cw721_base::state::{
    token_owner_idx, Approval, CollectionInfo, Metadata, NftInfo, Trait,
};

fn block(height: u64, time: u64) -> BlockInfo {
    BlockInfo { height, time, chain_id: "chain".to_string() }
}

fn ids(v: &[&str]) -> Vec<String> {
    v.iter().map(|s| s.to_string()).collect()
}

#[test]
fn new_registry_is_empty() {
    let c = Cw721Config::new();
    assert_eq!(c.token_count(), 0);
    assert_eq!(c.num_tokens(), 0);
    assert!(c.is_empty());
    assert_eq!(c.all_tokens(&None, None).unwrap(), Vec::<String>::new());
    assert_eq!(c.collection_info().unwrap_err().kind, ErrorKind::NotFound);
    assert_eq!(c.withdraw_address(), None);
    let d = Cw721Config::default();
    assert_eq!(d.num_tokens(), 0);
}

#[test]
fn mint_stores_the_record_and_counts_it() {
    let mut c = Cw721Config::new();
    c.mint("1", "A", Some("uri".to_string()), None).unwrap();
    assert_eq!(c.num_tokens(), 1);
    assert!(!c.is_empty());
    let info = c.get("1").unwrap();
    assert_eq!(
        *info,
        NftInfo {
            owner: "A".to_string(),
            approvals: vec![],
            token_uri: Some("uri".to_string()),
            extension: None,
        }
    );
    assert_eq!(c.tokens_by_owner("A", &None, None).unwrap(), ids(&["1"]));
    assert_eq!(c.all_tokens(&None, None).unwrap(), ids(&["1"]));
}

#[test]
fn mint_keeps_the_metadata() {
    let mut c = Cw721Config::new();
    let metadata = Metadata {
        name: Some("Starship".to_string()),
        attributes: Some(vec![Trait {
            display_type: None,
            trait_type: "class".to_string(),
            value: "cruiser".to_string(),
        }]),
        ..Metadata::default()
    };
    c.mint("ship", "A", None, Some(metadata.clone())).unwrap();
    assert_eq!(c.get("ship").unwrap().extension, Some(metadata));
}

#[test]
fn mint_of_an_existing_id_is_refused() {
    let mut c = Cw721Config::new();
    c.mint("1", "A", None, None).unwrap();
    let e = c.mint("1", "B", None, None).unwrap_err();
    assert_eq!(e.kind, ErrorKind::AlreadyExists);
    assert_eq!(e.context, "1");
    assert_eq!(e.message(), "already exists: 1");
    assert_eq!(c.num_tokens(), 1);
    assert_eq!(c.get("1").unwrap().owner, "A");
    assert_eq!(c.tokens_by_owner("B", &None, None).unwrap(), Vec::<String>::new());
}

#[test]
fn burn_removes_record_and_index_entry() {
    let mut c = Cw721Config::new();
    c.mint("1", "A", None, None).unwrap();
    c.mint("2", "A", None, None).unwrap();
    c.burn("1").unwrap();
    assert_eq!(c.num_tokens(), 1);
    assert_eq!(c.get("1").unwrap_err().kind, ErrorKind::NotFound);
    assert_eq!(c.tokens_by_owner("A", &None, None).unwrap(), ids(&["2"]));
    assert_eq!(c.all_tokens(&None, None).unwrap(), ids(&["2"]));
}

#[test]
fn burn_of_an_absent_token_is_refused() {
    let mut c = Cw721Config::new();
    c.mint("1", "A", None, None).unwrap();
    let e = c.burn("2").unwrap_err();
    assert_eq!(e.kind, ErrorKind::NotFound);
    assert_eq!(e.context, "2");
    assert_eq!(c.num_tokens(), 1);
}

#[test]
fn transfer_moves_the_index_entry_and_clears_approvals() {
    let mut c = Cw721Config::new();
    c.mint("1", "A", Some("u".to_string()), None).unwrap();
    c.approve("1", "S", None, &block(1, 1)).unwrap();
    assert_eq!(c.get("1").unwrap().approvals.len(), 1);
    c.transfer("1", "B").unwrap();
    assert_eq!(c.tokens_by_owner("A", &None, None).unwrap(), Vec::<String>::new());
    assert_eq!(c.tokens_by_owner("B", &None, None).unwrap(), ids(&["1"]));
    let info = c.get("1").unwrap();
    assert_eq!(info.owner, "B");
    assert!(info.approvals.is_empty());
    assert_eq!(info.token_uri, Some("u".to_string()));
    assert_eq!(c.num_tokens(), 1);
}

#[test]
fn transfer_of_an_absent_token_is_refused() {
    let mut c = Cw721Config::new();
    let e = c.transfer("1", "B").unwrap_err();
    assert_eq!(e.kind, ErrorKind::NotFound);
    assert_eq!(e.context, "1");
}

#[test]
fn approval_is_dropped_by_transfer() {
    let mut c = Cw721Config::new();
    let b = block(10, 10);
    c.mint("1", "A", None, None).unwrap();
    c.approve("1", "S", Some(Expiration::Never), &b).unwrap();
    assert!(c.is_approved_or_owner("1", "S", &b));
    assert!(c.is_approved_or_owner("1", "A", &b));
    c.transfer("1", "B").unwrap();
    assert!(!c.is_approved_or_owner("1", "S", &b));
    assert!(!c.is_approved_or_owner("1", "A", &b));
    assert!(c.is_approved_or_owner("1", "B", &b));
}

#[test]
fn approve_replaces_the_grant_of_the_same_spender() {
    let mut c = Cw721Config::new();
    let b = block(10, 10);
    c.mint("1", "A", None, None).unwrap();
    c.approve("1", "S", Some(Expiration::AtHeight(20)), &b).unwrap();
    c.approve("1", "T", None, &b).unwrap();
    c.approve("1", "S", Some(Expiration::AtHeight(30)), &b).unwrap();
    assert_eq!(
        c.get("1").unwrap().approvals,
        vec![
            Approval { spender: "T".to_string(), expires: Expiration::Never },
            Approval { spender: "S".to_string(), expires: Expiration::AtHeight(30) },
        ]
    );
}

#[test]
fn approve_with_a_past_expiration_is_refused() {
    let mut c = Cw721Config::new();
    c.mint("1", "A", None, None).unwrap();
    let e = c.approve("1", "S", Some(Expiration::AtHeight(10)), &block(10, 0)).unwrap_err();
    assert_eq!(e.kind, ErrorKind::Expired);
    assert!(c.get("1").unwrap().approvals.is_empty());
    let e = c.approve("1", "S", Some(Expiration::AtTime(5)), &block(0, 6)).unwrap_err();
    assert_eq!(e.kind, ErrorKind::Expired);
    c.approve("1", "S", Some(Expiration::AtHeight(11)), &block(10, 0)).unwrap();
    assert_eq!(c.get("1").unwrap().approvals.len(), 1);
}

#[test]
fn approve_of_an_absent_token_is_refused() {
    let mut c = Cw721Config::new();
    let e = c.approve("1", "S", None, &block(0, 0)).unwrap_err();
    assert_eq!(e.kind, ErrorKind::NotFound);
}

#[test]
fn approval_lapses_when_its_expiration_is_reached() {
    let mut c = Cw721Config::new();
    c.mint("1", "A", None, None).unwrap();
    c.approve("1", "S", Some(Expiration::AtHeight(20)), &block(10, 0)).unwrap();
    assert!(c.is_approved_or_owner("1", "S", &block(19, 0)));
    assert!(!c.is_approved_or_owner("1", "S", &block(20, 0)));
    assert!(c.is_approved_or_owner("1", "A", &block(20, 0)));
    assert!(!c.is_approved_or_owner("2", "A", &block(20, 0)));
}

#[test]
fn revoke_removes_the_grant() {
    let mut c = Cw721Config::new();
    let b = block(1, 1);
    c.mint("1", "A", None, None).unwrap();
    c.approve("1", "S", None, &b).unwrap();
    c.approve("1", "T", None, &b).unwrap();
    c.revoke("1", "S").unwrap();
    assert_eq!(
        c.get("1").unwrap().approvals,
        vec![Approval { spender: "T".to_string(), expires: Expiration::Never }]
    );
    assert!(!c.is_approved_or_owner("1", "S", &b));
}

#[test]
fn revoke_of_an_absent_grant_is_refused() {
    let mut c = Cw721Config::new();
    c.mint("1", "A", None, None).unwrap();
    let e = c.revoke("1", "S").unwrap_err();
    assert_eq!(e.kind, ErrorKind::ApprovalNotFound);
    assert_eq!(e.context, "S");
    let e = c.revoke("2", "S").unwrap_err();
    assert_eq!(e.kind, ErrorKind::NotFound);
}

#[test]
fn revoke_all_clears_the_grants() {
    let mut c = Cw721Config::new();
    let b = block(1, 1);
    c.mint("1", "A", None, None).unwrap();
    c.approve("1", "S", None, &b).unwrap();
    c.approve("1", "T", None, &b).unwrap();
    c.revoke_all("1").unwrap();
    assert!(c.get("1").unwrap().approvals.is_empty());
    assert_eq!(c.get("1").unwrap().owner, "A");
    assert_eq!(c.revoke_all("2").unwrap_err().kind, ErrorKind::NotFound);
}

#[test]
fn pages_are_in_the_order_of_the_identifiers() {
    let mut c = Cw721Config::new();
    for id in ["b", "10", "a", "2", "1"] {
        c.mint(id, "A", None, None).unwrap();
    }
    assert_eq!(c.all_tokens(&None, None).unwrap(), ids(&["1", "10", "2", "a", "b"]));
    assert_eq!(c.all_tokens(&None, Some(2)).unwrap(), ids(&["1", "10"]));
    assert_eq!(c.all_tokens(&Some("10".to_string()), Some(2)).unwrap(), ids(&["2", "a"]));
    assert_eq!(c.all_tokens(&Some("a".to_string()), Some(5)).unwrap(), ids(&["b"]));
    assert_eq!(c.all_tokens(&Some("b".to_string()), Some(5)).unwrap(), Vec::<String>::new());
    assert_eq!(c.all_tokens(&Some("11".to_string()), Some(1)).unwrap(), ids(&["2"]));
}

#[test]
fn pages_of_an_owner_hold_only_the_owners_tokens() {
    let mut c = Cw721Config::new();
    c.mint("3", "A", None, None).unwrap();
    c.mint("1", "B", None, None).unwrap();
    c.mint("2", "A", None, None).unwrap();
    c.mint("4", "AA", None, None).unwrap();
    c.mint("0", "A", None, None).unwrap();
    assert_eq!(c.tokens_by_owner("A", &None, None).unwrap(), ids(&["0", "2", "3"]));
    assert_eq!(c.tokens_by_owner("A", &Some("0".to_string()), Some(1)).unwrap(), ids(&["2"]));
    assert_eq!(c.tokens_by_owner("B", &None, None).unwrap(), ids(&["1"]));
    assert_eq!(c.tokens_by_owner("AA", &None, None).unwrap(), ids(&["4"]));
    assert_eq!(c.tokens_by_owner("C", &None, None).unwrap(), Vec::<String>::new());
}

#[test]
fn limit_of_zero_gives_an_empty_page() {
    let mut c = Cw721Config::new();
    c.mint("1", "A", None, None).unwrap();
    assert_eq!(c.all_tokens(&None, Some(0)).unwrap(), Vec::<String>::new());
    assert_eq!(c.tokens_by_owner("A", &None, Some(0)).unwrap(), Vec::<String>::new());
}

#[test]
fn limit_above_the_cap_is_refused() {
    let mut c = Cw721Config::new();
    c.mint("1", "A", None, None).unwrap();
    assert_eq!(MAX_LIMIT, 1000);
    assert_eq!(DEFAULT_LIMIT, 100);
    assert_eq!(c.all_tokens(&None, Some(1001)).unwrap_err().kind, ErrorKind::LimitExceeded);
    assert_eq!(
        c.tokens_by_owner("A", &None, Some(u32::MAX)).unwrap_err().kind,
        ErrorKind::LimitExceeded
    );
    assert_eq!(c.all_tokens(&None, Some(1000)).unwrap(), ids(&["1"]));
}

#[test]
fn default_limit_is_one_hundred() {
    let mut c = Cw721Config::new();
    for i in 0..150 {
        c.mint(&format!("{:03}", i), "A", None, None).unwrap();
    }
    assert_eq!(c.all_tokens(&None, None).unwrap().len(), 100);
    assert_eq!(c.tokens_by_owner("A", &None, None).unwrap().len(), 100);
    assert_eq!(c.all_tokens(&Some("099".to_string()), None).unwrap().len(), 50);
    assert_eq!(c.num_tokens(), 150);
}

#[test]
fn count_follows_mints_and_burns() {
    let mut c = Cw721Config::new();
    for i in 0..20 {
        c.mint(&i.to_string(), if i % 2 == 0 { "A" } else { "B" }, None, None).unwrap();
    }
    for i in 0..5 {
        c.burn(&i.to_string()).unwrap();
    }
    assert_eq!(c.num_tokens(), 15);
    assert_eq!(c.all_tokens(&None, Some(1000)).unwrap().len(), 15);
    let a = c.tokens_by_owner("A", &None, Some(1000)).unwrap();
    let b = c.tokens_by_owner("B", &None, Some(1000)).unwrap();
    assert_eq!(a.len() + b.len(), 15);
    for id in a.iter() {
        assert_eq!(c.get(id).unwrap().owner, "A");
    }
    for id in b.iter() {
        assert_eq!(c.get(id).unwrap().owner, "B");
    }
}

#[test]
fn update_collection_info_replaces_it_wholesale() {
    let mut c = Cw721Config::new();
    let first = CollectionInfo {
        name: "n".to_string(),
        symbol: "s".to_string(),
        extension: None,
        updated_at: 1,
    };
    c.update_collection_info(first.clone());
    assert_eq!(*c.collection_info().unwrap(), first);
    let second = CollectionInfo {
        name: "m".to_string(),
        symbol: "t".to_string(),
        extension: None,
        updated_at: 2,
    };
    c.update_collection_info(second.clone());
    assert_eq!(*c.collection_info().unwrap(), second);
}

#[test]
fn withdraw_address_is_kept() {
    let mut c = Cw721Config::new();
    c.set_withdraw_address("w".to_string());
    assert_eq!(c.withdraw_address(), Some(&"w".to_string()));
}

#[test]
fn owner_index_key_is_the_owner() {
    let info = NftInfo {
        owner: "A".to_string(),
        approvals: vec![],
        token_uri: None,
        extension: None,
    };
    assert_eq!(token_owner_idx(b"1", &info), "A");
    assert_eq!(info.clone(), info);
}
