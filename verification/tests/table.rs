use cw721_base::config::{resolve_limit, Cw721Config};
use cw721_base::error::{ContractError, ErrorKind};
use cw721_base::expiration::Expiration;
use cw721_base::ownership::{Ownership, OwnershipStore};
use cw721_base::state::{
    copy_approvals, copy_opt_metadata, copy_opt_text, copy_traits, Approval, CollectionInfo,
    Metadata, NftInfo, Trait,
};
use cw721_base::table::{TokenIndexes, TokenTable};

fn record(owner: &str) -> NftInfo {
    NftInfo { owner: owner.to_string(), approvals: vec![], token_uri: None, extension: None }
}

#[test]
fn table_keeps_records_in_the_order_of_their_ids() {
    let mut t = TokenTable::new();
    assert!(t.is_empty());
    t.save("m", record("A"));
    t.save("a", record("B"));
    t.save("z", record("A"));
    assert_eq!(t.len(), 3);
    assert!(!t.is_empty());
    assert_eq!(t.all_keys(), vec!["a", "m", "z"]);
    assert_eq!(t.keys(&None, 2), vec!["a", "m"]);
    assert_eq!(t.keys(&Some("a".to_string()), 10), vec!["m", "z"]);
    assert!(t.has("m"));
    assert!(!t.has("n"));
    assert_eq!(t.may_load("a"), Some(&record("B")));
    assert_eq!(t.may_load("b"), None);
}

#[test]
fn saving_over_a_record_moves_its_index_entry() {
    let mut t = TokenTable::new();
    t.save("1", record("A"));
    t.save("2", record("A"));
    t.save("1", record("B"));
    assert_eq!(t.len(), 2);
    assert_eq!(t.keys_by_owner("A", &None, 10), vec!["2"]);
    assert_eq!(t.keys_by_owner("B", &None, 10), vec!["1"]);
    assert_eq!(t.may_load("1").unwrap().owner, "B");
}

#[test]
fn removing_a_record_removes_its_index_entry() {
    let mut t = TokenTable::new();
    t.save("1", record("A"));
    t.save("2", record("A"));
    t.remove("1");
    t.remove("3");
    assert_eq!(t.all_keys(), vec!["2"]);
    assert_eq!(t.keys_by_owner("A", &None, 10), vec!["2"]);
    t.remove("2");
    assert!(t.is_empty());
    assert_eq!(t.keys_by_owner("A", &None, 10), Vec::<String>::new());
}

#[test]
fn index_files_each_pair_once() {
    let mut idx = TokenIndexes::new();
    idx.insert("B".to_string(), "1".to_string());
    idx.insert("A".to_string(), "2".to_string());
    idx.insert("A".to_string(), "1".to_string());
    idx.insert("A".to_string(), "1".to_string());
    assert_eq!(idx.ids_of("A", &None, 10), vec!["1", "2"]);
    assert_eq!(idx.ids_of("A", &Some("1".to_string()), 10), vec!["2"]);
    assert_eq!(idx.ids_of("A", &None, 1), vec!["1"]);
    assert_eq!(idx.ids_of("B", &None, 10), vec!["1"]);
    idx.remove("A", "1");
    idx.remove("A", "7");
    assert_eq!(idx.ids_of("A", &None, 10), vec!["2"]);
}

#[test]
fn owners_that_share_a_prefix_are_kept_apart() {
    let mut t = TokenTable::new();
    t.save("1", record("A"));
    t.save("2", record("AB"));
    t.save("3", record("A"));
    t.save("B3", record(""));
    assert_eq!(t.keys_by_owner("A", &None, 10), vec!["1", "3"]);
    assert_eq!(t.keys_by_owner("AB", &None, 10), vec!["2"]);
    assert_eq!(t.keys_by_owner("", &None, 10), vec!["B3"]);
}

#[test]
fn registry_save_counts_only_new_tokens() {
    let mut c = Cw721Config::new();
    let with_grant = NftInfo {
        owner: "A".to_string(),
        approvals: vec![Approval { spender: "S".to_string(), expires: Expiration::AtHeight(9) }],
        token_uri: None,
        extension: None,
    };
    c.save("1", with_grant.clone());
    assert_eq!(c.num_tokens(), 1);
    assert_eq!(*c.get("1").unwrap(), with_grant);
    c.save("1", record("B"));
    assert_eq!(c.num_tokens(), 1);
    assert_eq!(c.tokens_by_owner("A", &None, None).unwrap(), Vec::<String>::new());
    assert_eq!(c.tokens_by_owner("B", &None, None).unwrap(), vec!["1"]);
}

#[test]
fn registry_copies_a_table() {
    let mut source = TokenTable::new();
    source.save("2", record("B"));
    source.save("1", record("A"));
    let mut c = Cw721Config::new();
    c.copy_from(&source);
    assert_eq!(c.num_tokens(), 2);
    assert_eq!(c.all_tokens(&None, None).unwrap(), vec!["1", "2"]);
    assert_eq!(c.get("2").unwrap(), source.may_load("2").unwrap());
    assert_eq!(source.len(), 2);
}

#[test]
fn limits_resolve_to_the_default_or_what_is_named() {
    assert_eq!(resolve_limit(None).unwrap(), 100);
    assert_eq!(resolve_limit(Some(0)).unwrap(), 0);
    assert_eq!(resolve_limit(Some(1000)).unwrap(), 1000);
    let e = resolve_limit(Some(1001)).unwrap_err();
    assert_eq!(e, ContractError { kind: ErrorKind::LimitExceeded, context: "limit".to_string() });
}

#[test]
fn every_kind_of_error_has_its_name() {
    let names = [
        (ErrorKind::NotFound, "not found"),
        (ErrorKind::AlreadyExists, "already exists"),
        (ErrorKind::Unauthorized, "unauthorized"),
        (ErrorKind::Expired, "expired"),
        (ErrorKind::ApprovalNotFound, "approval not found"),
        (ErrorKind::TransferExpired, "transfer expired"),
        (ErrorKind::NoPendingTransfer, "no pending transfer"),
        (ErrorKind::Uninitialized, "uninitialized"),
        (ErrorKind::AlreadyInitialized, "already initialized"),
        (ErrorKind::InvalidState, "invalid state"),
        (ErrorKind::LimitExceeded, "limit exceeded"),
    ];
    for (kind, name) in names {
        let e = ContractError::new(kind, "x");
        assert_eq!(e.kind, kind);
        assert_eq!(e.context, "x");
        assert_eq!(e.kind_name(), name);
        assert_eq!(e.message(), format!("{}: x", name));
    }
}

#[test]
fn copies_are_equal_to_what_they_copy() {
    let traits = vec![
        Trait { display_type: Some("d".to_string()), trait_type: "t".to_string(), value: "v".to_string() },
        Trait { display_type: None, trait_type: "u".to_string(), value: "w".to_string() },
    ];
    assert_eq!(copy_traits(&traits), traits);
    assert_eq!(traits[0].clone(), traits[0]);
    let metadata = Metadata {
        image: Some("i".to_string()),
        image_data: Some("id".to_string()),
        external_url: Some("e".to_string()),
        description: Some("d".to_string()),
        name: Some("n".to_string()),
        attributes: Some(traits),
        background_color: Some("b".to_string()),
        animation_url: Some("a".to_string()),
        youtube_url: Some("y".to_string()),
    };
    assert_eq!(metadata.clone(), metadata);
    assert_eq!(copy_opt_metadata(&Some(metadata.clone())), Some(metadata.clone()));
    assert_eq!(copy_opt_metadata(&None), None);
    assert_eq!(copy_opt_text(&Some("t".to_string())), Some("t".to_string()));
    assert_eq!(copy_opt_text(&None), None);
    let approvals = vec![
        Approval { spender: "S".to_string(), expires: Expiration::AtTime(3) },
        Approval { spender: "T".to_string(), expires: Expiration::Never },
    ];
    assert_eq!(copy_approvals(&approvals), approvals);
    let info = NftInfo {
        owner: "A".to_string(),
        approvals,
        token_uri: Some("u".to_string()),
        extension: Some(metadata),
    };
    assert_eq!(info.clone(), info);
    let collection = CollectionInfo {
        name: "n".to_string(),
        symbol: "s".to_string(),
        extension: None,
        updated_at: 9,
    };
    assert_eq!(collection.clone(), collection);
    assert_eq!(Metadata::default().name, None);
}

#[test]
fn ownership_store_is_made_with_its_record() {
    let record = Ownership {
        owner: Some("A".to_string()),
        pending_owner: Some("B".to_string()),
        pending_expiry: Some(Expiration::AtHeight(3)),
    };
    let s = OwnershipStore::with_record("ownership", Some(record.clone()));
    assert_eq!(s.key(), "ownership");
    assert_eq!(s.get_ownership().unwrap(), record);
    assert_eq!(record.clone(), record);
    let empty = OwnershipStore::with_record("ownership", None);
    assert!(!empty.is_initialized());
}
