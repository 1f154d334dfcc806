use cosmwasm_std::Attribute;
use cw721_base::entry::{
    instantiate, migrate, migrate_creator, migrate_legacy_collection_info,
    migrate_legacy_minter_and_creator, migrate_legacy_tokens, migrate_minter, migrate_version,
};
use cw721_base::error::ErrorKind;
use cw721_base::expiration::BlockInfo;
use cw721_base::msg::{
    ContractVersion, Env, InstantiateMsg, MessageInfo, MigrateMsg, CONTRACT_NAME,
    CONTRACT_VERSION,
};
use cw721_base::config::MAX_LIMIT;
use cw721_base::ownership::Ownership;
use cw721_base::state::{CollectionInfo, NftInfo};
use cw721_base::storage::{
    CollectionInfoGeneration, ContractInfoResponse, RolesGeneration, Store, TokensGeneration,
};

fn mock_env() -> Env {
    Env {
        block: BlockInfo {
            height: 12_345,
            time: 1_571_797_419_879_305_533,
            chain_id: "cosmos-testnet-14002".to_string(),
        },
    }
}

fn mock_info(sender: &str) -> MessageInfo {
    MessageInfo { sender: sender.to_string() }
}

fn no_update() -> MigrateMsg {
    MigrateMsg::WithUpdate { minter: None, creator: None }
}

fn owner_of(o: Ownership) -> Option<String> {
    o.owner
}

fn minted(owner: &str) -> NftInfo {
    NftInfo { owner: owner.to_string(), approvals: vec![], token_uri: None, extension: None }
}

/// A store as the earliest layout left it: a minter's address, name and
/// symbol, and `n` tokens of "owner".
fn legacy_store(n: u32) -> Store {
    let mut store = Store::new();
    store.version = Some(ContractVersion {
        contract: CONTRACT_NAME.to_string(),
        version: "0.16.0".to_string(),
    });
    store.legacy_minter = Some("legacy_minter".to_string());
    store.legacy_collection_info = Some(ContractInfoResponse {
        name: "legacy_name".to_string(),
        symbol: "legacy_symbol".to_string(),
    });
    for i in 0..n {
        store.legacy_tokens.save(&i.to_string(), minted("owner"));
    }
    store
}

#[test]
fn proper_cw2_initialization() {
    let mut store = Store::new();

    instantiate(
        &mut store,
        &mock_env(),
        &mock_info("larry"),
        InstantiateMsg {
            name: "collection_name".into(),
            symbol: "collection_symbol".into(),
            collection_info_extension: None,
            minter: Some("minter".into()),
            creator: Some("creator".into()),
            withdraw_address: None,
        },
    )
    .unwrap();

    let minter = store.minter.get_ownership().unwrap().owner;
    assert_eq!(minter, Some("minter".to_string()));

    let creator = store.creator.get_ownership().unwrap().owner;
    assert_eq!(creator, Some("creator".to_string()));

    let version = store.version.unwrap();
    assert_eq!(
        version,
        ContractVersion { contract: CONTRACT_NAME.into(), version: CONTRACT_VERSION.into() },
    );
}

#[test]
fn proper_owner_initialization() {
    let mut store = Store::new();

    let info_owner = mock_info("owner");
    instantiate(
        &mut store,
        &mock_env(),
        &info_owner,
        InstantiateMsg {
            name: "collection_name".into(),
            symbol: "collection_symbol".into(),
            collection_info_extension: None,
            creator: None,
            minter: None,
            withdraw_address: None,
        },
    )
    .unwrap();

    let minter = store.minter.may_load().unwrap().owner.clone();
    assert_eq!(minter, Some(info_owner.sender));
    let creator = store.creator.may_load().unwrap().owner.clone();
    assert_eq!(creator, Some("owner".to_string()));
}

#[test]
fn test_migrate() {
    let env = mock_env();
    let mut store = legacy_store(200);

    // assert new data before migration:
    // - ownership and collection info are absent
    assert!(store.minter.may_load().is_none());
    store.contract.collection_info().unwrap_err();
    store.minter.get_ownership().unwrap_err();
    store.creator.get_ownership().unwrap_err();
    // - no tokens
    let all_tokens = store.contract.all_tokens(&None, Some(MAX_LIMIT)).unwrap();
    assert_eq!(all_tokens.len(), 0);

    // assert legacy data before migration:
    // - version
    let version = store.version.as_ref().unwrap().version.clone();
    assert_eq!(version, "0.16.0");
    // - legacy minter is set
    assert_eq!(store.legacy_minter.as_ref().unwrap(), "legacy_minter");
    // - legacy collection info is set
    let legacy_collection_info = store.legacy_collection_info.as_ref().unwrap();
    assert_eq!(legacy_collection_info.name, "legacy_name");
    assert_eq!(legacy_collection_info.symbol, "legacy_symbol");
    // - legacy tokens are set
    let keys = store.legacy_tokens.all_keys();
    assert_eq!(keys.len(), 200);
    for key in keys {
        let legacy_token = store.legacy_tokens.may_load(&key).unwrap();
        assert_eq!(legacy_token.owner.as_str(), "owner");
    }

    migrate(&mut store, &env, &MigrateMsg::WithUpdate { minter: None, creator: None }).unwrap();

    // version
    let version = store.version.as_ref().unwrap().version.clone();
    assert_eq!(version, CONTRACT_VERSION);
    assert_ne!(version, "0.16.0");

    // assert minter ownership
    let minter_ownership = owner_of(store.minter.get_ownership().unwrap());
    assert_eq!(minter_ownership, Some("legacy_minter".to_string()));

    // assert creator ownership
    let creator_ownership = owner_of(store.creator.get_ownership().unwrap());
    assert_eq!(creator_ownership, Some("legacy_minter".to_string()));

    // assert collection info
    let collection_info = store.contract.collection_info().unwrap();
    let legacy_contract_info = CollectionInfo {
        name: "legacy_name".to_string(),
        symbol: "legacy_symbol".to_string(),
        extension: None,
        updated_at: env.block.time,
    };
    assert_eq!(*collection_info, legacy_contract_info);

    // assert tokens
    let all_tokens = store.contract.all_tokens(&None, Some(MAX_LIMIT)).unwrap();
    assert_eq!(all_tokens.len(), 200);

    // assert legacy data is still there
    // - minter
    assert_eq!(store.legacy_minter.as_ref().unwrap(), "legacy_minter");
    // - collection info
    let legacy_collection_info = store.legacy_collection_info.as_ref().unwrap();
    assert_eq!(legacy_collection_info.name, "legacy_name");
    assert_eq!(legacy_collection_info.symbol, "legacy_symbol");
    // - tokens
    let keys = store.legacy_tokens.all_keys();
    assert_eq!(keys.len(), 200);
    for key in keys {
        let legacy_token = store.legacy_tokens.may_load(&key).unwrap();
        assert_eq!(legacy_token.owner.as_str(), "owner");
    }
}

#[test]
fn instantiate_names_minter_and_creator() {
    let mut store = Store::new();
    let env = mock_env();
    let response = instantiate(
        &mut store,
        &env,
        &mock_info("larry"),
        InstantiateMsg {
            name: "n".into(),
            symbol: "s".into(),
            collection_info_extension: None,
            minter: Some("M".into()),
            creator: None,
            withdraw_address: Some("w".into()),
        },
    )
    .unwrap();
    assert_eq!(
        response.attributes,
        vec![Attribute::new("minter", "M"), Attribute::new("creator", "larry")]
    );
    assert_eq!(store.minter.get_ownership().unwrap().owner, Some("M".to_string()));
    assert_eq!(store.creator.get_ownership().unwrap().owner, Some("larry".to_string()));
    assert_eq!(
        *store.contract.collection_info().unwrap(),
        CollectionInfo {
            name: "n".to_string(),
            symbol: "s".to_string(),
            extension: None,
            updated_at: env.block.time,
        }
    );
    assert_eq!(store.contract.withdraw_address(), Some(&"w".to_string()));
    assert_eq!(store.roles_generation(), RolesGeneration::Current);
    assert_eq!(store.collection_info_generation(), CollectionInfoGeneration::Current);
}

#[test]
fn legacy_minter_goes_to_both_roles() {
    let mut store = legacy_store(0);
    store.legacy_minter = Some("legacy".to_string());
    assert_eq!(store.roles_generation(), RolesGeneration::LegacyMinter);
    migrate(&mut store, &mock_env(), &no_update()).unwrap();
    assert_eq!(store.minter.get_ownership().unwrap().owner, Some("legacy".to_string()));
    assert_eq!(store.creator.get_ownership().unwrap().owner, Some("legacy".to_string()));
    assert_eq!(store.legacy_minter, Some("legacy".to_string()));
    assert_eq!(store.roles_generation(), RolesGeneration::Current);
}

#[test]
fn shared_ownership_goes_to_the_minter() {
    let mut store = legacy_store(0);
    store.legacy_minter = None;
    store.creator.initialize(Some("shared")).unwrap();
    store.creator.propose_transfer("shared", "next", None).unwrap();
    assert_eq!(store.roles_generation(), RolesGeneration::SharedOwnership);
    let response = migrate_legacy_minter_and_creator(
        &mut store,
        &mock_env(),
        &no_update(),
        cosmwasm_std::Response::new(),
    )
    .unwrap();
    assert_eq!(response.attributes, vec![Attribute::new("creator_and_minter", "shared")]);
    assert_eq!(
        store.minter.get_ownership().unwrap(),
        Ownership { owner: Some("shared".to_string()), pending_owner: None, pending_expiry: None }
    );
    // the creator's record stays as it is, pending transfer included
    assert_eq!(
        store.creator.get_ownership().unwrap(),
        Ownership {
            owner: Some("shared".to_string()),
            pending_owner: Some("next".to_string()),
            pending_expiry: None,
        }
    );
}

#[test]
fn renounced_shared_ownership_gives_a_minter_record_without_holder() {
    let mut store = legacy_store(0);
    store.creator.initialize(None).unwrap();
    let response = migrate_legacy_minter_and_creator(
        &mut store,
        &mock_env(),
        &no_update(),
        cosmwasm_std::Response::new(),
    )
    .unwrap();
    assert_eq!(response.attributes, vec![Attribute::new("creator_and_minter", "none")]);
    assert_eq!(store.minter.get_ownership().unwrap().owner, None);
}

#[test]
fn current_roles_are_left_alone() {
    let mut store = legacy_store(0);
    store.minter.initialize(Some("M")).unwrap();
    let response = migrate_legacy_minter_and_creator(
        &mut store,
        &mock_env(),
        &no_update(),
        cosmwasm_std::Response::new().add_attribute("kept", "yes"),
    )
    .unwrap();
    assert_eq!(response.attributes, vec![Attribute::new("kept", "yes")]);
    assert_eq!(store.minter.get_ownership().unwrap().owner, Some("M".to_string()));
    assert!(!store.creator.is_initialized());
}

#[test]
fn missing_legacy_minter_fails_the_migration_and_changes_nothing() {
    let mut store = legacy_store(3);
    store.legacy_minter = None;
    let e = migrate(&mut store, &mock_env(), &no_update()).unwrap_err();
    assert_eq!(e.kind, ErrorKind::InvalidState);
    assert_eq!(e.context, "minter");
    assert!(!store.minter.is_initialized());
    assert!(!store.creator.is_initialized());
    assert!(store.contract.collection_info().is_err());
    assert!(store.contract.is_empty());
    assert_eq!(store.version.as_ref().unwrap().version, "0.16.0");
}

#[test]
fn missing_legacy_collection_info_fails_the_migration_and_changes_nothing() {
    let mut store = legacy_store(3);
    store.legacy_collection_info = None;
    let e = migrate(&mut store, &mock_env(), &no_update()).unwrap_err();
    assert_eq!(e.kind, ErrorKind::InvalidState);
    assert_eq!(e.context, "nft_info");
    // the first step would have succeeded, and was not applied
    assert!(!store.minter.is_initialized());
    assert!(!store.creator.is_initialized());
    assert!(store.contract.is_empty());
    assert_eq!(store.version.as_ref().unwrap().version, "0.16.0");
}

#[test]
fn missing_version_fails_the_migration_and_changes_nothing() {
    let mut store = legacy_store(3);
    store.version = None;
    let e = migrate(&mut store, &mock_env(), &no_update()).unwrap_err();
    assert_eq!(e.kind, ErrorKind::NotFound);
    assert_eq!(e.context, "contract_info");
    assert!(!store.minter.is_initialized());
    assert!(store.contract.collection_info().is_err());
    assert!(store.contract.is_empty());
    assert_eq!(store.version, None);
}

#[test]
fn collection_info_is_written_forward() {
    let mut store = legacy_store(0);
    let env = mock_env();
    assert_eq!(store.collection_info_generation(), CollectionInfoGeneration::Legacy);
    let response = migrate_legacy_collection_info(
        &mut store,
        &env,
        &no_update(),
        cosmwasm_std::Response::new(),
    )
    .unwrap();
    assert_eq!(
        response.attributes,
        vec![
            Attribute::new("migrated collection name", "legacy_name"),
            Attribute::new("migrated collection symbol", "legacy_symbol"),
        ]
    );
    assert_eq!(
        *store.contract.collection_info().unwrap(),
        CollectionInfo {
            name: "legacy_name".to_string(),
            symbol: "legacy_symbol".to_string(),
            extension: None,
            updated_at: 1_571_797_419_879_305_533,
        }
    );
    // a second run leaves what is there
    let mut later = mock_env();
    later.block.time += 1;
    let response = migrate_legacy_collection_info(
        &mut store,
        &later,
        &no_update(),
        cosmwasm_std::Response::new(),
    )
    .unwrap();
    assert!(response.attributes.is_empty());
    assert_eq!(store.contract.collection_info().unwrap().updated_at, env.block.time);
}

#[test]
fn legacy_tokens_are_copied_with_their_owners() {
    let mut store = legacy_store(0);
    store.legacy_tokens.save("b", minted("B"));
    store.legacy_tokens.save("a", minted("A"));
    store.legacy_tokens.save("c", minted("A"));
    assert_eq!(store.tokens_generation(), TokensGeneration::Legacy);
    migrate_legacy_tokens(&mut store, &mock_env(), &no_update(), cosmwasm_std::Response::new())
        .unwrap();
    assert_eq!(store.tokens_generation(), TokensGeneration::Current);
    assert_eq!(store.contract.num_tokens(), 3);
    assert_eq!(store.contract.all_tokens(&None, None).unwrap(), vec!["a", "b", "c"]);
    assert_eq!(store.contract.tokens_by_owner("A", &None, None).unwrap(), vec!["a", "c"]);
    assert_eq!(store.contract.tokens_by_owner("B", &None, None).unwrap(), vec!["b"]);
    assert_eq!(store.legacy_tokens.all_keys(), vec!["a", "b", "c"]);
    assert_eq!(store.legacy_tokens.len(), 3);
}

#[test]
fn tokens_of_the_current_table_are_left_alone() {
    let mut store = legacy_store(5);
    store.contract.mint("x", "X", None, None).unwrap();
    migrate_legacy_tokens(&mut store, &mock_env(), &no_update(), cosmwasm_std::Response::new())
        .unwrap();
    assert_eq!(store.contract.all_tokens(&None, None).unwrap(), vec!["x"]);
    assert_eq!(store.contract.num_tokens(), 1);
}

#[test]
fn two_hundred_legacy_tokens_come_forward() {
    let mut store = legacy_store(200);
    migrate(&mut store, &mock_env(), &no_update()).unwrap();
    let all = store.contract.all_tokens(&None, Some(MAX_LIMIT)).unwrap();
    assert_eq!(all.len(), 200);
    assert_eq!(store.contract.num_tokens(), 200);
    for id in all.iter() {
        let legacy = store.legacy_tokens.may_load(id).unwrap();
        assert_eq!(store.contract.get(id).unwrap(), legacy);
        assert_eq!(legacy.owner, "owner");
    }
    assert_eq!(store.contract.tokens_by_owner("owner", &None, Some(MAX_LIMIT)).unwrap(), all);
    assert_eq!(store.legacy_tokens.len(), 200);
}

#[test]
fn version_step_names_both_versions() {
    let mut store = legacy_store(0);
    let response =
        migrate_version(&mut store, &mock_env(), &no_update(), cosmwasm_std::Response::new())
            .unwrap();
    assert_eq!(
        response.attributes,
        vec![
            Attribute::new("from_version", "0.16.0"),
            Attribute::new("to_version", CONTRACT_VERSION),
        ]
    );
    assert_eq!(
        store.version,
        Some(ContractVersion {
            contract: "crates.io:cw721-base".to_string(),
            version: "0.19.0".to_string(),
        })
    );
}

#[test]
fn overrides_are_applied_last() {
    let mut store = legacy_store(2);
    let msg = MigrateMsg::WithUpdate {
        minter: Some("new_minter".to_string()),
        creator: Some("new_creator".to_string()),
    };
    let response = migrate(&mut store, &mock_env(), &msg).unwrap();
    assert_eq!(store.minter.get_ownership().unwrap().owner, Some("new_minter".to_string()));
    assert_eq!(store.creator.get_ownership().unwrap().owner, Some("new_creator".to_string()));
    assert_eq!(
        response.attributes,
        vec![
            Attribute::new("creator_and_minter", "legacy_minter"),
            Attribute::new("migrated collection name", "legacy_name"),
            Attribute::new("migrated collection symbol", "legacy_symbol"),
            Attribute::new("from_version", "0.16.0"),
            Attribute::new("to_version", "0.19.0"),
            Attribute::new("creator", "new_creator"),
            Attribute::new("creator", "new_minter"),
        ]
    );
}

#[test]
fn override_steps_replace_the_holder() {
    let mut store = Store::new();
    store.minter.initialize(Some("M")).unwrap();
    store.creator.initialize(Some("C")).unwrap();
    let env = mock_env();
    let only_creator = MigrateMsg::WithUpdate { minter: None, creator: Some("C2".to_string()) };
    let r = migrate_creator(&mut store, &env, &only_creator, cosmwasm_std::Response::new())
        .unwrap();
    assert_eq!(r.attributes, vec![Attribute::new("creator", "C2")]);
    let r = migrate_minter(&mut store, &env, &only_creator, r).unwrap();
    assert_eq!(r.attributes, vec![Attribute::new("creator", "C2")]);
    assert_eq!(store.creator.get_ownership().unwrap().owner, Some("C2".to_string()));
    assert_eq!(store.minter.get_ownership().unwrap().owner, Some("M".to_string()));
}

#[test]
fn second_migration_changes_nothing() {
    let mut store = legacy_store(7);
    let env = mock_env();
    let msg = MigrateMsg::WithUpdate { minter: None, creator: Some("C".to_string()) };
    migrate(&mut store, &env, &msg).unwrap();
    let tokens = store.contract.all_tokens(&None, Some(MAX_LIMIT)).unwrap();
    let minter = store.minter.get_ownership().unwrap();
    let creator = store.creator.get_ownership().unwrap();
    let info = store.contract.collection_info().unwrap().clone();

    let mut later = mock_env();
    later.block.height += 10;
    later.block.time += 60_000_000_000;
    let response = migrate(&mut store, &later, &msg).unwrap();
    assert_eq!(
        response.attributes,
        vec![
            Attribute::new("from_version", "0.19.0"),
            Attribute::new("to_version", "0.19.0"),
            Attribute::new("creator", "C"),
        ]
    );
    assert_eq!(store.contract.all_tokens(&None, Some(MAX_LIMIT)).unwrap(), tokens);
    assert_eq!(store.contract.num_tokens(), 7);
    assert_eq!(store.minter.get_ownership().unwrap(), minter);
    assert_eq!(store.creator.get_ownership().unwrap(), creator);
    assert_eq!(*store.contract.collection_info().unwrap(), info);
    assert_eq!(store.version.as_ref().unwrap().version, CONTRACT_VERSION);
    assert_eq!(store.roles_generation(), RolesGeneration::Current);
    assert_eq!(store.collection_info_generation(), CollectionInfoGeneration::Current);
    assert_eq!(store.tokens_generation(), TokensGeneration::Current);
}
