//! Setting a registry up, and bringing one of an earlier layout forward.

use vstd::prelude::*;
use cosmwasm_std::{Empty, Response};
pub use crate::execute::execute;
pub use crate::query::query;
use crate::error::{ContractError, ErrorKind};
use crate::model::RegistryView;
use crate::msg::{
    current_version, ContractVersion, Env, InstantiateMsg, MessageInfo, MigrateMsg, CONTRACT_NAME,
    CONTRACT_VERSION,
};
use crate::ownership::{none_or, opt_str, OwnershipView};
use crate::response::{add_attribute, new_response, response_attributes};
use crate::state::{copy_opt_text, opt_text, CollectionInfo, CollectionInfoView};
use crate::storage::{
    Attribute, CollectionInfoGeneration, RolesGeneration, Store, StoreView, TokensGeneration,
    LEGACY_COLLECTION_INFO_KEY, LEGACY_MINTER_KEY, VERSION_KEY,
};

verus! {

/// The text slice of an optional text.
fn as_opt_str(o: &Option<String>) -> (r: Option<&str>)
    ensures
        opt_str(r) == opt_text(*o),
{
    match o {
        Some(s) => Some(s.as_str()),
        None => None,
    }
}

/// The identity that a role goes to when a registry is set up: the one that
/// is named, or the caller.
pub open spec fn named_or_sender(named: Option<Seq<char>>, sender: Seq<char>) -> Seq<char> {
    match named {
        Some(n) => n,
        None => sender,
    }
}

/// The store after a registry was set up in it at block time `time` by
/// `sender`.
pub open spec fn instantiated(
    s: StoreView,
    time: u64,
    sender: Seq<char>,
    msg: crate::msg::InstantiateMsgView,
) -> StoreView {
    StoreView {
        version: Some(current_version()),
        minter: Some(OwnershipView::held_by(Some(named_or_sender(msg.minter, sender)))),
        creator: Some(OwnershipView::held_by(Some(named_or_sender(msg.creator, sender)))),
        contract: RegistryView {
            collection_info: Some(
                CollectionInfoView {
                    name: msg.name,
                    symbol: msg.symbol,
                    extension: msg.collection_info_extension,
                    updated_at: time,
                },
            ),
            withdraw_address: match msg.withdraw_address {
                Some(a) => Some(a),
                None => s.contract.withdraw_address,
            },
            ..s.contract
        },
        ..s
    }
}

/// Sets a registry up: records the version, the collection's metadata, the
/// minter and the creator, each the caller where none is named, and the
/// withdraw address if one is given. The response names the minter and the
/// creator.
pub fn instantiate(storage: &mut Store, env: &Env, info: &MessageInfo, msg: InstantiateMsg) -> (r:
    Result<Response<Empty>, ContractError>)
    requires
        old(storage).wf(),
    ensures
        final(storage).wf(),
        final(storage)@ == instantiated(old(storage)@, env.block.time, info.sender@, msg@),
        r matches Ok(resp) && response_attributes(resp) == seq![
            ("minter"@, named_or_sender(msg@.minter, info.sender@)),
            ("creator"@, named_or_sender(msg@.creator, info.sender@)),
        ],
{
    let ghost before = storage@;
    storage.version = Some(
        ContractVersion { contract: CONTRACT_NAME.to_owned(), version: CONTRACT_VERSION.to_owned() },
    );
    let InstantiateMsg { name, symbol, collection_info_extension, minter, creator, withdraw_address } =
        msg;
    storage.contract.update_collection_info(
        CollectionInfo { name, symbol, extension: collection_info_extension, updated_at: env.block.time },
    );
    let minter = match minter {
        Some(m) => m,
        None => info.sender.clone(),
    };
    storage.minter.initialize_owner(Some(minter.as_str()));
    let creator = match creator {
        Some(c) => c,
        None => info.sender.clone(),
    };
    storage.creator.initialize_owner(Some(creator.as_str()));
    match withdraw_address {
        Some(a) => {
            storage.contract.set_withdraw_address(a);
        },
        None => {},
    }
    proof {
        reveal_strlit("minter");
        reveal_strlit("creator");
    }
    let response = add_attribute(new_response(), "minter", minter.as_str());
    let response = add_attribute(response, "creator", creator.as_str());
    proof {
        assert(response_attributes(response) =~= seq![
            ("minter"@, minter@),
            ("creator"@, creator@),
        ]);
        assert(storage@ =~= instantiated(before, env.block.time, info.sender@, msg@));
    }
    Ok(response)
}

/// Whether a step moved the store from `before` to `after` and answered `r`
/// as `outcome` says: to the next store, with the attributes `added` behind
/// those of `response`; or not at all, with the failure.
pub open spec fn step_done(
    before: StoreView,
    after: StoreView,
    response: Response<Empty>,
    r: Result<Response<Empty>, ContractError>,
    outcome: Result<StoreView, crate::error::ContractErrorView>,
    added: Seq<Attribute>,
) -> bool {
    match outcome {
        Ok(next) => after == next && (r matches Ok(resp) && response_attributes(resp)
            == response_attributes(response) + added),
        Err(e) => after == before && (r matches Err(x) && x@ == e),
    }
}

/// Records the current version, and names the earlier and the current one
/// in the response. Fails if no version was recorded.
pub fn migrate_version(storage: &mut Store, _env: &Env, _msg: &MigrateMsg, response: Response<Empty>) -> (r:
    Result<Response<Empty>, ContractError>)
    requires
        old(storage).wf(),
    ensures
        final(storage).wf(),
        step_done(
            old(storage)@,
            final(storage)@,
            response,
            r,
            old(storage)@.migrate_version(),
            old(storage)@.version_attributes(),
        ),
{
    let from_version = match &storage.version {
        Some(v) => v.version.clone(),
        None => {
            return Err(ContractError::new(ErrorKind::NotFound, VERSION_KEY));
        },
    };
    proof {
        reveal_strlit("from_version");
        reveal_strlit("to_version");
    }
    let ghost attributes = response_attributes(response);
    let response = add_attribute(response, "from_version", from_version.as_str());
    let response = add_attribute(response, "to_version", CONTRACT_VERSION);
    storage.version = Some(
        ContractVersion { contract: CONTRACT_NAME.to_owned(), version: CONTRACT_VERSION.to_owned() },
    );
    proof {
        assert(response_attributes(response) =~= attributes + seq![
            ("from_version"@, from_version@),
            ("to_version"@, CONTRACT_VERSION@),
        ]);
    }
    Ok(response)
}

/// Gives the creator's role to the identity that `msg` names, if it names
/// one, whoever held it.
pub fn migrate_creator(storage: &mut Store, _env: &Env, msg: &MigrateMsg, response: Response<Empty>) -> (r:
    Result<Response<Empty>, ContractError>)
    requires
        old(storage).wf(),
    ensures
        final(storage).wf(),
        step_done(
            old(storage)@,
            final(storage)@,
            response,
            r,
            Ok(old(storage)@.migrate_creator(msg@)),
            StoreView::creator_attributes(msg@),
        ),
{
    let ghost attributes = response_attributes(response);
    match msg {
        MigrateMsg::WithUpdate { creator, .. } => {
            match creator {
                Some(creator) => {
                    storage.creator.initialize_owner(Some(creator.as_str()));
                    proof {
                        reveal_strlit("creator");
                    }
                    let response = add_attribute(response, "creator", creator.as_str());
                    proof {
                        assert(response_attributes(response) =~= attributes + seq![
                            ("creator"@, creator@),
                        ]);
                    }
                    return Ok(response);
                },
                None => {},
            }
        },
    }
    proof {
        assert(attributes =~= attributes + Seq::<Attribute>::empty());
    }
    Ok(response)
}

/// Gives the minter's role to the identity that `msg` names, if it names
/// one, whoever held it. The response names the minter under the key
/// `creator`, as it names the creator.
pub fn migrate_minter(storage: &mut Store, _env: &Env, msg: &MigrateMsg, response: Response<Empty>) -> (r:
    Result<Response<Empty>, ContractError>)
    requires
        old(storage).wf(),
    ensures
        final(storage).wf(),
        step_done(
            old(storage)@,
            final(storage)@,
            response,
            r,
            Ok(old(storage)@.migrate_minter(msg@)),
            StoreView::minter_attributes(msg@),
        ),
{
    let ghost attributes = response_attributes(response);
    match msg {
        MigrateMsg::WithUpdate { minter, .. } => {
            match minter {
                Some(minter) => {
                    storage.minter.initialize_owner(Some(minter.as_str()));
                    proof {
                        reveal_strlit("creator");
                    }
                    let response = add_attribute(response, "creator", minter.as_str());
                    proof {
                        assert(response_attributes(response) =~= attributes + seq![
                            ("creator"@, minter@),
                        ]);
                    }
                    return Ok(response);
                },
                None => {},
            }
        },
    }
    proof {
        assert(attributes =~= attributes + Seq::<Attribute>::empty());
    }
    Ok(response)
}

/// Brings the roles forward where the minter has no record yet. With the
/// creator's record, which once served both roles, the minter gets a record
/// with the same holder. Without it, both roles go to the address that the
/// earliest layout kept; the step fails if that is absent. The earlier data
/// stays as it is.
pub fn migrate_legacy_minter_and_creator(
    storage: &mut Store,
    _env: &Env,
    _msg: &MigrateMsg,
    response: Response<Empty>,
) -> (r: Result<Response<Empty>, ContractError>)
    requires
        old(storage).wf(),
    ensures
        final(storage).wf(),
        step_done(
            old(storage)@,
            final(storage)@,
            response,
            r,
            old(storage)@.migrate_legacy_minter_and_creator(),
            old(storage)@.legacy_minter_attributes(),
        ),
{
    let ghost before = storage@;
    let ghost attributes = response_attributes(response);
    let creator_and_minter = match storage.roles_generation() {
        RolesGeneration::Current => {
            proof {
                assert(attributes =~= attributes + Seq::<Attribute>::empty());
            }
            return Ok(response);
        },
        RolesGeneration::SharedOwnership => {
            let owner = match storage.creator.may_load() {
                Some(ownership) => copy_opt_text(&ownership.owner),
                None => None,
            };
            storage.minter.initialize_owner(as_opt_str(&owner));
            owner
        },
        RolesGeneration::LegacyMinter => {
            let legacy_minter = match &storage.legacy_minter {
                Some(m) => m.clone(),
                None => {
                    return Err(ContractError::new(ErrorKind::InvalidState, LEGACY_MINTER_KEY));
                },
            };
            storage.minter.initialize_owner(Some(legacy_minter.as_str()));
            storage.creator.initialize_owner(Some(legacy_minter.as_str()));
            Some(legacy_minter)
        },
    };
    let value = none_or(creator_and_minter.as_ref());
    proof {
        reveal_strlit("creator_and_minter");
    }
    let response = add_attribute(response, "creator_and_minter", value.as_str());
    proof {
        assert(response_attributes(response) =~= attributes + before.legacy_minter_attributes());
        assert(storage@ =~= before.migrate_legacy_minter_and_creator()->Ok_0);
    }
    Ok(response)
}

/// Brings the collection's metadata forward where none of the current
/// layout is there: the name and the symbol of the earlier layout are
/// written forward, without extension, as updated at the block's time. The
/// step fails if the earlier data is absent, and leaves it as it is.
pub fn migrate_legacy_collection_info(
    storage: &mut Store,
    env: &Env,
    _msg: &MigrateMsg,
    response: Response<Empty>,
) -> (r: Result<Response<Empty>, ContractError>)
    requires
        old(storage).wf(),
    ensures
        final(storage).wf(),
        step_done(
            old(storage)@,
            final(storage)@,
            response,
            r,
            old(storage)@.migrate_legacy_collection_info(env.block.time),
            old(storage)@.legacy_collection_info_attributes(),
        ),
{
    let ghost before = storage@;
    let ghost attributes = response_attributes(response);
    match storage.collection_info_generation() {
        CollectionInfoGeneration::Current => {
            proof {
                assert(attributes =~= attributes + Seq::<Attribute>::empty());
            }
            Ok(response)
        },
        CollectionInfoGeneration::Legacy => {
            let (name, symbol) = match &storage.legacy_collection_info {
                Some(c) => (c.name.clone(), c.symbol.clone()),
                None => {
                    return Err(
                        ContractError::new(ErrorKind::InvalidState, LEGACY_COLLECTION_INFO_KEY),
                    );
                },
            };
            let collection_info = CollectionInfo {
                name: name.clone(),
                symbol: symbol.clone(),
                extension: None,
                updated_at: env.block.time,
            };
            storage.contract.update_collection_info(collection_info);
            proof {
                reveal_strlit("migrated collection name");
                reveal_strlit("migrated collection symbol");
            }
            let response = add_attribute(response, "migrated collection name", name.as_str());
            let response = add_attribute(response, "migrated collection symbol", symbol.as_str());
            proof {
                assert(response_attributes(response) =~= attributes
                    + before.legacy_collection_info_attributes());
                assert(storage@ =~= before.migrate_legacy_collection_info(env.block.time)->Ok_0);
            }
            Ok(response)
        },
    }
}

/// Brings the tokens forward where the current table holds none: every
/// record of the earlier table is copied, in the ascending order of the
/// identifiers, and counted and filed in the owner index as it enters. The
/// earlier table stays as it is.
pub fn migrate_legacy_tokens(storage: &mut Store, _env: &Env, _msg: &MigrateMsg, response: Response<Empty>) -> (r:
    Result<Response<Empty>, ContractError>)
    requires
        old(storage).wf(),
    ensures
        final(storage).wf(),
        step_done(
            old(storage)@,
            final(storage)@,
            response,
            r,
            Ok(old(storage)@.migrate_legacy_tokens()),
            Seq::empty(),
        ),
{
    let ghost before = storage@;
    let ghost attributes = response_attributes(response);
    proof {
        assert(attributes =~= attributes + Seq::<Attribute>::empty());
    }
    match storage.tokens_generation() {
        TokensGeneration::Current => Ok(response),
        TokensGeneration::Legacy => {
            storage.contract.copy_from(&storage.legacy_tokens);
            proof {
                assert(storage@ =~= before.migrate_legacy_tokens());
            }
            Ok(response)
        },
    }
}

/// The failure of the first step of a migration that would fail, if one
/// would.
fn check_migration(storage: &Store, env: &Env, msg: &MigrateMsg) -> (r: Result<(), ContractError>)
    requires
        storage.wf(),
    ensures
        match storage@.migrate(env.block.time, msg@) {
            Ok(_) => r is Ok,
            Err(e) => r matches Err(x) && x@ == e,
        },
{
    match storage.roles_generation() {
        RolesGeneration::LegacyMinter => {
            if storage.legacy_minter.is_none() {
                return Err(ContractError::new(ErrorKind::InvalidState, LEGACY_MINTER_KEY));
            }
        },
        _ => {},
    }
    match storage.collection_info_generation() {
        CollectionInfoGeneration::Legacy => {
            if storage.legacy_collection_info.is_none() {
                return Err(ContractError::new(ErrorKind::InvalidState, LEGACY_COLLECTION_INFO_KEY));
            }
        },
        _ => {},
    }
    if storage.version.is_none() {
        return Err(ContractError::new(ErrorKind::NotFound, VERSION_KEY));
    }
    Ok(())
}

/// Brings a registry of an earlier layout forward: the roles, the
/// collection's metadata and the tokens, in this order; then records the
/// current version; then sets the creator and the minter that `msg` names.
/// Where a step would fail, nothing is changed. The data of the earlier
/// layouts is never changed.
pub fn migrate(storage: &mut Store, env: &Env, msg: &MigrateMsg) -> (r: Result<
    Response<Empty>,
    ContractError,
>)
    requires
        old(storage).wf(),
    ensures
        final(storage).wf(),
        final(storage)@.legacy() == old(storage)@.legacy(),
        match old(storage)@.migrate(env.block.time, msg@) {
            Ok(next) => final(storage)@ == next && (r matches Ok(resp) && response_attributes(resp)
                == old(storage)@.migrate_attributes(msg@)),
            Err(e) => final(storage)@ == old(storage)@ && (r matches Err(x) && x@ == e),
        },
{
    let ghost before = storage@;
    match check_migration(storage, env, msg) {
        Err(e) => {
            return Err(e);
        },
        Ok(()) => {},
    }
    let response = new_response();
    // first the data of the earlier layouts ...
    let response = match migrate_legacy_minter_and_creator(storage, env, msg, response) {
        Ok(r) => r,
        Err(e) => {
            return Err(e);
        },
    };
    let response = match migrate_legacy_collection_info(storage, env, msg, response) {
        Ok(r) => r,
        Err(e) => {
            return Err(e);
        },
    };
    let response = match migrate_legacy_tokens(storage, env, msg, response) {
        Ok(r) => r,
        Err(e) => {
            return Err(e);
        },
    };
    // ... then the version ...
    let response = match migrate_version(storage, env, msg, response) {
        Ok(r) => r,
        Err(e) => {
            return Err(e);
        },
    };
    // ... and the creator and the minter last
    let response = match migrate_creator(storage, env, msg, response) {
        Ok(r) => r,
        Err(e) => {
            return Err(e);
        },
    };
    let response = match migrate_minter(storage, env, msg, response) {
        Ok(r) => r,
        Err(e) => {
            return Err(e);
        },
    };
    proof {
        assert(response_attributes(response) =~= before.migrate_attributes(msg@));
    }
    Ok(response)
}

} // verus!
