//! The operations as a caller may ask for them: each one checks that the
//! caller may take it, then takes it on the registry.

use vstd::prelude::*;
use cosmwasm_std::{Empty, Response};
use crate::error::{ContractError, ContractErrorView, ErrorKind};
use crate::expiration::Expiration;
use crate::config::granted_until;
use crate::model::{has_approval, RegistryView};
use crate::msg::{Env, MessageInfo};
use crate::ownership::{action_outcome, Action, OwnershipView};
use crate::response::{add_attribute, new_response, response_attributes};
use crate::state::{opt_metadata, opt_text, CollectionInfo, Metadata};
use crate::storage::{Attribute, Store, StoreView, CREATOR_KEY, MINTER_KEY};

verus! {

/// The failure of `kind` about `context`.
pub open spec fn failure(kind: ErrorKind, context: Seq<char>) -> ContractErrorView {
    ContractErrorView { kind, context }
}

/// Why `sender` may not act in the role `role` whose record is `record`, if
/// it may not: the record was never set, or the role is held by another
/// identity or by nobody.
pub open spec fn role_refusal(record: Option<OwnershipView>, role: Seq<char>, sender: Seq<char>) -> Option<
    ContractErrorView,
> {
    match record {
        None => Some(failure(ErrorKind::Uninitialized, role)),
        Some(o) => if o.owner == Some(sender) {
            None
        } else {
            Some(failure(ErrorKind::Unauthorized, role))
        },
    }
}

/// Whether an operation moved the store from `before` to `after` and
/// answered `r` as `outcome` says: to the next store, with the attributes
/// `attributes`; or not at all, with the failure.
pub open spec fn done(
    before: StoreView,
    after: StoreView,
    r: Result<Response<Empty>, ContractError>,
    outcome: Result<StoreView, ContractErrorView>,
    attributes: Seq<Attribute>,
) -> bool {
    match outcome {
        Ok(next) => after == next && (r matches Ok(resp) && response_attributes(resp)
            == attributes),
        Err(e) => after == before && (r matches Err(x) && x@ == e),
    }
}

/// The response of an operation `action` of `sender` on the token
/// `token_id`, with one more attribute between sender and token.
fn respond(action: &str, sender: &str, key: &'static str, value: &str, token_id: &str) -> (r:
    Response<Empty>)
    requires
        key@.len() > 0 && key@[0] != '_',
    ensures
        response_attributes(r) == seq![
            ("action"@, action@),
            ("sender"@, sender@),
            (key@, value@),
            ("token_id"@, token_id@),
        ],
{
    proof {
        reveal_strlit("action");
        reveal_strlit("sender");
        reveal_strlit("token_id");
    }
    let r = add_attribute(new_response(), "action", action);
    let r = add_attribute(r, "sender", sender);
    let r = add_attribute(r, key, value);
    let r = add_attribute(r, "token_id", token_id);
    proof {
        assert(response_attributes(r) =~= seq![
            ("action"@, action@),
            ("sender"@, sender@),
            (key@, value@),
            ("token_id"@, token_id@),
        ]);
    }
    r
}

/// What minting the token `token_id` for `owner` by `sender` makes of the
/// store: the minter alone may mint, and the identifier must be free.
pub open spec fn mint_outcome(
    s: StoreView,
    sender: Seq<char>,
    token_id: Seq<char>,
    owner: Seq<char>,
    token_uri: Option<Seq<char>>,
    extension: Option<crate::state::MetadataView>,
) -> Result<StoreView, ContractErrorView> {
    match role_refusal(s.minter, MINTER_KEY@, sender) {
        Some(e) => Err(e),
        None => if s.contract.contains(token_id) {
            Err(failure(ErrorKind::AlreadyExists, token_id))
        } else {
            Ok(StoreView { contract: s.contract.mint(token_id, owner, token_uri, extension), ..s })
        },
    }
}

/// The caller mints the token `token_id` for `owner`. Only the minter may.
pub fn mint(
    storage: &mut Store,
    info: &MessageInfo,
    token_id: &str,
    owner: &str,
    token_uri: Option<String>,
    extension: Option<Metadata>,
) -> (r: Result<Response<Empty>, ContractError>)
    requires
        old(storage).wf(),
    ensures
        final(storage).wf(),
        done(
            old(storage)@,
            final(storage)@,
            r,
            mint_outcome(
                old(storage)@,
                info.sender@,
                token_id@,
                owner@,
                opt_text(token_uri),
                opt_metadata(extension),
            ),
            seq![
                ("action"@, "mint"@),
                ("sender"@, info.sender@),
                ("owner"@, owner@),
                ("token_id"@, token_id@),
            ],
        ),
{
    match storage.minter.assert_owner(info.sender.as_str()) {
        Err(e) => {
            return Err(e);
        },
        Ok(()) => {},
    }
    match storage.contract.mint(token_id, owner, token_uri, extension) {
        Err(e) => {
            return Err(e);
        },
        Ok(()) => {},
    }
    proof {
        reveal_strlit("owner");
    }
    Ok(respond("mint", info.sender.as_str(), "owner", owner, token_id))
}

/// Why `sender` may not hand on or burn the token `token_id` in a block of
/// the given height and time, if it may not: the token is absent, or the
/// sender neither owns it nor holds a grant of it that has not ended.
pub open spec fn holder_refusal(
    r: RegistryView,
    sender: Seq<char>,
    token_id: Seq<char>,
    height: u64,
    time: u64,
) -> Option<ContractErrorView> {
    if !r.contains(token_id) {
        Some(failure(ErrorKind::NotFound, token_id))
    } else if !r.is_approved_or_owner(token_id, sender, height, time) {
        Some(failure(ErrorKind::Unauthorized, token_id))
    } else {
        None
    }
}

/// The failure that `holder_refusal` names, if it names one.
fn check_holder(storage: &Store, env: &Env, sender: &str, token_id: &str) -> (r: Result<
    (),
    ContractError,
>)
    requires
        storage.wf(),
    ensures
        match holder_refusal(storage@.contract, sender@, token_id@, env.block.height, env.block.time) {
            Some(e) => r matches Err(x) && x@ == e,
            None => r is Ok,
        },
{
    match storage.contract.get(token_id) {
        Err(e) => Err(e),
        Ok(_) => if storage.contract.is_approved_or_owner(token_id, sender, &env.block) {
            Ok(())
        } else {
            Err(ContractError::new(ErrorKind::Unauthorized, token_id))
        },
    }
}

/// What handing the token `token_id` to `recipient` by `sender` makes of
/// the store.
pub open spec fn transfer_outcome(
    s: StoreView,
    sender: Seq<char>,
    recipient: Seq<char>,
    token_id: Seq<char>,
    height: u64,
    time: u64,
) -> Result<StoreView, ContractErrorView> {
    match holder_refusal(s.contract, sender, token_id, height, time) {
        Some(e) => Err(e),
        None => Ok(StoreView { contract: s.contract.transfer(token_id, recipient), ..s }),
    }
}

/// The caller hands the token `token_id` to `recipient`. Only the owner, or
/// a spender whose grant has not ended, may.
pub fn transfer_nft(storage: &mut Store, env: &Env, info: &MessageInfo, recipient: &str, token_id: &str) -> (r:
    Result<Response<Empty>, ContractError>)
    requires
        old(storage).wf(),
    ensures
        final(storage).wf(),
        done(
            old(storage)@,
            final(storage)@,
            r,
            transfer_outcome(
                old(storage)@,
                info.sender@,
                recipient@,
                token_id@,
                env.block.height,
                env.block.time,
            ),
            seq![
                ("action"@, "transfer_nft"@),
                ("sender"@, info.sender@),
                ("recipient"@, recipient@),
                ("token_id"@, token_id@),
            ],
        ),
{
    match check_holder(storage, env, info.sender.as_str(), token_id) {
        Err(e) => {
            return Err(e);
        },
        Ok(()) => {},
    }
    match storage.contract.transfer(token_id, recipient) {
        Err(e) => {
            return Err(e);
        },
        Ok(()) => {},
    }
    proof {
        reveal_strlit("recipient");
    }
    Ok(respond("transfer_nft", info.sender.as_str(), "recipient", recipient, token_id))
}

/// What burning the token `token_id` by `sender` makes of the store.
pub open spec fn burn_outcome(
    s: StoreView,
    sender: Seq<char>,
    token_id: Seq<char>,
    height: u64,
    time: u64,
) -> Result<StoreView, ContractErrorView> {
    match holder_refusal(s.contract, sender, token_id, height, time) {
        Some(e) => Err(e),
        None => Ok(StoreView { contract: s.contract.burn(token_id), ..s }),
    }
}

/// The caller burns the token `token_id`. Only the owner, or a spender
/// whose grant has not ended, may.
pub fn burn_nft(storage: &mut Store, env: &Env, info: &MessageInfo, token_id: &str) -> (r: Result<
    Response<Empty>,
    ContractError,
>)
    requires
        old(storage).wf(),
    ensures
        final(storage).wf(),
        done(
            old(storage)@,
            final(storage)@,
            r,
            burn_outcome(
                old(storage)@,
                info.sender@,
                token_id@,
                env.block.height,
                env.block.time,
            ),
            seq![("action"@, "burn"@), ("sender"@, info.sender@), ("token_id"@, token_id@)],
        ),
{
    match check_holder(storage, env, info.sender.as_str(), token_id) {
        Err(e) => {
            return Err(e);
        },
        Ok(()) => {},
    }
    match storage.contract.burn(token_id) {
        Err(e) => {
            return Err(e);
        },
        Ok(()) => {},
    }
    proof {
        reveal_strlit("action");
        reveal_strlit("sender");
        reveal_strlit("token_id");
    }
    let r = add_attribute(new_response(), "action", "burn");
    let r = add_attribute(r, "sender", info.sender.as_str());
    let r = add_attribute(r, "token_id", token_id);
    proof {
        assert(response_attributes(r) =~= seq![
            ("action"@, "burn"@),
            ("sender"@, info.sender@),
            ("token_id"@, token_id@),
        ]);
    }
    Ok(r)
}

/// Why `sender` may not decide on the grants of the token `token_id`, if
/// it may not: the token is absent, or another identity owns it.
pub open spec fn owner_refusal(r: RegistryView, sender: Seq<char>, token_id: Seq<char>) -> Option<
    ContractErrorView,
> {
    if !r.contains(token_id) {
        Some(failure(ErrorKind::NotFound, token_id))
    } else if r.table.tokens[token_id].owner != sender {
        Some(failure(ErrorKind::Unauthorized, token_id))
    } else {
        None
    }
}

/// The failure that `owner_refusal` names, if it names one.
fn check_owner(storage: &Store, sender: &str, token_id: &str) -> (r: Result<(), ContractError>)
    requires
        storage.wf(),
    ensures
        match owner_refusal(storage@.contract, sender@, token_id@) {
            Some(e) => r matches Err(x) && x@ == e,
            None => r is Ok,
        },
{
    match storage.contract.get(token_id) {
        Err(e) => Err(e),
        Ok(info) => if crate::order::str_equal(info.owner.as_str(), sender) {
            Ok(())
        } else {
            Err(ContractError::new(ErrorKind::Unauthorized, token_id))
        },
    }
}

/// What granting the token `token_id` to `spender` by `sender` makes of
/// the store in a block of the given height and time.
pub open spec fn approve_outcome(
    s: StoreView,
    sender: Seq<char>,
    spender: Seq<char>,
    token_id: Seq<char>,
    expires: Option<Expiration>,
    height: u64,
    time: u64,
) -> Result<StoreView, ContractErrorView> {
    match owner_refusal(s.contract, sender, token_id) {
        Some(e) => Err(e),
        None => if granted_until(expires).expired_at(height, time) {
            Err(failure(ErrorKind::Expired, token_id))
        } else {
            Ok(
                StoreView {
                    contract: s.contract.approve(token_id, spender, granted_until(expires)),
                    ..s
                },
            )
        },
    }
}

/// The caller grants the token `token_id` to `spender` until `expires`.
/// Only the owner may, and the expiration must not have been reached.
pub fn approve(
    storage: &mut Store,
    env: &Env,
    info: &MessageInfo,
    spender: &str,
    token_id: &str,
    expires: Option<Expiration>,
) -> (r: Result<Response<Empty>, ContractError>)
    requires
        old(storage).wf(),
    ensures
        final(storage).wf(),
        done(
            old(storage)@,
            final(storage)@,
            r,
            approve_outcome(
                old(storage)@,
                info.sender@,
                spender@,
                token_id@,
                expires,
                env.block.height,
                env.block.time,
            ),
            seq![
                ("action"@, "approve"@),
                ("sender"@, info.sender@),
                ("spender"@, spender@),
                ("token_id"@, token_id@),
            ],
        ),
{
    match check_owner(storage, info.sender.as_str(), token_id) {
        Err(e) => {
            return Err(e);
        },
        Ok(()) => {},
    }
    match storage.contract.approve(token_id, spender, expires, &env.block) {
        Err(e) => {
            return Err(e);
        },
        Ok(()) => {},
    }
    proof {
        reveal_strlit("spender");
    }
    Ok(respond("approve", info.sender.as_str(), "spender", spender, token_id))
}

/// What taking the grant of the token `token_id` to `spender` back by
/// `sender` makes of the store.
pub open spec fn revoke_outcome(
    s: StoreView,
    sender: Seq<char>,
    spender: Seq<char>,
    token_id: Seq<char>,
) -> Result<StoreView, ContractErrorView> {
    match owner_refusal(s.contract, sender, token_id) {
        Some(e) => Err(e),
        None => if !has_approval(s.contract.table.tokens[token_id].approvals, spender) {
            Err(failure(ErrorKind::ApprovalNotFound, spender))
        } else {
            Ok(StoreView { contract: s.contract.revoke(token_id, spender), ..s })
        },
    }
}

/// The caller takes the grant of the token `token_id` to `spender` back.
/// Only the owner may, and there must be such a grant.
pub fn revoke(storage: &mut Store, info: &MessageInfo, spender: &str, token_id: &str) -> (r: Result<
    Response<Empty>,
    ContractError,
>)
    requires
        old(storage).wf(),
    ensures
        final(storage).wf(),
        done(
            old(storage)@,
            final(storage)@,
            r,
            revoke_outcome(old(storage)@, info.sender@, spender@, token_id@),
            seq![
                ("action"@, "revoke"@),
                ("sender"@, info.sender@),
                ("spender"@, spender@),
                ("token_id"@, token_id@),
            ],
        ),
{
    match check_owner(storage, info.sender.as_str(), token_id) {
        Err(e) => {
            return Err(e);
        },
        Ok(()) => {},
    }
    match storage.contract.revoke(token_id, spender) {
        Err(e) => {
            return Err(e);
        },
        Ok(()) => {},
    }
    proof {
        reveal_strlit("spender");
    }
    Ok(respond("revoke", info.sender.as_str(), "spender", spender, token_id))
}

/// What replacing the collection's metadata by `sender` makes of the store:
/// the creator alone may replace it.
pub open spec fn update_collection_info_outcome(
    s: StoreView,
    sender: Seq<char>,
    new_info: crate::state::CollectionInfoView,
) -> Result<StoreView, ContractErrorView> {
    match role_refusal(s.creator, CREATOR_KEY@, sender) {
        Some(e) => Err(e),
        None => Ok(
            StoreView {
                contract: RegistryView { collection_info: Some(new_info), ..s.contract },
                ..s
            },
        ),
    }
}

/// The caller replaces the collection's metadata as a whole. Only the
/// creator may.
pub fn update_collection_info(storage: &mut Store, info: &MessageInfo, new_info: CollectionInfo) -> (r:
    Result<Response<Empty>, ContractError>)
    requires
        old(storage).wf(),
    ensures
        final(storage).wf(),
        done(
            old(storage)@,
            final(storage)@,
            r,
            update_collection_info_outcome(old(storage)@, info.sender@, new_info@),
            seq![("action"@, "update_collection_info"@), ("sender"@, info.sender@)],
        ),
{
    match storage.creator.assert_owner(info.sender.as_str()) {
        Err(e) => {
            return Err(e);
        },
        Ok(()) => {},
    }
    storage.contract.update_collection_info(new_info);
    proof {
        reveal_strlit("action");
        reveal_strlit("sender");
    }
    let r = add_attribute(new_response(), "action", "update_collection_info");
    let r = add_attribute(r, "sender", info.sender.as_str());
    proof {
        assert(response_attributes(r) =~= seq![
            ("action"@, "update_collection_info"@),
            ("sender"@, info.sender@),
        ]);
    }
    Ok(r)
}

/// What taking `action` on the record of a role by `sender` makes of the
/// record, the failure being about the role `role`.
pub open spec fn role_outcome(
    record: Option<OwnershipView>,
    role: Seq<char>,
    sender: Seq<char>,
    action: Action,
    height: u64,
    time: u64,
) -> Result<OwnershipView, ContractErrorView> {
    match action_outcome(record, sender, action@, height, time) {
        Ok(next) => Ok(next),
        Err(kind) => Err(failure(kind, role)),
    }
}

/// What taking `action` on the minter's role by `sender` makes of the
/// store.
pub open spec fn update_minter_outcome(
    s: StoreView,
    sender: Seq<char>,
    action: Action,
    height: u64,
    time: u64,
) -> Result<StoreView, ContractErrorView> {
    match role_outcome(s.minter, MINTER_KEY@, sender, action, height, time) {
        Ok(next) => Ok(StoreView { minter: Some(next), ..s }),
        Err(e) => Err(e),
    }
}

/// What taking `action` on the creator's role by `sender` makes of the
/// store.
pub open spec fn update_creator_outcome(
    s: StoreView,
    sender: Seq<char>,
    action: Action,
    height: u64,
    time: u64,
) -> Result<StoreView, ContractErrorView> {
    match role_outcome(s.creator, CREATOR_KEY@, sender, action, height, time) {
        Ok(next) => Ok(StoreView { creator: Some(next), ..s }),
        Err(e) => Err(e),
    }
}

/// The response to an action on a role.
fn respond_for_role(sender: &str, role: &str) -> (r: Response<Empty>)
    ensures
        response_attributes(r) == seq![
            ("action"@, "update_ownership"@),
            ("sender"@, sender@),
            ("role"@, role@),
        ],
{
    proof {
        reveal_strlit("action");
        reveal_strlit("sender");
        reveal_strlit("role");
    }
    let r = add_attribute(new_response(), "action", "update_ownership");
    let r = add_attribute(r, "sender", sender);
    let r = add_attribute(r, "role", role);
    proof {
        assert(response_attributes(r) =~= seq![
            ("action"@, "update_ownership"@),
            ("sender"@, sender@),
            ("role"@, role@),
        ]);
    }
    r
}

/// The caller takes `action` on the minter's role: proposes it to another
/// identity, accepts it, or gives it up.
pub fn update_minter_ownership(storage: &mut Store, env: &Env, info: &MessageInfo, action: Action) -> (r:
    Result<Response<Empty>, ContractError>)
    requires
        old(storage).wf(),
    ensures
        final(storage).wf(),
        done(
            old(storage)@,
            final(storage)@,
            r,
            update_minter_outcome(
                old(storage)@,
                info.sender@,
                action,
                env.block.height,
                env.block.time,
            ),
            seq![
                ("action"@, "update_ownership"@),
                ("sender"@, info.sender@),
                ("role"@, MINTER_KEY@),
            ],
        ),
{
    match storage.minter.update_ownership(&env.block, info.sender.as_str(), action) {
        Err(e) => Err(e),
        Ok(_) => Ok(respond_for_role(info.sender.as_str(), MINTER_KEY)),
    }
}

/// The caller takes `action` on the creator's role: proposes it to another
/// identity, accepts it, or gives it up.
pub fn update_creator_ownership(storage: &mut Store, env: &Env, info: &MessageInfo, action: Action) -> (r:
    Result<Response<Empty>, ContractError>)
    requires
        old(storage).wf(),
    ensures
        final(storage).wf(),
        done(
            old(storage)@,
            final(storage)@,
            r,
            update_creator_outcome(
                old(storage)@,
                info.sender@,
                action,
                env.block.height,
                env.block.time,
            ),
            seq![
                ("action"@, "update_ownership"@),
                ("sender"@, info.sender@),
                ("role"@, CREATOR_KEY@),
            ],
        ),
{
    match storage.creator.update_ownership(&env.block, info.sender.as_str(), action) {
        Err(e) => Err(e),
        Ok(_) => Ok(respond_for_role(info.sender.as_str(), CREATOR_KEY)),
    }
}

/// What a caller may ask a registry to do.
#[derive(Debug, PartialEq, Eq)]
pub enum ExecuteMsg {
    /// Hand a token to `recipient`.
    TransferNft { recipient: String, token_id: String },
    /// Grant a token to `spender` until `expires`, or for ever.
    Approve { spender: String, token_id: String, expires: Option<Expiration> },
    /// Take the grant of a token to `spender` back.
    Revoke { spender: String, token_id: String },
    /// Mint a token for `owner`.
    Mint {
        token_id: String,
        owner: String,
        token_uri: Option<String>,
        extension: Option<Metadata>,
    },
    /// Burn a token.
    Burn { token_id: String },
    /// Replace the collection's metadata.
    UpdateCollectionInfo { collection_info: CollectionInfo },
    /// Act on the minter's role.
    UpdateMinterOwnership(Action),
    /// Act on the creator's role.
    UpdateCreatorOwnership(Action),
}

/// What `msg` of the caller `info` makes of the store in the block of
/// `env`.
pub open spec fn execute_outcome(s: StoreView, env: Env, info: MessageInfo, msg: ExecuteMsg) -> Result<
    StoreView,
    ContractErrorView,
> {
    let sender = info.sender@;
    let height = env.block.height;
    let time = env.block.time;
    match msg {
        ExecuteMsg::TransferNft { recipient, token_id } => transfer_outcome(
            s,
            sender,
            recipient@,
            token_id@,
            height,
            time,
        ),
        ExecuteMsg::Approve { spender, token_id, expires } => approve_outcome(
            s,
            sender,
            spender@,
            token_id@,
            expires,
            height,
            time,
        ),
        ExecuteMsg::Revoke { spender, token_id } => revoke_outcome(s, sender, spender@, token_id@),
        ExecuteMsg::Mint { token_id, owner, token_uri, extension } => mint_outcome(
            s,
            sender,
            token_id@,
            owner@,
            opt_text(token_uri),
            opt_metadata(extension),
        ),
        ExecuteMsg::Burn { token_id } => burn_outcome(s, sender, token_id@, height, time),
        ExecuteMsg::UpdateCollectionInfo { collection_info } => update_collection_info_outcome(
            s,
            sender,
            collection_info@,
        ),
        ExecuteMsg::UpdateMinterOwnership(action) => update_minter_outcome(
            s,
            sender,
            action,
            height,
            time,
        ),
        ExecuteMsg::UpdateCreatorOwnership(action) => update_creator_outcome(
            s,
            sender,
            action,
            height,
            time,
        ),
    }
}

/// The attributes of the response to `msg` of the caller `info`.
pub open spec fn execute_attributes(info: MessageInfo, msg: ExecuteMsg) -> Seq<Attribute> {
    let sender = ("sender"@, info.sender@);
    match msg {
        ExecuteMsg::TransferNft { recipient, token_id } => seq![
            ("action"@, "transfer_nft"@),
            sender,
            ("recipient"@, recipient@),
            ("token_id"@, token_id@),
        ],
        ExecuteMsg::Approve { spender, token_id, expires } => seq![
            ("action"@, "approve"@),
            sender,
            ("spender"@, spender@),
            ("token_id"@, token_id@),
        ],
        ExecuteMsg::Revoke { spender, token_id } => seq![
            ("action"@, "revoke"@),
            sender,
            ("spender"@, spender@),
            ("token_id"@, token_id@),
        ],
        ExecuteMsg::Mint { token_id, owner, token_uri, extension } => seq![
            ("action"@, "mint"@),
            sender,
            ("owner"@, owner@),
            ("token_id"@, token_id@),
        ],
        ExecuteMsg::Burn { token_id } => seq![
            ("action"@, "burn"@),
            sender,
            ("token_id"@, token_id@),
        ],
        ExecuteMsg::UpdateCollectionInfo { collection_info } => seq![
            ("action"@, "update_collection_info"@),
            sender,
        ],
        ExecuteMsg::UpdateMinterOwnership(action) => seq![
            ("action"@, "update_ownership"@),
            sender,
            ("role"@, MINTER_KEY@),
        ],
        ExecuteMsg::UpdateCreatorOwnership(action) => seq![
            ("action"@, "update_ownership"@),
            sender,
            ("role"@, CREATOR_KEY@),
        ],
    }
}

/// Takes the operation that `msg` asks for, for the caller `info` in the
/// block of `env`.
pub fn execute(storage: &mut Store, env: &Env, info: &MessageInfo, msg: ExecuteMsg) -> (r: Result<
    Response<Empty>,
    ContractError,
>)
    requires
        old(storage).wf(),
    ensures
        final(storage).wf(),
        done(
            old(storage)@,
            final(storage)@,
            r,
            execute_outcome(old(storage)@, *env, *info, msg),
            execute_attributes(*info, msg),
        ),
{
    match msg {
        ExecuteMsg::TransferNft { recipient, token_id } => transfer_nft(
            storage,
            env,
            info,
            recipient.as_str(),
            token_id.as_str(),
        ),
        ExecuteMsg::Approve { spender, token_id, expires } => approve(
            storage,
            env,
            info,
            spender.as_str(),
            token_id.as_str(),
            expires,
        ),
        ExecuteMsg::Revoke { spender, token_id } => revoke(
            storage,
            info,
            spender.as_str(),
            token_id.as_str(),
        ),
        ExecuteMsg::Mint { token_id, owner, token_uri, extension } => mint(
            storage,
            info,
            token_id.as_str(),
            owner.as_str(),
            token_uri,
            extension,
        ),
        ExecuteMsg::Burn { token_id } => burn_nft(storage, env, info, token_id.as_str()),
        ExecuteMsg::UpdateCollectionInfo { collection_info } => update_collection_info(
            storage,
            info,
            collection_info,
        ),
        ExecuteMsg::UpdateMinterOwnership(action) => update_minter_ownership(
            storage,
            env,
            info,
            action,
        ),
        ExecuteMsg::UpdateCreatorOwnership(action) => update_creator_ownership(
            storage,
            env,
            info,
            action,
        ),
    }
}

} // verus!
