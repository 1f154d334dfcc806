//! What a caller may ask a registry about.

use vstd::prelude::*;
use crate::config::{asked_limit, MAX_LIMIT};
use crate::error::{ContractError, ErrorKind};
use crate::execute::failure;
use crate::model::is_page;
use crate::msg::Env;
use crate::ownership::Ownership;
use crate::state::{opt_text, CollectionInfo, NftInfo};
use crate::storage::{Store, CREATOR_KEY, MINTER_KEY};
use crate::table::texts;

verus! {

/// A question to a registry.
#[derive(Debug, PartialEq, Eq)]
pub enum QueryMsg {
    /// The record of a token.
    NftInfo { token_id: String },
    /// A page of the tokens of `owner`.
    Tokens { owner: String, start_after: Option<String>, limit: Option<u32> },
    /// A page of all tokens.
    AllTokens { start_after: Option<String>, limit: Option<u32> },
    /// The number of tokens.
    NumTokens,
    /// The collection's metadata.
    CollectionInfo,
    /// The record of the minter's role.
    Minter,
    /// The record of the creator's role.
    Creator,
    /// Whether `actor` owns a token or holds a grant of it that has not
    /// ended.
    IsApprovedOrOwner { token_id: String, actor: String },
}

/// The answer to a question.
#[derive(Debug, PartialEq, Eq)]
pub enum QueryResponse {
    NftInfo(NftInfo),
    Tokens(Vec<String>),
    NumTokens(u64),
    CollectionInfo(CollectionInfo),
    Ownership(Ownership),
    Approved(bool),
}

/// Whether `r` answers `msg` about the store `storage` in the block of
/// `env`.
pub open spec fn answers(storage: Store, env: Env, msg: QueryMsg, r: Result<
    QueryResponse,
    ContractError,
>) -> bool {
    let s = storage@;
    match msg {
        QueryMsg::NftInfo { token_id } => if s.contract.contains(token_id@) {
            r matches Ok(QueryResponse::NftInfo(info)) && info@ == s.contract.table.tokens[token_id@]
        } else {
            r matches Err(e) && e@ == failure(ErrorKind::NotFound, token_id@)
        },
        QueryMsg::Tokens { owner, start_after, limit } => if asked_limit(limit) <= MAX_LIMIT {
            r matches Ok(QueryResponse::Tokens(page)) && is_page(
                s.contract.table.owned_by(owner@),
                opt_text(start_after),
                asked_limit(limit),
                texts(page@),
            )
        } else {
            r matches Err(e) && e@ == failure(ErrorKind::LimitExceeded, "limit"@)
        },
        QueryMsg::AllTokens { start_after, limit } => if asked_limit(limit) <= MAX_LIMIT {
            r matches Ok(QueryResponse::Tokens(page)) && is_page(
                s.contract.table.tokens.dom(),
                opt_text(start_after),
                asked_limit(limit),
                texts(page@),
            )
        } else {
            r matches Err(e) && e@ == failure(ErrorKind::LimitExceeded, "limit"@)
        },
        QueryMsg::NumTokens => r matches Ok(QueryResponse::NumTokens(n)) && n
            == s.contract.token_count && n == s.contract.table.tokens.dom().len(),
        QueryMsg::CollectionInfo => match s.contract.collection_info {
            Some(c) => r matches Ok(QueryResponse::CollectionInfo(info)) && info@ == c,
            None => r matches Err(e) && e@ == failure(ErrorKind::NotFound, "collection_info"@),
        },
        QueryMsg::Minter => match s.minter {
            Some(o) => r matches Ok(QueryResponse::Ownership(x)) && x@ == o,
            None => r matches Err(e) && e@ == failure(ErrorKind::Uninitialized, MINTER_KEY@),
        },
        QueryMsg::Creator => match s.creator {
            Some(o) => r matches Ok(QueryResponse::Ownership(x)) && x@ == o,
            None => r matches Err(e) && e@ == failure(ErrorKind::Uninitialized, CREATOR_KEY@),
        },
        QueryMsg::IsApprovedOrOwner { token_id, actor } => r matches Ok(
            QueryResponse::Approved(b),
        ) && b == s.contract.is_approved_or_owner(
            token_id@,
            actor@,
            env.block.height,
            env.block.time,
        ),
    }
}

/// Answers `msg` about the store in the block of `env`.
pub fn query(storage: &Store, env: &Env, msg: QueryMsg) -> (r: Result<QueryResponse, ContractError>)
    requires
        storage.wf(),
    ensures
        answers(*storage, *env, msg, r),
{
    match msg {
        QueryMsg::NftInfo { token_id } => match storage.contract.get(token_id.as_str()) {
            Ok(info) => Ok(QueryResponse::NftInfo(info.clone())),
            Err(e) => Err(e),
        },
        QueryMsg::Tokens { owner, start_after, limit } => match storage.contract.tokens_by_owner(
            owner.as_str(),
            &start_after,
            limit,
        ) {
            Ok(page) => Ok(QueryResponse::Tokens(page)),
            Err(e) => Err(e),
        },
        QueryMsg::AllTokens { start_after, limit } => match storage.contract.all_tokens(
            &start_after,
            limit,
        ) {
            Ok(page) => Ok(QueryResponse::Tokens(page)),
            Err(e) => Err(e),
        },
        QueryMsg::NumTokens => Ok(QueryResponse::NumTokens(storage.contract.num_tokens())),
        QueryMsg::CollectionInfo => match storage.contract.collection_info() {
            Ok(info) => Ok(QueryResponse::CollectionInfo(info.clone())),
            Err(e) => Err(e),
        },
        QueryMsg::Minter => match storage.minter.get_ownership() {
            Ok(o) => Ok(QueryResponse::Ownership(o)),
            Err(e) => Err(e),
        },
        QueryMsg::Creator => match storage.creator.get_ownership() {
            Ok(o) => Ok(QueryResponse::Ownership(o)),
            Err(e) => Err(e),
        },
        QueryMsg::IsApprovedOrOwner { token_id, actor } => Ok(
            QueryResponse::Approved(
                storage.contract.is_approved_or_owner(
                    token_id.as_str(),
                    actor.as_str(),
                    &env.block,
                ),
            ),
        ),
    }
}

} // verus!
