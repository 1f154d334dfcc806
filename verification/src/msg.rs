//! What the caller hands to the operations that set a registry up and bring
//! it forward.

use vstd::prelude::*;
use crate::expiration::BlockInfo;
use crate::state::{opt_text, NoExtension};

verus! {

/// Name under which the registry records its version.
pub const CONTRACT_NAME: &'static str = "crates.io:cw721-base";

/// Version that the registry records.
pub const CONTRACT_VERSION: &'static str = "0.19.0";

/// Where and when an operation runs.
#[derive(Debug, PartialEq, Eq)]
pub struct Env {
    pub block: BlockInfo,
}

/// Who called.
#[derive(Debug, PartialEq, Eq)]
pub struct MessageInfo {
    /// The identity of the caller, which the host has verified.
    pub sender: String,
}

/// What a `ContractVersion` stands for.
pub struct ContractVersionView {
    pub contract: Seq<char>,
    pub version: Seq<char>,
}

/// The version marker of a registry.
#[derive(Debug, PartialEq, Eq)]
pub struct ContractVersion {
    /// Name of the software that wrote the registry.
    pub contract: String,
    /// Version of that software.
    pub version: String,
}

impl View for ContractVersion {
    type V = ContractVersionView;

    open spec fn view(&self) -> ContractVersionView {
        ContractVersionView { contract: self.contract@, version: self.version@ }
    }
}

/// What an optional version marker stands for.
pub open spec fn opt_version(o: Option<ContractVersion>) -> Option<ContractVersionView> {
    match o {
        Some(v) => Some(v@),
        None => None,
    }
}

/// The version marker that this software writes.
pub open spec fn current_version() -> ContractVersionView {
    ContractVersionView { contract: CONTRACT_NAME@, version: CONTRACT_VERSION@ }
}

/// What an `InstantiateMsg` stands for.
pub struct InstantiateMsgView {
    pub name: Seq<char>,
    pub symbol: Seq<char>,
    pub collection_info_extension: Option<NoExtension>,
    pub minter: Option<Seq<char>>,
    pub creator: Option<Seq<char>>,
    pub withdraw_address: Option<Seq<char>>,
}

/// What a new registry is set up with.
#[derive(Debug, PartialEq, Eq)]
pub struct InstantiateMsg {
    /// Name of the collection.
    pub name: String,
    /// Symbol of the collection.
    pub symbol: String,
    /// Further metadata of the collection.
    pub collection_info_extension: Option<NoExtension>,
    /// Who may mint. The caller, where none is named.
    pub minter: Option<String>,
    /// Who may change the collection's metadata. The caller, where none is
    /// named.
    pub creator: Option<String>,
    /// The address that funds are withdrawn to.
    pub withdraw_address: Option<String>,
}

impl View for InstantiateMsg {
    type V = InstantiateMsgView;

    open spec fn view(&self) -> InstantiateMsgView {
        InstantiateMsgView {
            name: self.name@,
            symbol: self.symbol@,
            collection_info_extension: self.collection_info_extension,
            minter: opt_text(self.minter),
            creator: opt_text(self.creator),
            withdraw_address: opt_text(self.withdraw_address),
        }
    }
}

/// What a `MigrateMsg` stands for: the minter and the creator to set after
/// the migration, if any.
pub struct MigrateMsgView {
    pub minter: Option<Seq<char>>,
    pub creator: Option<Seq<char>>,
}

/// What a migration is run with.
#[derive(Debug, PartialEq, Eq)]
pub enum MigrateMsg {
    /// Migrate, and set the minter and the creator that are named.
    WithUpdate { minter: Option<String>, creator: Option<String> },
}

impl View for MigrateMsg {
    type V = MigrateMsgView;

    open spec fn view(&self) -> MigrateMsgView {
        match self {
            MigrateMsg::WithUpdate { minter, creator } => MigrateMsgView {
                minter: opt_text(*minter),
                creator: opt_text(*creator),
            },
        }
    }
}

} // verus!
