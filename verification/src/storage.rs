//! Everything that a registry keeps: the data of the current layout, and the
//! data of the earlier layouts that a migration reads and never changes.

use vstd::prelude::*;
use crate::config::Cw721Config;
use crate::error::{ContractErrorView, ErrorKind};
use crate::model::{RegistryView, TableView};
use crate::msg::{current_version, opt_version, ContractVersion, ContractVersionView, MigrateMsgView};
use crate::ownership::{none_or_text, OwnershipStore, OwnershipView};
use crate::state::{opt_text, CollectionInfoView};
use crate::table::TokenTable;

verus! {

/// Name of the minter's role.
pub const MINTER_KEY: &'static str = "collection_minter";

/// Name of the creator's role.
pub const CREATOR_KEY: &'static str = "ownership";

/// Name under which the earliest layout kept the minter's address.
pub const LEGACY_MINTER_KEY: &'static str = "minter";

/// Name under which the earlier layout kept the collection's name and
/// symbol.
pub const LEGACY_COLLECTION_INFO_KEY: &'static str = "nft_info";

/// Name under which the version marker is kept.
pub const VERSION_KEY: &'static str = "contract_info";

/// What a `ContractInfoResponse` stands for.
pub struct ContractInfoView {
    pub name: Seq<char>,
    pub symbol: Seq<char>,
}

/// The collection's metadata as the earlier layout kept it.
#[derive(Debug, PartialEq, Eq)]
pub struct ContractInfoResponse {
    pub name: String,
    pub symbol: String,
}

impl View for ContractInfoResponse {
    type V = ContractInfoView;

    open spec fn view(&self) -> ContractInfoView {
        ContractInfoView { name: self.name@, symbol: self.symbol@ }
    }
}

/// What optional metadata of the earlier layout stands for.
pub open spec fn opt_contract_info(o: Option<ContractInfoResponse>) -> Option<ContractInfoView> {
    match o {
        Some(c) => Some(c@),
        None => None,
    }
}

/// Which layout the minter's and the creator's roles are kept in.
#[derive(Clone, Copy, Debug, PartialEq, Eq, Structural)]
pub enum RolesGeneration {
    /// The minter has a record of its own.
    Current,
    /// One record served both roles; it is the creator's now.
    SharedOwnership,
    /// No role has a record. The minter's address is kept by itself.
    LegacyMinter,
}

/// Which layout the collection's metadata is kept in.
#[derive(Clone, Copy, Debug, PartialEq, Eq, Structural)]
pub enum CollectionInfoGeneration {
    /// Metadata of the current layout is there.
    Current,
    /// Only the name and the symbol are kept, under the earlier name.
    Legacy,
}

/// Which layout the tokens are kept in.
#[derive(Clone, Copy, Debug, PartialEq, Eq, Structural)]
pub enum TokensGeneration {
    /// The current table holds tokens.
    Current,
    /// The current table holds none: what there is, is in the earlier table.
    Legacy,
}

/// What a `Store` stands for.
#[verifier::ext_equal]
pub struct StoreView {
    pub version: Option<ContractVersionView>,
    pub minter: Option<OwnershipView>,
    pub creator: Option<OwnershipView>,
    pub contract: RegistryView,
    pub legacy_minter: Option<Seq<char>>,
    pub legacy_collection_info: Option<ContractInfoView>,
    pub legacy_tokens: TableView,
}

/// An attribute of a response: its key and its value.
pub type Attribute = (Seq<char>, Seq<char>);

impl StoreView {
    /// The current registry and the earlier token table are well formed.
    pub open spec fn wf(self) -> bool {
        self.contract.wf() && self.legacy_tokens.wf()
    }

    /// The data of the earlier layouts.
    pub open spec fn legacy(self) -> (Option<Seq<char>>, Option<ContractInfoView>, TableView) {
        (self.legacy_minter, self.legacy_collection_info, self.legacy_tokens)
    }

    /// Which layout the minter's and the creator's roles are kept in.
    pub open spec fn roles_generation(self) -> RolesGeneration {
        if self.minter is Some {
            RolesGeneration::Current
        } else if self.creator is Some {
            RolesGeneration::SharedOwnership
        } else {
            RolesGeneration::LegacyMinter
        }
    }

    /// Which layout the collection's metadata is kept in.
    pub open spec fn collection_info_generation(self) -> CollectionInfoGeneration {
        if self.contract.collection_info is Some {
            CollectionInfoGeneration::Current
        } else {
            CollectionInfoGeneration::Legacy
        }
    }

    /// Which layout the tokens are kept in.
    pub open spec fn tokens_generation(self) -> TokensGeneration {
        if self.contract.table != TableView::empty() {
            TokensGeneration::Current
        } else {
            TokensGeneration::Legacy
        }
    }

    /// Whether nothing is left for a migration to bring forward.
    pub open spec fn is_current(self) -> bool {
        &&& self.roles_generation() == RolesGeneration::Current
        &&& self.collection_info_generation() == CollectionInfoGeneration::Current
        &&& self.tokens_generation() == TokensGeneration::Current || self.legacy_tokens
            == TableView::empty()
        &&& self.version == Some(current_version())
    }

    /// The first step: the store after the roles were brought forward, or
    /// the failure. With a minter's record nothing changes. With the
    /// creator's record alone, the minter gets a record with the same
    /// holder. With neither, both get a record held by the address that the
    /// earliest layout kept, and the step fails if that is absent.
    pub open spec fn migrate_legacy_minter_and_creator(self) -> Result<StoreView, ContractErrorView> {
        match self.roles_generation() {
            RolesGeneration::Current => Ok(self),
            RolesGeneration::SharedOwnership => Ok(
                StoreView {
                    minter: Some(OwnershipView::held_by(self.creator->0.owner)),
                    ..self
                },
            ),
            RolesGeneration::LegacyMinter => match self.legacy_minter {
                Some(m) => Ok(
                    StoreView {
                        minter: Some(OwnershipView::held_by(Some(m))),
                        creator: Some(OwnershipView::held_by(Some(m))),
                        ..self
                    },
                ),
                None => Err(
                    ContractErrorView {
                        kind: ErrorKind::InvalidState,
                        context: LEGACY_MINTER_KEY@,
                    },
                ),
            },
        }
    }

    /// What the first step adds to the response.
    pub open spec fn legacy_minter_attributes(self) -> Seq<Attribute> {
        match self.roles_generation() {
            RolesGeneration::Current => Seq::empty(),
            RolesGeneration::SharedOwnership => seq![
                ("creator_and_minter"@, none_or_text(self.creator->0.owner)),
            ],
            RolesGeneration::LegacyMinter => seq![
                ("creator_and_minter"@, none_or_text(self.legacy_minter)),
            ],
        }
    }

    /// The second step: the store after the collection's metadata was
    /// brought forward at block time `time`, or the failure. With metadata
    /// of the current layout nothing changes. Else the name and the symbol
    /// of the earlier layout are written forward, without extension, and the
    /// step fails if they are absent.
    pub open spec fn migrate_legacy_collection_info(self, time: u64) -> Result<
        StoreView,
        ContractErrorView,
    > {
        match self.collection_info_generation() {
            CollectionInfoGeneration::Current => Ok(self),
            CollectionInfoGeneration::Legacy => match self.legacy_collection_info {
                Some(c) => Ok(
                    StoreView {
                        contract: RegistryView {
                            collection_info: Some(
                                CollectionInfoView {
                                    name: c.name,
                                    symbol: c.symbol,
                                    extension: None,
                                    updated_at: time,
                                },
                            ),
                            ..self.contract
                        },
                        ..self
                    },
                ),
                None => Err(
                    ContractErrorView {
                        kind: ErrorKind::InvalidState,
                        context: LEGACY_COLLECTION_INFO_KEY@,
                    },
                ),
            },
        }
    }

    /// What the second step adds to the response.
    pub open spec fn legacy_collection_info_attributes(self) -> Seq<Attribute> {
        if self.contract.collection_info is None && self.legacy_collection_info is Some {
            seq![
                ("migrated collection name"@, self.legacy_collection_info->0.name),
                ("migrated collection symbol"@, self.legacy_collection_info->0.symbol),
            ]
        } else {
            Seq::empty()
        }
    }

    /// The third step: the store after the tokens were brought forward.
    /// With tokens in the current table nothing changes. Else the current
    /// table gets every record of the earlier table, with their index
    /// entries, and the counter their number.
    pub open spec fn migrate_legacy_tokens(self) -> StoreView {
        match self.tokens_generation() {
            TokensGeneration::Current => self,
            TokensGeneration::Legacy => StoreView {
                contract: RegistryView {
                    token_count: self.legacy_tokens.tokens.dom().len(),
                    table: self.legacy_tokens,
                    ..self.contract
                },
                ..self
            },
        }
    }

    /// The fourth step: the store after the version marker was set to the
    /// current one, or the failure where no marker was there.
    pub open spec fn migrate_version(self) -> Result<StoreView, ContractErrorView> {
        match self.version {
            Some(_) => Ok(StoreView { version: Some(current_version()), ..self }),
            None => Err(ContractErrorView { kind: ErrorKind::NotFound, context: VERSION_KEY@ }),
        }
    }

    /// What the fourth step adds to the response.
    pub open spec fn version_attributes(self) -> Seq<Attribute> {
        match self.version {
            Some(v) => seq![
                ("from_version"@, v.version),
                ("to_version"@, current_version().version),
            ],
            None => Seq::empty(),
        }
    }

    /// The store after the creator that `msg` names, if any, was given the
    /// creator's role.
    pub open spec fn migrate_creator(self, msg: MigrateMsgView) -> StoreView {
        match msg.creator {
            Some(c) => StoreView { creator: Some(OwnershipView::held_by(Some(c))), ..self },
            None => self,
        }
    }

    /// The store after the minter that `msg` names, if any, was given the
    /// minter's role.
    pub open spec fn migrate_minter(self, msg: MigrateMsgView) -> StoreView {
        match msg.minter {
            Some(m) => StoreView { minter: Some(OwnershipView::held_by(Some(m))), ..self },
            None => self,
        }
    }

    /// What setting the creator adds to the response.
    pub open spec fn creator_attributes(msg: MigrateMsgView) -> Seq<Attribute> {
        match msg.creator {
            Some(c) => seq![("creator"@, c)],
            None => Seq::empty(),
        }
    }

    /// What setting the minter adds to the response. The minter is named
    /// under the key `creator`, as the creator is.
    pub open spec fn minter_attributes(msg: MigrateMsgView) -> Seq<Attribute> {
        match msg.minter {
            Some(m) => seq![("creator"@, m)],
            None => Seq::empty(),
        }
    }

    /// The whole migration at block time `time`: the steps in their order,
    /// each on what the one before left. The outcome is the store after the
    /// last step, or the failure of the first step that fails.
    pub open spec fn migrate(self, time: u64, msg: MigrateMsgView) -> Result<
        StoreView,
        ContractErrorView,
    > {
        match self.migrate_legacy_minter_and_creator() {
            Err(e) => Err(e),
            Ok(s1) => match s1.migrate_legacy_collection_info(time) {
                Err(e) => Err(e),
                Ok(s2) => match s2.migrate_legacy_tokens().migrate_version() {
                    Err(e) => Err(e),
                    Ok(s4) => Ok(s4.migrate_creator(msg).migrate_minter(msg)),
                },
            },
        }
    }

    /// What the whole migration adds to the response, where it succeeds.
    pub open spec fn migrate_attributes(self, msg: MigrateMsgView) -> Seq<Attribute> {
        self.legacy_minter_attributes() + self.legacy_collection_info_attributes()
            + self.version_attributes() + Self::creator_attributes(msg) + Self::minter_attributes(
            msg,
        )
    }
}

/// Everything that a registry keeps.
pub struct Store {
    /// The version marker.
    pub version: Option<ContractVersion>,
    /// Who may mint.
    pub minter: OwnershipStore,
    /// Who may change the collection's metadata.
    pub creator: OwnershipStore,
    /// The registry of the current layout.
    pub contract: Cw721Config,
    /// The minter's address as the earliest layout kept it.
    pub legacy_minter: Option<String>,
    /// The collection's name and symbol as the earlier layout kept them.
    pub legacy_collection_info: Option<ContractInfoResponse>,
    /// The token table of the earlier layout.
    pub legacy_tokens: TokenTable,
}

impl View for Store {
    type V = StoreView;

    open spec fn view(&self) -> StoreView {
        StoreView {
            version: opt_version(self.version),
            minter: self.minter@,
            creator: self.creator@,
            contract: self.contract@,
            legacy_minter: opt_text(self.legacy_minter),
            legacy_collection_info: opt_contract_info(self.legacy_collection_info),
            legacy_tokens: self.legacy_tokens@,
        }
    }
}

impl Store {
    /// The registry and the earlier token table are well formed, and the two
    /// roles are kept under their names.
    pub open spec fn wf(&self) -> bool {
        &&& self.contract.wf()
        &&& self.legacy_tokens.wf()
        &&& self.minter.role() == MINTER_KEY@
        &&& self.creator.role() == CREATOR_KEY@
    }

    /// A well-formed store stands for a well-formed view.
    pub proof fn lemma_wf(&self)
        requires
            self.wf(),
        ensures
            self@.wf(),
    {
        self.contract.lemma_wf();
        self.legacy_tokens.lemma_wf();
    }

    /// A store in which nothing was kept yet.
    pub fn new() -> (r: Self)
        ensures
            r.wf(),
            r@ == (StoreView {
                version: None,
                minter: None,
                creator: None,
                contract: RegistryView::empty(),
                legacy_minter: None,
                legacy_collection_info: None,
                legacy_tokens: TableView::empty(),
            }),
    {
        Store {
            version: None,
            minter: OwnershipStore::new(MINTER_KEY),
            creator: OwnershipStore::new(CREATOR_KEY),
            contract: Cw721Config::new(),
            legacy_minter: None,
            legacy_collection_info: None,
            legacy_tokens: TokenTable::new(),
        }
    }

    /// Which layout the minter's and the creator's roles are kept in.
    pub fn roles_generation(&self) -> (g: RolesGeneration)
        ensures
            g == self@.roles_generation(),
    {
        if self.minter.is_initialized() {
            RolesGeneration::Current
        } else if self.creator.is_initialized() {
            RolesGeneration::SharedOwnership
        } else {
            RolesGeneration::LegacyMinter
        }
    }

    /// Which layout the collection's metadata is kept in.
    pub fn collection_info_generation(&self) -> (g: CollectionInfoGeneration)
        ensures
            g == self@.collection_info_generation(),
    {
        match self.contract.collection_info() {
            Ok(_) => CollectionInfoGeneration::Current,
            Err(_) => CollectionInfoGeneration::Legacy,
        }
    }

    /// Which layout the tokens are kept in.
    pub fn tokens_generation(&self) -> (g: TokensGeneration)
        requires
            self.wf(),
        ensures
            g == self@.tokens_generation(),
    {
        if self.contract.is_empty() {
            TokensGeneration::Legacy
        } else {
            TokensGeneration::Current
        }
    }
}

} // verus!
