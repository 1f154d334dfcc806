//! The records that the registry keeps, and what each of them stands for.

use vstd::prelude::*;
use crate::expiration::{BlockInfo, Expiration};

verus! {

/// What an optional text stands for.
pub open spec fn opt_text(o: Option<String>) -> Option<Seq<char>> {
    match o {
        Some(s) => Some(s@),
        None => None,
    }
}

/// A copy of an optional text.
pub fn copy_opt_text(o: &Option<String>) -> (r: Option<String>)
    ensures
        opt_text(r) == opt_text(*o),
{
    match o {
        Some(s) => Some(s.clone()),
        None => None,
    }
}

/// An extension without content.
#[derive(Clone, Copy, Debug, PartialEq, Eq, Structural)]
pub struct NoExtension {
}

/// What a `CollectionInfo` stands for.
pub struct CollectionInfoView {
    pub name: Seq<char>,
    pub symbol: Seq<char>,
    pub extension: Option<NoExtension>,
    pub updated_at: u64,
}

/// The metadata of the whole collection. There is one per registry.
#[derive(Debug, PartialEq, Eq)]
pub struct CollectionInfo {
    pub name: String,
    pub symbol: String,
    /// Further metadata, if any.
    pub extension: Option<NoExtension>,
    /// Block time of the last update, in nanoseconds since the UNIX epoch.
    pub updated_at: u64,
}

impl View for CollectionInfo {
    type V = CollectionInfoView;

    open spec fn view(&self) -> CollectionInfoView {
        CollectionInfoView {
            name: self.name@,
            symbol: self.symbol@,
            extension: self.extension,
            updated_at: self.updated_at,
        }
    }
}

impl Clone for CollectionInfo {
    fn clone(&self) -> (r: Self)
        ensures
            r@ == self@,
    {
        CollectionInfo {
            name: self.name.clone(),
            symbol: self.symbol.clone(),
            extension: self.extension,
            updated_at: self.updated_at,
        }
    }
}

/// What a `Trait` stands for.
pub struct TraitView {
    pub display_type: Option<Seq<char>>,
    pub trait_type: Seq<char>,
    pub value: Seq<char>,
}

/// One attribute of a token's metadata.
#[derive(Debug, PartialEq, Eq)]
pub struct Trait {
    pub display_type: Option<String>,
    pub trait_type: String,
    pub value: String,
}

impl View for Trait {
    type V = TraitView;

    open spec fn view(&self) -> TraitView {
        TraitView {
            display_type: opt_text(self.display_type),
            trait_type: self.trait_type@,
            value: self.value@,
        }
    }
}

impl Clone for Trait {
    fn clone(&self) -> (r: Self)
        ensures
            r@ == self@,
    {
        Trait {
            display_type: copy_opt_text(&self.display_type),
            trait_type: self.trait_type.clone(),
            value: self.value.clone(),
        }
    }
}

/// What a list of traits stands for.
pub open spec fn traits_view(v: Seq<Trait>) -> Seq<TraitView> {
    v.map_values(|t: Trait| t@)
}

/// What an optional list of traits stands for.
pub open spec fn opt_traits_view(o: Option<Vec<Trait>>) -> Option<Seq<TraitView>> {
    match o {
        Some(v) => Some(traits_view(v@)),
        None => None,
    }
}

/// A copy of a list of traits.
pub fn copy_traits(v: &Vec<Trait>) -> (r: Vec<Trait>)
    ensures
        traits_view(r@) == traits_view(v@),
{
    let mut r: Vec<Trait> = Vec::new();
    let mut i: usize = 0;
    while i < v.len()
        invariant
            i <= v.len(),
            r.len() == i,
            forall|j: int| 0 <= j < i ==> (#[trigger] r@[j])@ == v@[j]@,
        decreases v.len() - i,
    {
        r.push(v[i].clone());
        i += 1;
    }
    assert(traits_view(r@) =~= traits_view(v@));
    r
}

/// What a `Metadata` stands for.
pub struct MetadataView {
    pub image: Option<Seq<char>>,
    pub image_data: Option<Seq<char>>,
    pub external_url: Option<Seq<char>>,
    pub description: Option<Seq<char>>,
    pub name: Option<Seq<char>>,
    pub attributes: Option<Seq<TraitView>>,
    pub background_color: Option<Seq<char>>,
    pub animation_url: Option<Seq<char>>,
    pub youtube_url: Option<Seq<char>>,
}

/// The metadata of one token.
#[derive(Debug, PartialEq, Eq)]
pub struct Metadata {
    pub image: Option<String>,
    pub image_data: Option<String>,
    pub external_url: Option<String>,
    pub description: Option<String>,
    pub name: Option<String>,
    pub attributes: Option<Vec<Trait>>,
    pub background_color: Option<String>,
    pub animation_url: Option<String>,
    pub youtube_url: Option<String>,
}

impl View for Metadata {
    type V = MetadataView;

    open spec fn view(&self) -> MetadataView {
        MetadataView {
            image: opt_text(self.image),
            image_data: opt_text(self.image_data),
            external_url: opt_text(self.external_url),
            description: opt_text(self.description),
            name: opt_text(self.name),
            attributes: opt_traits_view(self.attributes),
            background_color: opt_text(self.background_color),
            animation_url: opt_text(self.animation_url),
            youtube_url: opt_text(self.youtube_url),
        }
    }
}

impl Clone for Metadata {
    fn clone(&self) -> (r: Self)
        ensures
            r@ == self@,
    {
        let attributes = match &self.attributes {
            Some(v) => Some(copy_traits(v)),
            None => None,
        };
        Metadata {
            image: copy_opt_text(&self.image),
            image_data: copy_opt_text(&self.image_data),
            external_url: copy_opt_text(&self.external_url),
            description: copy_opt_text(&self.description),
            name: copy_opt_text(&self.name),
            attributes,
            background_color: copy_opt_text(&self.background_color),
            animation_url: copy_opt_text(&self.animation_url),
            youtube_url: copy_opt_text(&self.youtube_url),
        }
    }
}

impl Default for Metadata {
    fn default() -> (r: Self)
        ensures
            r@ == (MetadataView {
                image: None,
                image_data: None,
                external_url: None,
                description: None,
                name: None,
                attributes: None,
                background_color: None,
                animation_url: None,
                youtube_url: None,
            }),
    {
        Metadata {
            image: None,
            image_data: None,
            external_url: None,
            description: None,
            name: None,
            attributes: None,
            background_color: None,
            animation_url: None,
            youtube_url: None,
        }
    }
}

/// What optional metadata stands for.
pub open spec fn opt_metadata(o: Option<Metadata>) -> Option<MetadataView> {
    match o {
        Some(m) => Some(m@),
        None => None,
    }
}

/// A copy of optional metadata.
pub fn copy_opt_metadata(o: &Option<Metadata>) -> (r: Option<Metadata>)
    ensures
        opt_metadata(r) == opt_metadata(*o),
{
    match o {
        Some(m) => Some(m.clone()),
        None => None,
    }
}

/// What an `Approval` stands for.
pub struct ApprovalView {
    pub spender: Seq<char>,
    pub expires: Expiration,
}

impl ApprovalView {
    /// Whether the grant has ended in a block of the given height and time.
    pub open spec fn expired_at(self, height: u64, time: u64) -> bool {
        self.expires.expired_at(height, time)
    }
}

/// A grant that lets `spender` act on one token until `expires`.
#[derive(Debug, PartialEq, Eq)]
pub struct Approval {
    /// The identity that may transfer the token.
    pub spender: String,
    /// When the grant ends.
    pub expires: Expiration,
}

impl View for Approval {
    type V = ApprovalView;

    open spec fn view(&self) -> ApprovalView {
        ApprovalView { spender: self.spender@, expires: self.expires }
    }
}

impl Clone for Approval {
    fn clone(&self) -> (r: Self)
        ensures
            r@ == self@,
    {
        Approval { spender: self.spender.clone(), expires: self.expires }
    }
}

impl Approval {
    /// Whether the grant has ended in `block`.
    pub fn is_expired(&self, block: &BlockInfo) -> (r: bool)
        ensures
            r == self@.expired_at(block.height, block.time),
    {
        self.expires.is_expired(block)
    }
}

/// What a list of approvals stands for.
pub open spec fn approvals_view(v: Seq<Approval>) -> Seq<ApprovalView> {
    v.map_values(|a: Approval| a@)
}

/// A copy of a list of approvals.
pub fn copy_approvals(v: &Vec<Approval>) -> (r: Vec<Approval>)
    ensures
        approvals_view(r@) == approvals_view(v@),
{
    let mut r: Vec<Approval> = Vec::new();
    let mut i: usize = 0;
    while i < v.len()
        invariant
            i <= v.len(),
            r.len() == i,
            forall|j: int| 0 <= j < i ==> (#[trigger] r@[j])@ == v@[j]@,
        decreases v.len() - i,
    {
        r.push(v[i].clone());
        i += 1;
    }
    assert(approvals_view(r@) =~= approvals_view(v@));
    r
}

/// What an `NftInfo` stands for.
pub struct NftInfoView {
    pub owner: Seq<char>,
    pub approvals: Seq<ApprovalView>,
    pub token_uri: Option<Seq<char>>,
    pub extension: Option<MetadataView>,
}

/// The record of one token.
#[derive(Debug, PartialEq, Eq)]
pub struct NftInfo {
    /// The identity that owns the token.
    pub owner: String,
    /// The grants on the token. They are all dropped when the token changes
    /// hands.
    pub approvals: Vec<Approval>,
    /// Where the token's off-chain metadata is found.
    pub token_uri: Option<String>,
    /// The token's on-chain metadata.
    pub extension: Option<Metadata>,
}

impl View for NftInfo {
    type V = NftInfoView;

    open spec fn view(&self) -> NftInfoView {
        NftInfoView {
            owner: self.owner@,
            approvals: approvals_view(self.approvals@),
            token_uri: opt_text(self.token_uri),
            extension: opt_metadata(self.extension),
        }
    }
}

impl Clone for NftInfo {
    fn clone(&self) -> (r: Self)
        ensures
            r@ == self@,
    {
        NftInfo {
            owner: self.owner.clone(),
            approvals: copy_approvals(&self.approvals),
            token_uri: copy_opt_text(&self.token_uri),
            extension: copy_opt_metadata(&self.extension),
        }
    }
}

/// The key under which the owner index files a token: the record's owner.
/// The token's identifier plays no part in it.
pub fn token_owner_idx(_pk: &[u8], d: &NftInfo) -> (owner: String)
    ensures
        owner@ == d@.owner,
{
    d.owner.clone()
}

} // verus!
