//! The registry: the collection's metadata, the token counter, and the token
//! table with its owner index.

use vstd::prelude::*;
use crate::error::{fails_with, ContractError, ErrorKind};
use crate::expiration::{BlockInfo, Expiration};
use crate::model::{
    approvals_without, has_approval, has_live_approval, is_page, RegistryView, TableView,
};
use crate::state::{
    approvals_view, copy_opt_metadata, copy_opt_text, opt_metadata, opt_text, Approval,
    ApprovalView, CollectionInfo, CollectionInfoView, Metadata, NftInfo,
};
use crate::table::{texts, TokenTable};

verus! {

/// Largest page that a paginated read returns.
pub const MAX_LIMIT: u32 = 1000;

/// Size of a page when the caller names none.
pub const DEFAULT_LIMIT: u32 = 100;

/// What optional collection metadata stands for.
pub open spec fn opt_collection_info(o: Option<CollectionInfo>) -> Option<CollectionInfoView> {
    match o {
        Some(c) => Some(c@),
        None => None,
    }
}

/// The size of the page that a request asks for: what it names, or the
/// default.
pub open spec fn asked_limit(limit: Option<u32>) -> nat {
    match limit {
        Some(n) => n as nat,
        None => DEFAULT_LIMIT as nat,
    }
}

/// The size of the page that a request asks for. A size above the cap is
/// refused.
pub fn resolve_limit(limit: Option<u32>) -> (r: Result<usize, ContractError>)
    ensures
        asked_limit(limit) <= MAX_LIMIT ==> r == Ok::<usize, ContractError>(
            asked_limit(limit) as usize,
        ),
        asked_limit(limit) > MAX_LIMIT ==> fails_with(r, ErrorKind::LimitExceeded, "limit"@),
{
    let n: u32 = match limit {
        Some(n) => n,
        None => DEFAULT_LIMIT,
    };
    if n > MAX_LIMIT {
        Err(ContractError::new(ErrorKind::LimitExceeded, "limit"))
    } else {
        Ok(n as usize)
    }
}

/// Taking the grants to a spender out of a list that ends in `a` keeps `a`
/// exactly if it is a grant to someone else.
pub proof fn lemma_without_push(s: Seq<ApprovalView>, a: ApprovalView, spender: Seq<char>)
    ensures
        approvals_without(s.push(a), spender) == if a.spender != spender {
            approvals_without(s, spender).push(a)
        } else {
            approvals_without(s, spender)
        },
{
    reveal(Seq::filter);
    assert(s.push(a).drop_last() =~= s);
}

/// A copy of the approvals without the grants to `spender`, and whether
/// there was such a grant.
fn approvals_excluding(v: &Vec<Approval>, spender: &str) -> (r: (Vec<Approval>, bool))
    ensures
        approvals_view(r.0@) == approvals_without(approvals_view(v@), spender@),
        r.1 == has_approval(approvals_view(v@), spender@),
{
    let ghost all = approvals_view(v@);
    let mut kept: Vec<Approval> = Vec::new();
    let mut found = false;
    let mut i: usize = 0;
    proof {
        reveal(Seq::filter);
        assert(all.take(0) =~= Seq::<ApprovalView>::empty());
    }
    while i < v.len()
        invariant
            i <= v.len(),
            all == approvals_view(v@),
            approvals_view(kept@) == approvals_without(all.take(i as int), spender@),
            found == has_approval(all.take(i as int), spender@),
        decreases v.len() - i,
    {
        let ghost before = approvals_view(kept@);
        proof {
            assert(all.take(i + 1) =~= all.take(i as int).push(all[i as int]));
            lemma_without_push(all.take(i as int), all[i as int], spender@);
        }
        if crate::order::str_equal(v[i].spender.as_str(), spender) {
            found = true;
            proof {
                assert(all.take(i + 1)[i as int].spender == spender@);
            }
        } else {
            kept.push(v[i].clone());
            proof {
                assert(approvals_view(kept@) =~= before.push(all[i as int]));
                if has_approval(all.take(i + 1), spender@) {
                    let j = choose|j: int|
                        0 <= j < all.take(i + 1).len() && (#[trigger] all.take(i + 1)[j]).spender
                            == spender@;
                    assert(all.take(i as int)[j].spender == spender@);
                }
                if has_approval(all.take(i as int), spender@) {
                    let j = choose|j: int|
                        0 <= j < all.take(i as int).len() && (#[trigger] all.take(
                            i as int,
                        )[j]).spender == spender@;
                    assert(all.take(i + 1)[j].spender == spender@);
                }
            }
        }
        i += 1;
    }
    proof {
        assert(all.take(i as int) =~= all);
    }
    (kept, found)
}

/// Whether one of the approvals is a grant to `spender` that has not ended
/// in `block`.
fn any_live_approval(v: &Vec<Approval>, spender: &str, block: &BlockInfo) -> (r: bool)
    ensures
        r == has_live_approval(approvals_view(v@), spender@, block.height, block.time),
{
    let ghost all = approvals_view(v@);
    let mut i: usize = 0;
    while i < v.len()
        invariant
            i <= v.len(),
            all == approvals_view(v@),
            forall|j: int|
                0 <= j < i ==> !((#[trigger] all[j]).spender == spender@ && !all[j].expired_at(
                    block.height,
                    block.time,
                )),
        decreases v.len() - i,
    {
        if crate::order::str_equal(v[i].spender.as_str(), spender) && !v[i].is_expired(block) {
            proof {
                assert(all[i as int].spender == spender@);
            }
            return true;
        }
        i += 1;
    }
    false
}

/// The registry of one collection. Its records change only through its
/// operations, which keep the owner index and the token counter in step with
/// the token table.
pub struct Cw721Config {
    collection_info: Option<CollectionInfo>,
    token_count: u64,
    nft_info: TokenTable,
    withdraw_address: Option<String>,
}

impl View for Cw721Config {
    type V = RegistryView;

    closed spec fn view(&self) -> RegistryView {
        RegistryView {
            collection_info: opt_collection_info(self.collection_info),
            token_count: self.token_count as nat,
            table: self.nft_info@,
            withdraw_address: opt_text(self.withdraw_address),
        }
    }
}

impl Default for Cw721Config {
    /// The registry before anything was stored in it.
    fn default() -> (r: Self)
        ensures
            r.wf(),
            r@ == RegistryView::empty(),
    {
        Cw721Config::new()
    }
}

impl Cw721Config {
    /// The token table is well formed and the counter is its number of
    /// records.
    pub closed spec fn wf(&self) -> bool {
        &&& self.nft_info.wf()
        &&& self@.wf()
    }

    /// A well-formed registry stands for a well-formed view: the counter is
    /// the number of records, which is the number of identifiers in the
    /// owner index, and the owner index holds, for each record and for
    /// nothing else, the pair of the record's owner and its identifier.
    pub proof fn lemma_wf(&self)
        requires
            self.wf(),
        ensures
            self@.wf(),
            self@.token_count <= u64::MAX,
            self@.token_count == self@.table.tokens.dom().len(),
            self@.token_count == self@.table.indexed_ids().len(),
    {
        crate::model::lemma_indexed_ids(self@.table);
    }

    /// The registry before anything was stored in it.
    pub fn new() -> (r: Self)
        ensures
            r.wf(),
            r@ == RegistryView::empty(),
    {
        let r = Cw721Config {
            collection_info: None,
            token_count: 0,
            nft_info: TokenTable::new(),
            withdraw_address: None,
        };
        proof {
            assert(r@.table.tokens.dom() =~= Set::<Seq<char>>::empty());
        }
        r
    }

    /// The token counter.
    pub fn token_count(&self) -> (n: u64)
        ensures
            n == self@.token_count,
    {
        self.token_count
    }

    /// Adds one to the token counter and returns the new count.
    fn increment_tokens(&mut self) -> (n: u64)
        requires
            old(self).token_count < u64::MAX,
        ensures
            n == old(self).token_count + 1,
            final(self).token_count == n,
            final(self).nft_info == old(self).nft_info,
            final(self).collection_info == old(self).collection_info,
            final(self).withdraw_address == old(self).withdraw_address,
    {
        let val: u64 = self.token_count + 1;
        self.token_count = val;
        val
    }

    /// Takes one from the token counter and returns the new count.
    fn decrement_tokens(&mut self) -> (n: u64)
        requires
            old(self).token_count > 0,
        ensures
            n == old(self).token_count - 1,
            final(self).token_count == n,
            final(self).nft_info == old(self).nft_info,
            final(self).collection_info == old(self).collection_info,
            final(self).withdraw_address == old(self).withdraw_address,
    {
        let val: u64 = self.token_count - 1;
        self.token_count = val;
        val
    }

    /// The number of tokens.
    pub fn num_tokens(&self) -> (n: u64)
        requires
            self.wf(),
        ensures
            n == self@.token_count,
            n == self@.table.tokens.dom().len(),
            n == self@.table.indexed_ids().len(),
    {
        proof {
            crate::model::lemma_indexed_ids(self@.table);
        }
        self.token_count
    }

    /// The collection's metadata.
    pub fn collection_info(&self) -> (r: Result<&CollectionInfo, ContractError>)
        ensures
            match self@.collection_info {
                Some(c) => r matches Ok(info) && info@ == c,
                None => fails_with(r, ErrorKind::NotFound, "collection_info"@),
            },
    {
        match &self.collection_info {
            Some(c) => Ok(c),
            None => Err(ContractError::new(ErrorKind::NotFound, "collection_info")),
        }
    }

    /// Replaces the collection's metadata as a whole.
    pub fn update_collection_info(&mut self, new_info: CollectionInfo)
        requires
            old(self).wf(),
        ensures
            final(self).wf(),
            final(self)@ == (RegistryView { collection_info: Some(new_info@), ..old(self)@ }),
    {
        self.collection_info = Some(new_info);
    }

    /// The address that funds are withdrawn to.
    pub fn withdraw_address(&self) -> (r: Option<&String>)
        ensures
            match r {
                Some(a) => self@.withdraw_address == Some(a@),
                None => self@.withdraw_address is None,
            },
    {
        self.withdraw_address.as_ref()
    }

    /// Sets the address that funds are withdrawn to.
    pub fn set_withdraw_address(&mut self, address: String)
        requires
            old(self).wf(),
        ensures
            final(self).wf(),
            final(self)@ == (RegistryView { withdraw_address: Some(address@), ..old(self)@ }),
    {
        self.withdraw_address = Some(address);
    }

    /// The record of the token `id`.
    pub fn get(&self, id: &str) -> (r: Result<&NftInfo, ContractError>)
        requires
            self.wf(),
        ensures
            self@.contains(id@) ==> (r matches Ok(info) && info@ == self@.table.tokens[id@]),
            !self@.contains(id@) ==> fails_with(r, ErrorKind::NotFound, id@),
    {
        match self.nft_info.may_load(id) {
            Some(info) => Ok(info),
            None => Err(ContractError::new(ErrorKind::NotFound, id)),
        }
    }

    /// Mints the token `id` for `owner`, without approvals. Fails if a token
    /// with the identifier exists.
    pub fn mint(
        &mut self,
        id: &str,
        owner: &str,
        token_uri: Option<String>,
        extension: Option<Metadata>,
    ) -> (r: Result<(), ContractError>)
        requires
            old(self).wf(),
        ensures
            final(self).wf(),
            !old(self)@.contains(id@) ==> r is Ok && final(self)@ == old(self)@.mint(
                id@,
                owner@,
                opt_text(token_uri),
                opt_metadata(extension),
            ),
            old(self)@.contains(id@) ==> fails_with(r, ErrorKind::AlreadyExists, id@) && final(self)@ == old(self)@,
    {
        if self.nft_info.has(id) {
            return Err(ContractError::new(ErrorKind::AlreadyExists, id));
        }
        let info = NftInfo { owner: owner.to_owned(), approvals: Vec::new(), token_uri, extension };
        proof {
            assert(info@.approvals =~= Seq::<ApprovalView>::empty());
        }
        self.insert_new(id, info);
        Ok(())
    }

    /// Stores `info` under the identifier `id`, which is free, and counts
    /// it.
    fn insert_new(&mut self, id: &str, info: NftInfo)
        requires
            old(self).wf(),
            !old(self)@.contains(id@),
        ensures
            final(self).wf(),
            final(self)@ == (RegistryView {
                token_count: old(self)@.token_count + 1,
                table: old(self)@.table.save(id@, info@),
                ..old(self)@
            }),
    {
        let ghost before = self@;
        self.nft_info.save(id, info);
        let n: usize = self.nft_info.len();
        proof {
            self.nft_info.lemma_wf();
            assert(self@.table.tokens.dom() =~= before.table.tokens.dom().insert(id@));
            assert(n == before.token_count + 1);
        }
        self.increment_tokens();
    }

    /// Copies every record of `source` into the registry, which holds none,
    /// in the ascending order of the identifiers. Each record is counted
    /// and filed in the owner index as it enters.
    pub fn copy_from(&mut self, source: &TokenTable)
        requires
            old(self).wf(),
            old(self)@.table == TableView::empty(),
            source.wf(),
        ensures
            final(self).wf(),
            final(self)@ == (RegistryView {
                token_count: source@.tokens.dom().len(),
                table: source@,
                ..old(self)@
            }),
    {
        let keys = source.all_keys();
        let ghost ids = texts(keys@);
        let ghost before = self@;
        let mut i: usize = 0;
        proof {
            source.lemma_wf();
            crate::order::lemma_strictly_ascending_no_duplicates(ids);
            assert(before.table.tokens.dom() =~= Set::<Seq<char>>::empty());
            assert(ids.take(0) =~= Seq::<Seq<char>>::empty());
            assert(self@.table =~= copied(source@, ids.take(0)));
        }
        while i < keys.len()
            invariant
                i <= keys.len(),
                ids == texts(keys@),
                ids.no_duplicates(),
                ids.to_set() == source@.tokens.dom(),
                source.wf(),
                source@.wf(),
                self.wf(),
                self@ == (RegistryView {
                    token_count: i as nat,
                    table: copied(source@, ids.take(i as int)),
                    ..before
                }),
            decreases keys.len() - i,
        {
            let key = keys[i].as_str();
            let ghost id = ids[i as int];
            proof {
                assert(key@ == id);
                assert(ids.contains(id));
                assert(!ids.take(i as int).contains(id)) by {
                    if ids.take(i as int).contains(id) {
                        let j = ids.take(i as int).index_of(id);
                        assert(ids[j] == ids[i as int]);
                    }
                }
                assert(ids.take(i + 1) =~= ids.take(i as int).push(id));
            }
            match source.may_load(key) {
                Some(record) => {
                    let info = record.clone();
                    self.insert_new(key, info);
                    proof {
                        let done = ids.take(i as int);
                        let next = ids.take(i + 1);
                        assert forall|x: Seq<char>| next.contains(x) <==> done.contains(x) || x
                            == id by {
                            if done.contains(x) {
                                let j = done.index_of(x);
                                assert(next[j] == x);
                            }
                            if next.contains(x) && x != id {
                                let j = next.index_of(x);
                                assert(done[j] == x);
                            }
                            if x == id {
                                assert(next[i as int] == x);
                            }
                        }
                        assert(self@.table.tokens =~= copied(source@, next).tokens);
                        assert(self@.table.owner_index =~= copied(source@, next).owner_index);
                    }
                },
                None => {},
            }
            i += 1;
        }
        proof {
            assert(ids.take(i as int) =~= ids);
            assert(copied(source@, ids).tokens =~= source@.tokens);
            assert(copied(source@, ids).owner_index =~= source@.owner_index);
            ids.unique_seq_to_set();
        }
    }

    /// Burns the token `id`: its record and its index entry are removed.
    pub fn burn(&mut self, id: &str) -> (r: Result<(), ContractError>)
        requires
            old(self).wf(),
        ensures
            final(self).wf(),
            old(self)@.contains(id@) ==> r is Ok && final(self)@ == old(self)@.burn(id@)
                && final(self)@.token_count + 1 == old(self)@.token_count,
            !old(self)@.contains(id@) ==> fails_with(r, ErrorKind::NotFound, id@) && final(self)@
                == old(self)@,
    {
        if !self.nft_info.has(id) {
            return Err(ContractError::new(ErrorKind::NotFound, id));
        }
        let ghost before = self@;
        self.nft_info.remove(id);
        proof {
            self.nft_info.lemma_wf();
            assert(self@.table.tokens.dom() =~= before.table.tokens.dom().remove(id@));
        }
        self.decrement_tokens();
        Ok(())
    }

    /// Stores `info` as the record of the token `id`: in place of the
    /// record that is there, or as a new token, which is counted.
    pub fn save(&mut self, id: &str, info: NftInfo)
        requires
            old(self).wf(),
        ensures
            final(self).wf(),
            final(self)@ == if old(self)@.contains(id@) {
                old(self)@.update(id@, info@)
            } else {
                RegistryView {
                    token_count: old(self)@.token_count + 1,
                    table: old(self)@.table.save(id@, info@),
                    ..old(self)@
                }
            },
    {
        if self.nft_info.has(id) {
            self.replace(id, info);
        } else {
            self.insert_new(id, info);
        }
    }

    /// Replaces the record of the token `id`, which exists, by `info`.
    fn replace(&mut self, id: &str, info: NftInfo)
        requires
            old(self).wf(),
            old(self)@.contains(id@),
        ensures
            final(self).wf(),
            final(self)@ == old(self)@.update(id@, info@),
    {
        let ghost before = self@;
        self.nft_info.save(id, info);
        proof {
            self.nft_info.lemma_wf();
            assert(self@.table.tokens.dom() =~= before.table.tokens.dom());
        }
    }

    /// Hands the token `id` to `new_owner` and drops its approvals.
    pub fn transfer(&mut self, id: &str, new_owner: &str) -> (r: Result<(), ContractError>)
        requires
            old(self).wf(),
        ensures
            final(self).wf(),
            old(self)@.contains(id@) ==> r is Ok && final(self)@ == old(self)@.transfer(
                id@,
                new_owner@,
            ),
            !old(self)@.contains(id@) ==> fails_with(r, ErrorKind::NotFound, id@) && final(self)@
                == old(self)@,
    {
        let info = match self.nft_info.may_load(id) {
            Some(old_info) => NftInfo {
                owner: new_owner.to_owned(),
                approvals: Vec::new(),
                token_uri: copy_opt_text(&old_info.token_uri),
                extension: copy_opt_metadata(&old_info.extension),
            },
            None => {
                return Err(ContractError::new(ErrorKind::NotFound, id));
            },
        };
        proof {
            assert(info@.approvals =~= Seq::<ApprovalView>::empty());
        }
        self.replace(id, info);
        Ok(())
    }

    /// Grants the token `id` to `spender` until `expires`, or for ever where
    /// none is given. A grant that the spender held is replaced. An
    /// expiration that `block` has reached already is refused.
    pub fn approve(
        &mut self,
        id: &str,
        spender: &str,
        expires: Option<Expiration>,
        block: &BlockInfo,
    ) -> (r: Result<(), ContractError>)
        requires
            old(self).wf(),
        ensures
            final(self).wf(),
            !old(self)@.contains(id@) ==> fails_with(r, ErrorKind::NotFound, id@),
            old(self)@.contains(id@) && granted_until(expires).expired_at(block.height, block.time)
                ==> fails_with(r, ErrorKind::Expired, id@),
            old(self)@.contains(id@) && !granted_until(expires).expired_at(
                block.height,
                block.time,
            ) ==> r is Ok && final(self)@ == old(self)@.approve(
                id@,
                spender@,
                granted_until(expires),
            ),
            r is Err ==> final(self)@ == old(self)@,
    {
        let expires = match expires {
            Some(e) => e,
            None => Expiration::Never,
        };
        let info = match self.nft_info.may_load(id) {
            Some(old_info) => {
                if expires.is_expired(block) {
                    return Err(ContractError::new(ErrorKind::Expired, id));
                }
                let (mut approvals, _) = approvals_excluding(&old_info.approvals, spender);
                let ghost kept = approvals_view(approvals@);
                approvals.push(Approval { spender: spender.to_owned(), expires });
                proof {
                    assert(approvals_view(approvals@) =~= kept.push(
                        ApprovalView { spender: spender@, expires },
                    ));
                }
                NftInfo {
                    owner: old_info.owner.clone(),
                    approvals,
                    token_uri: copy_opt_text(&old_info.token_uri),
                    extension: copy_opt_metadata(&old_info.extension),
                }
            },
            None => {
                return Err(ContractError::new(ErrorKind::NotFound, id));
            },
        };
        self.replace(id, info);
        Ok(())
    }

    /// Takes the grant of the token `id` to `spender` back. Fails if there
    /// is none.
    pub fn revoke(&mut self, id: &str, spender: &str) -> (r: Result<(), ContractError>)
        requires
            old(self).wf(),
        ensures
            final(self).wf(),
            !old(self)@.contains(id@) ==> fails_with(r, ErrorKind::NotFound, id@),
            old(self)@.contains(id@) && !has_approval(
                old(self)@.table.tokens[id@].approvals,
                spender@,
            ) ==> fails_with(r, ErrorKind::ApprovalNotFound, spender@),
            old(self)@.contains(id@) && has_approval(
                old(self)@.table.tokens[id@].approvals,
                spender@,
            ) ==> r is Ok && final(self)@ == old(self)@.revoke(id@, spender@),
            r is Err ==> final(self)@ == old(self)@,
    {
        let info = match self.nft_info.may_load(id) {
            Some(old_info) => {
                let (approvals, found) = approvals_excluding(&old_info.approvals, spender);
                if !found {
                    return Err(ContractError::new(ErrorKind::ApprovalNotFound, spender));
                }
                NftInfo {
                    owner: old_info.owner.clone(),
                    approvals,
                    token_uri: copy_opt_text(&old_info.token_uri),
                    extension: copy_opt_metadata(&old_info.extension),
                }
            },
            None => {
                return Err(ContractError::new(ErrorKind::NotFound, id));
            },
        };
        self.replace(id, info);
        Ok(())
    }

    /// Takes all grants of the token `id` back.
    pub fn revoke_all(&mut self, id: &str) -> (r: Result<(), ContractError>)
        requires
            old(self).wf(),
        ensures
            final(self).wf(),
            old(self)@.contains(id@) ==> r is Ok && final(self)@ == old(self)@.revoke_all(id@),
            !old(self)@.contains(id@) ==> fails_with(r, ErrorKind::NotFound, id@) && final(self)@
                == old(self)@,
    {
        let info = match self.nft_info.may_load(id) {
            Some(old_info) => NftInfo {
                owner: old_info.owner.clone(),
                approvals: Vec::new(),
                token_uri: copy_opt_text(&old_info.token_uri),
                extension: copy_opt_metadata(&old_info.extension),
            },
            None => {
                return Err(ContractError::new(ErrorKind::NotFound, id));
            },
        };
        proof {
            assert(info@.approvals =~= Seq::<ApprovalView>::empty());
        }
        self.replace(id, info);
        Ok(())
    }

    /// Whether `actor` owns the token `id` or holds a grant of it that has
    /// not ended in `block`.
    pub fn is_approved_or_owner(&self, id: &str, actor: &str, block: &BlockInfo) -> (r: bool)
        requires
            self.wf(),
        ensures
            r == self@.is_approved_or_owner(id@, actor@, block.height, block.time),
    {
        match self.nft_info.may_load(id) {
            Some(info) => crate::order::str_equal(info.owner.as_str(), actor) || any_live_approval(
                &info.approvals,
                actor,
                block,
            ),
            None => false,
        }
    }

    /// A page of the identifiers of all tokens, in ascending order: those
    /// after `start_after`, at most `limit` of them.
    pub fn all_tokens(&self, start_after: &Option<String>, limit: Option<u32>) -> (r: Result<
        Vec<String>,
        ContractError,
    >)
        requires
            self.wf(),
        ensures
            asked_limit(limit) > MAX_LIMIT ==> fails_with(r, ErrorKind::LimitExceeded, "limit"@),
            asked_limit(limit) <= MAX_LIMIT ==> (r matches Ok(page) && is_page(
                self@.table.tokens.dom(),
                opt_text(*start_after),
                asked_limit(limit),
                texts(page@),
            )),
    {
        match resolve_limit(limit) {
            Ok(n) => Ok(self.nft_info.keys(start_after, n)),
            Err(e) => Err(e),
        }
    }

    /// A page of the identifiers of the tokens of `owner`, in ascending
    /// order: those after `start_after`, at most `limit` of them.
    pub fn tokens_by_owner(
        &self,
        owner: &str,
        start_after: &Option<String>,
        limit: Option<u32>,
    ) -> (r: Result<Vec<String>, ContractError>)
        requires
            self.wf(),
        ensures
            asked_limit(limit) > MAX_LIMIT ==> fails_with(r, ErrorKind::LimitExceeded, "limit"@),
            asked_limit(limit) <= MAX_LIMIT ==> (r matches Ok(page) && is_page(
                self@.table.owned_by(owner@),
                opt_text(*start_after),
                asked_limit(limit),
                texts(page@),
            )),
    {
        match resolve_limit(limit) {
            Ok(n) => Ok(self.nft_info.keys_by_owner(owner, start_after, n)),
            Err(e) => Err(e),
        }
    }

    /// Whether the registry holds no token.
    pub fn is_empty(&self) -> (r: bool)
        requires
            self.wf(),
        ensures
            r == (self@.table == TableView::empty()),
            r == (self@.token_count == 0),
    {
        self.nft_info.is_empty()
    }
}

/// The part of `source` that holds the records under the identifiers of
/// `ids`, with their index entries.
pub open spec fn copied(source: TableView, ids: Seq<Seq<char>>) -> TableView {
    TableView {
        tokens: source.tokens.restrict(ids.to_set()),
        owner_index: Set::new(
            |k: crate::model::IndexKey| ids.contains(k.1) && source.owner_index.contains(k),
        ),
    }
}

/// The expiration of a grant: what was given, or never.
pub open spec fn granted_until(expires: Option<Expiration>) -> Expiration {
    match expires {
        Some(e) => e,
        None => Expiration::Never,
    }
}

} // verus!
