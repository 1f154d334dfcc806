//! The registry as mathematics: what the token table and its owner index
//! hold, what each operation makes of them, and what holds of every state.

use vstd::prelude::*;
use crate::expiration::Expiration;
use crate::order::{str_lt, strictly_ascending};
use crate::state::{ApprovalView, CollectionInfoView, MetadataView, NftInfoView};

verus! {

/// An entry of the owner index: an owner and the identifier of a token.
pub type IndexKey = (Seq<char>, Seq<char>);

/// What a token table stands for: the records by identifier, and the owner
/// index, which holds a pair of owner and identifier for each record.
#[verifier::ext_equal]
pub struct TableView {
    pub tokens: Map<Seq<char>, NftInfoView>,
    pub owner_index: Set<IndexKey>,
}

impl TableView {
    /// The table without records.
    pub open spec fn empty() -> TableView {
        TableView { tokens: Map::empty(), owner_index: Set::empty() }
    }

    /// The table is finite and the owner index holds exactly one entry for
    /// each record, under the record's owner.
    pub open spec fn wf(self) -> bool {
        &&& self.tokens.dom().finite()
        &&& forall|k: IndexKey| #[trigger]
            self.owner_index.contains(k) <==> self.tokens.dom().contains(k.1)
                && self.tokens[k.1].owner == k.0
    }

    /// Whether the table holds a record under `id`.
    pub open spec fn contains(self, id: Seq<char>) -> bool {
        self.tokens.dom().contains(id)
    }

    /// The identifiers that the owner index files under `owner`.
    pub open spec fn owned_by(self, owner: Seq<char>) -> Set<Seq<char>> {
        Set::new(|id: Seq<char>| self.owner_index.contains((owner, id)))
    }

    /// The identifiers found in the owner index, whoever the owner.
    pub open spec fn indexed_ids(self) -> Set<Seq<char>> {
        Set::new(|id: Seq<char>| exists|owner: Seq<char>| self.owner_index.contains((owner, id)))
    }

    /// The table after `info` was stored under `id`, replacing what was
    /// there: the index entry of the old record leaves, that of the new one
    /// enters.
    pub open spec fn save(self, id: Seq<char>, info: NftInfoView) -> TableView {
        let cleared = if self.contains(id) {
            self.owner_index.remove((self.tokens[id].owner, id))
        } else {
            self.owner_index
        };
        TableView { tokens: self.tokens.insert(id, info), owner_index: cleared.insert((info.owner, id)) }
    }

    /// The table after the record under `id` was removed, with its index
    /// entry.
    pub open spec fn remove(self, id: Seq<char>) -> TableView {
        if self.contains(id) {
            TableView {
                tokens: self.tokens.remove(id),
                owner_index: self.owner_index.remove((self.tokens[id].owner, id)),
            }
        } else {
            self
        }
    }
}

/// Whether `id` comes after the exclusive start of a page.
pub open spec fn after_start(start_after: Option<Seq<char>>, id: Seq<char>) -> bool {
    match start_after {
        Some(s) => str_lt(s, id),
        None => true,
    }
}

/// `page` is the page of `ids` that starts after `start_after` and holds at
/// most `limit` identifiers: it is in strictly ascending order, holds only
/// identifiers of `ids` after the start, leaves none of them out unless it is
/// full, and every one that it leaves out comes after all that it holds.
pub open spec fn is_page(
    ids: Set<Seq<char>>,
    start_after: Option<Seq<char>>,
    limit: nat,
    page: Seq<Seq<char>>,
) -> bool {
    &&& strictly_ascending(page)
    &&& page.len() <= limit
    &&& forall|i: int| 0 <= i < page.len() ==> ids.contains(#[trigger] page[i]) && after_start(
        start_after,
        page[i],
    )
    &&& forall|id: Seq<char>| #[trigger]
        ids.contains(id) && after_start(start_after, id) && !page.contains(id) ==> page.len()
            == limit && forall|i: int| 0 <= i < page.len() ==> str_lt(#[trigger] page[i], id)
}

/// The approvals after `spender` was granted the token until `expires`: an
/// earlier grant to the same spender leaves, the new one stands last.
pub open spec fn approvals_with(
    approvals: Seq<ApprovalView>,
    spender: Seq<char>,
    expires: Expiration,
) -> Seq<ApprovalView> {
    approvals_without(approvals, spender).push(ApprovalView { spender, expires })
}

/// The approvals without those of `spender`, the others in their order.
pub open spec fn approvals_without(approvals: Seq<ApprovalView>, spender: Seq<char>) -> Seq<
    ApprovalView,
> {
    approvals.filter(|a: ApprovalView| a.spender != spender)
}

/// Whether one of the approvals is a grant to `spender`.
pub open spec fn has_approval(approvals: Seq<ApprovalView>, spender: Seq<char>) -> bool {
    exists|i: int| 0 <= i < approvals.len() && (#[trigger] approvals[i]).spender == spender
}

/// Whether one of the approvals is a grant to `spender` that has not ended
/// in a block of the given height and time.
pub open spec fn has_live_approval(
    approvals: Seq<ApprovalView>,
    spender: Seq<char>,
    height: u64,
    time: u64,
) -> bool {
    exists|i: int|
        0 <= i < approvals.len() && (#[trigger] approvals[i]).spender == spender
            && !approvals[i].expired_at(height, time)
}

/// What a registry stands for: the collection's metadata, the token counter,
/// the token table and the address that funds are withdrawn to.
#[verifier::ext_equal]
pub struct RegistryView {
    pub collection_info: Option<CollectionInfoView>,
    pub token_count: nat,
    pub table: TableView,
    pub withdraw_address: Option<Seq<char>>,
}

impl RegistryView {
    /// The registry before anything was stored in it.
    pub open spec fn empty() -> RegistryView {
        RegistryView {
            collection_info: None,
            token_count: 0,
            table: TableView::empty(),
            withdraw_address: None,
        }
    }

    /// The table is well formed and the counter is its number of records.
    pub open spec fn wf(self) -> bool {
        &&& self.table.wf()
        &&& self.token_count == self.table.tokens.dom().len()
    }

    /// Whether the registry holds the token `id`.
    pub open spec fn contains(self, id: Seq<char>) -> bool {
        self.table.contains(id)
    }

    /// The record of a newly minted token.
    pub open spec fn minted(
        owner: Seq<char>,
        token_uri: Option<Seq<char>>,
        extension: Option<MetadataView>,
    ) -> NftInfoView {
        NftInfoView { owner, approvals: Seq::empty(), token_uri, extension }
    }

    /// The registry after a token was minted under an identifier that was
    /// free.
    pub open spec fn mint(
        self,
        id: Seq<char>,
        owner: Seq<char>,
        token_uri: Option<Seq<char>>,
        extension: Option<MetadataView>,
    ) -> RegistryView {
        RegistryView {
            token_count: self.token_count + 1,
            table: self.table.save(id, Self::minted(owner, token_uri, extension)),
            ..self
        }
    }

    /// The registry after the token `id`, which it held, was burnt.
    pub open spec fn burn(self, id: Seq<char>) -> RegistryView {
        RegistryView {
            token_count: (self.token_count - 1) as nat,
            table: self.table.remove(id),
            ..self
        }
    }

    /// The registry after the record of `id` was replaced by `info`.
    pub open spec fn update(self, id: Seq<char>, info: NftInfoView) -> RegistryView {
        RegistryView { table: self.table.save(id, info), ..self }
    }

    /// The registry after the token `id` went to `new_owner`: the owner
    /// changes and the approvals are dropped.
    pub open spec fn transfer(self, id: Seq<char>, new_owner: Seq<char>) -> RegistryView {
        self.update(
            id,
            NftInfoView { owner: new_owner, approvals: Seq::empty(), ..self.table.tokens[id] },
        )
    }

    /// The registry after `spender` was granted the token `id`.
    pub open spec fn approve(
        self,
        id: Seq<char>,
        spender: Seq<char>,
        expires: Expiration,
    ) -> RegistryView {
        let old = self.table.tokens[id];
        self.update(
            id,
            NftInfoView { approvals: approvals_with(old.approvals, spender, expires), ..old },
        )
    }

    /// The registry after the grant of the token `id` to `spender` was taken
    /// back.
    pub open spec fn revoke(self, id: Seq<char>, spender: Seq<char>) -> RegistryView {
        let old = self.table.tokens[id];
        self.update(id, NftInfoView { approvals: approvals_without(old.approvals, spender), ..old })
    }

    /// The registry after all grants of the token `id` were taken back.
    pub open spec fn revoke_all(self, id: Seq<char>) -> RegistryView {
        self.update(id, NftInfoView { approvals: Seq::empty(), ..self.table.tokens[id] })
    }

    /// Whether `actor` owns the token `id` or holds a grant of it that has
    /// not ended in a block of the given height and time.
    pub open spec fn is_approved_or_owner(
        self,
        id: Seq<char>,
        actor: Seq<char>,
        height: u64,
        time: u64,
    ) -> bool {
        self.contains(id) && (self.table.tokens[id].owner == actor || has_live_approval(
            self.table.tokens[id].approvals,
            actor,
            height,
            time,
        ))
    }
}

/// The identifiers in the owner index are those of the records.
pub proof fn lemma_indexed_ids(t: TableView)
    requires
        t.wf(),
    ensures
        t.indexed_ids() == t.tokens.dom(),
{
    assert forall|id: Seq<char>| t.indexed_ids().contains(id) == t.tokens.dom().contains(
        id,
    ) by {
        if t.tokens.dom().contains(id) {
            assert(t.owner_index.contains((t.tokens[id].owner, id)));
        }
    }
    assert(t.indexed_ids() =~= t.tokens.dom());
}

/// Storing a record keeps the table well formed.
pub proof fn lemma_save_wf(t: TableView, id: Seq<char>, info: NftInfoView)
    requires
        t.wf(),
    ensures
        t.save(id, info).wf(),
{
    let s = t.save(id, info);
    assert forall|k: IndexKey| #[trigger]
        s.owner_index.contains(k) <==> s.tokens.dom().contains(k.1) && s.tokens[k.1].owner
            == k.0 by {
        assert(t.owner_index.contains(k) <==> t.tokens.dom().contains(k.1) && t.tokens[k.1].owner
            == k.0);
    }
}

/// Removing a record keeps the table well formed.
pub proof fn lemma_remove_wf(t: TableView, id: Seq<char>)
    requires
        t.wf(),
    ensures
        t.remove(id).wf(),
{
    let s = t.remove(id);
    assert forall|k: IndexKey| #[trigger]
        s.owner_index.contains(k) <==> s.tokens.dom().contains(k.1) && s.tokens[k.1].owner
            == k.0 by {
        assert(t.owner_index.contains(k) <==> t.tokens.dom().contains(k.1) && t.tokens[k.1].owner
            == k.0);
    }
}

} // verus!
