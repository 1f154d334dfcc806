//! What holds of every registry and of every migration.

use vstd::prelude::*;
use crate::expiration::Expiration;
use crate::model::{
    after_start, is_page, lemma_indexed_ids, lemma_remove_wf, lemma_save_wf, IndexKey,
    RegistryView, TableView,
};
use crate::msg::MigrateMsgView;
use crate::order::{lemma_str_lt_asymmetric, lemma_str_lt_connected, str_lt};
use crate::state::{MetadataView, NftInfoView};
use crate::storage::StoreView;

verus! {

/// The registry in which nothing was stored is well formed.
pub proof fn lemma_empty_wf()
    ensures
        RegistryView::empty().wf(),
{
    assert(RegistryView::empty().table.tokens.dom() =~= Set::<Seq<char>>::empty());
}

/// In every well-formed registry the counter is the number of records, and
/// that is the number of identifiers that the owner index holds, under
/// whatever owner.
pub proof fn lemma_count_is_number_of_tokens(r: RegistryView)
    requires
        r.wf(),
    ensures
        r.token_count == r.table.tokens.dom().len(),
        r.token_count == r.table.indexed_ids().len(),
{
    lemma_indexed_ids(r.table);
}

/// In every well-formed table each record has its entry in the owner index
/// under its owner and under no other, and each entry of the index belongs
/// to a record.
pub proof fn lemma_index_agrees_with_records(t: TableView)
    requires
        t.wf(),
    ensures
        forall|id: Seq<char>| #[trigger]
            t.contains(id) ==> t.owner_index.contains((t.tokens[id].owner, id)),
        forall|owner: Seq<char>, id: Seq<char>| #[trigger]
            t.owner_index.contains((owner, id)) ==> t.contains(id) && t.tokens[id].owner == owner,
        forall|a: Seq<char>, b: Seq<char>, id: Seq<char>|
            t.owner_index.contains((a, id)) && t.owner_index.contains((b, id)) ==> a == b,
{
    assert forall|id: Seq<char>| #[trigger] t.contains(id) implies t.owner_index.contains(
        (t.tokens[id].owner, id),
    ) by {
        let k: IndexKey = (t.tokens[id].owner, id);
        assert(t.owner_index.contains(k) <==> t.tokens.dom().contains(k.1) && t.tokens[k.1].owner
            == k.0);
    }
    assert forall|owner: Seq<char>, id: Seq<char>| #[trigger]
        t.owner_index.contains((owner, id)) implies t.contains(id) && t.tokens[id].owner
        == owner by {
        let k: IndexKey = (owner, id);
        assert(t.owner_index.contains(k) <==> t.tokens.dom().contains(k.1) && t.tokens[k.1].owner
            == k.0);
    }
}

/// Minting under a free identifier keeps the registry well formed.
pub proof fn lemma_mint_keeps_wf(
    r: RegistryView,
    id: Seq<char>,
    owner: Seq<char>,
    token_uri: Option<Seq<char>>,
    extension: Option<MetadataView>,
)
    requires
        r.wf(),
        !r.contains(id),
    ensures
        r.mint(id, owner, token_uri, extension).wf(),
{
    lemma_save_wf(r.table, id, RegistryView::minted(owner, token_uri, extension));
}

/// Burning a token that is there keeps the registry well formed.
pub proof fn lemma_burn_keeps_wf(r: RegistryView, id: Seq<char>)
    requires
        r.wf(),
        r.contains(id),
    ensures
        r.burn(id).wf(),
{
    lemma_remove_wf(r.table, id);
}

/// Replacing the record of a token that is there keeps the registry well
/// formed. Transfers, approvals and revocations are such replacements.
pub proof fn lemma_update_keeps_wf(r: RegistryView, id: Seq<char>, info: NftInfoView)
    requires
        r.wf(),
        r.contains(id),
    ensures
        r.update(id, info).wf(),
        r.transfer(id, info.owner).wf(),
        r.approve(id, info.owner, Expiration::Never).wf(),
        r.revoke(id, info.owner).wf(),
        r.revoke_all(id).wf(),
{
    lemma_save_wf(r.table, id, info);
    lemma_save_wf(r.table, id, r.transfer(id, info.owner).table.tokens[id]);
    lemma_save_wf(r.table, id, r.approve(id, info.owner, Expiration::Never).table.tokens[id]);
    lemma_save_wf(r.table, id, r.revoke(id, info.owner).table.tokens[id]);
    lemma_save_wf(r.table, id, r.revoke_all(id).table.tokens[id]);
    assert(r.update(id, info).table.tokens.dom() =~= r.table.tokens.dom());
    assert(r.transfer(id, info.owner).table.tokens.dom() =~= r.table.tokens.dom());
    assert(r.approve(id, info.owner, Expiration::Never).table.tokens.dom()
        =~= r.table.tokens.dom());
    assert(r.revoke(id, info.owner).table.tokens.dom() =~= r.table.tokens.dom());
    assert(r.revoke_all(id).table.tokens.dom() =~= r.table.tokens.dom());
}

/// After a transfer the token has no approvals, whatever it had before, so
/// that nobody but the new owner is approved or owner.
pub proof fn lemma_transfer_drops_approvals(
    r: RegistryView,
    id: Seq<char>,
    new_owner: Seq<char>,
    actor: Seq<char>,
    height: u64,
    time: u64,
)
    requires
        r.contains(id),
    ensures
        r.transfer(id, new_owner).table.tokens[id].approvals.len() == 0,
        r.transfer(id, new_owner).table.tokens[id].owner == new_owner,
        r.transfer(id, new_owner).is_approved_or_owner(id, actor, height, time) == (actor
            == new_owner),
{
}

/// A token that was minted for `a` and then handed to `b` is filed under
/// `b` and, where `a` is another identity, no longer under `a`; and it has no
/// approvals.
pub proof fn lemma_mint_then_transfer(
    r: RegistryView,
    id: Seq<char>,
    a: Seq<char>,
    b: Seq<char>,
    token_uri: Option<Seq<char>>,
    extension: Option<MetadataView>,
)
    requires
        r.wf(),
        !r.contains(id),
    ensures
        ({
            let s = r.mint(id, a, token_uri, extension).transfer(id, b);
            &&& s.wf()
            &&& s.table.owned_by(b).contains(id)
            &&& a != b ==> !s.table.owned_by(a).contains(id)
            &&& s.table.tokens[id].approvals.len() == 0
            &&& s.token_count == r.token_count + 1
        }),
{
    let m = r.mint(id, a, token_uri, extension);
    lemma_mint_keeps_wf(r, id, a, token_uri, extension);
    lemma_update_keeps_wf(m, id, NftInfoView { owner: b, ..m.table.tokens[id] });
}

/// A page of the tokens of an owner holds no token that is not filed under
/// that owner, and a page that is not full holds every token that is filed
/// under the owner after the start.
pub proof fn lemma_page_of_owner(
    t: TableView,
    owner: Seq<char>,
    start_after: Option<Seq<char>>,
    limit: nat,
    page: Seq<Seq<char>>,
    id: Seq<char>,
)
    requires
        is_page(t.owned_by(owner), start_after, limit, page),
    ensures
        !t.owned_by(owner).contains(id) ==> !page.contains(id),
        t.owned_by(owner).contains(id) && after_start(start_after, id) && page.len() < limit
            ==> page.contains(id),
{
    if page.contains(id) {
        let i = page.index_of(id);
        assert(t.owned_by(owner).contains(page[i]));
    }
}

/// A page of at most no identifiers is empty.
pub proof fn lemma_page_of_limit_zero(
    ids: Set<Seq<char>>,
    start_after: Option<Seq<char>>,
    page: Seq<Seq<char>>,
)
    requires
        is_page(ids, start_after, 0, page),
    ensures
        page == Seq::<Seq<char>>::empty(),
{
    assert(page =~= Seq::<Seq<char>>::empty());
}

/// Two pages of the same identifiers with the same start and limit agree on
/// their first `n` places.
proof fn lemma_pages_agree_upto(
    ids: Set<Seq<char>>,
    start_after: Option<Seq<char>>,
    limit: nat,
    p: Seq<Seq<char>>,
    q: Seq<Seq<char>>,
    n: int,
)
    requires
        is_page(ids, start_after, limit, p),
        is_page(ids, start_after, limit, q),
        0 <= n <= p.len(),
        n <= q.len(),
    ensures
        forall|i: int| 0 <= i < n ==> p[i] == q[i],
    decreases n,
{
    if n > 0 {
        lemma_pages_agree_upto(ids, start_after, limit, p, q, n - 1);
        let i = n - 1;
        if p[i] != q[i] {
            lemma_str_lt_connected(p[i], q[i]);
            lemma_first_difference(ids, start_after, limit, p, q, i);
            lemma_first_difference(ids, start_after, limit, q, p, i);
        }
    }
}

/// Where two pages of the same identifiers agree before place `i`, the first
/// does not hold there what comes before what the second holds there.
proof fn lemma_first_difference(
    ids: Set<Seq<char>>,
    start_after: Option<Seq<char>>,
    limit: nat,
    p: Seq<Seq<char>>,
    q: Seq<Seq<char>>,
    i: int,
)
    requires
        is_page(ids, start_after, limit, p),
        is_page(ids, start_after, limit, q),
        0 <= i < p.len(),
        i < q.len(),
        forall|j: int| 0 <= j < i ==> p[j] == q[j] || q[j] == p[j],
    ensures
        !str_lt(p[i], q[i]),
{
    let x = p[i];
    assert(ids.contains(x) && after_start(start_after, x));
    if !str_lt(p[i], q[i]) {
    } else if q.contains(x) {
        let k = q.index_of(x);
        if k < i {
            assert(p[k] == q[k] || q[k] == p[k]);
            assert(str_lt(p[k], p[i]));
            lemma_str_lt_asymmetric(p[k], p[i]);
        } else if k == i {
            lemma_str_lt_asymmetric(p[i], q[i]);
        } else {
            assert(str_lt(q[i], q[k]));
            lemma_str_lt_asymmetric(q[i], q[k]);
        }
    } else {
        assert(str_lt(q[i], x));
        lemma_str_lt_asymmetric(q[i], x);
    }
}

/// There is one page only of given identifiers with a given start and
/// limit.
pub proof fn lemma_page_is_unique(
    ids: Set<Seq<char>>,
    start_after: Option<Seq<char>>,
    limit: nat,
    p: Seq<Seq<char>>,
    q: Seq<Seq<char>>,
)
    requires
        is_page(ids, start_after, limit, p),
        is_page(ids, start_after, limit, q),
    ensures
        p == q,
{
    if p.len() <= q.len() {
        lemma_pages_agree_upto(ids, start_after, limit, p, q, p.len() as int);
        lemma_same_length(ids, start_after, limit, p, q);
    } else {
        lemma_pages_agree_upto(ids, start_after, limit, p, q, q.len() as int);
        lemma_same_length(ids, start_after, limit, q, p);
    }
    assert(p =~= q);
}

/// Two pages of the same identifiers that agree as far as the shorter one
/// goes are of the same length.
proof fn lemma_same_length(
    ids: Set<Seq<char>>,
    start_after: Option<Seq<char>>,
    limit: nat,
    p: Seq<Seq<char>>,
    q: Seq<Seq<char>>,
)
    requires
        is_page(ids, start_after, limit, p),
        is_page(ids, start_after, limit, q),
        p.len() <= q.len(),
        forall|i: int| 0 <= i < p.len() ==> p[i] == q[i] || q[i] == p[i],
    ensures
        p.len() == q.len(),
{
    if p.len() < q.len() {
        let x = q[p.len() as int];
        assert(ids.contains(x) && after_start(start_after, x));
        if p.contains(x) {
            let k = p.index_of(x);
            assert(p[k] == q[k] || q[k] == p[k]);
            assert(str_lt(q[k], q[p.len() as int]));
            lemma_str_lt_asymmetric(q[k], x);
        }
    }
}

/// A migration that succeeds leaves a well-formed store in which nothing is
/// left to bring forward, and leaves the data of the earlier layouts as it
/// was.
pub proof fn lemma_migrate_brings_forward(s: StoreView, time: u64, msg: MigrateMsgView)
    requires
        s.wf(),
        s.migrate(time, msg) is Ok,
    ensures
        s.migrate(time, msg)->Ok_0.wf(),
        s.migrate(time, msg)->Ok_0.is_current(),
        s.migrate(time, msg)->Ok_0.legacy() == s.legacy(),
{
    let s1 = s.migrate_legacy_minter_and_creator()->Ok_0;
    let s2 = s1.migrate_legacy_collection_info(time)->Ok_0;
    let s3 = s2.migrate_legacy_tokens();
    assert(s3.contract.wf());
}

/// Migrating a second time, at whatever block time, changes nothing: the
/// second migration succeeds and leaves the store that the first one left.
pub proof fn lemma_migrate_is_idempotent(s: StoreView, time: u64, later: u64, msg: MigrateMsgView)
    requires
        s.wf(),
        s.migrate(time, msg) is Ok,
    ensures
        s.migrate(time, msg)->Ok_0.migrate(later, msg) == s.migrate(time, msg),
{
    lemma_migrate_brings_forward(s, time, msg);
    let done = s.migrate(time, msg)->Ok_0;
    let again = done.migrate(later, msg)->Ok_0;
    assert(done.migrate(later, msg) is Ok);
    if done.contract.table == TableView::empty() {
        assert(done.legacy_tokens == TableView::empty());
        assert(done.contract.table.tokens.dom() =~= Set::<Seq<char>>::empty());
    }
    assert(again =~= done);
    assert(again.contract =~= done.contract);
}

/// A migration fails only for want of data: of the minter's address of the
/// earliest layout where no role has a record, of the collection's metadata
/// of the earlier layout where there is none of the current one, or of a
/// version marker. Then the registry is left as it was.
pub proof fn lemma_migrate_fails_for_want_of_data(s: StoreView, time: u64, msg: MigrateMsgView)
    ensures
        s.migrate(time, msg) is Err <==> (s.minter is None && s.creator is None
            && s.legacy_minter is None) || (s.contract.collection_info is None
            && s.legacy_collection_info is None) || s.version is None,
{
}

} // verus!
