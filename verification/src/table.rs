//! The token table: the records by identifier, in the order of their
//! identifiers, and the owner index that is kept in step with them.

use vstd::prelude::*;
use crate::model::{after_start, is_page, lemma_remove_wf, lemma_save_wf, IndexKey, TableView};
use crate::order::{
    lemma_str_lt_connected, lemma_str_lt_irreflexive, lemma_str_lt_transitive, str_equal,
    str_less, str_lt, strictly_ascending,
};
use crate::sorted::{
    ascending, assoc_map, fits_at, lemma_ascending_no_duplicates, lemma_assoc_at,
    lemma_assoc_insert, lemma_assoc_remove, lemma_assoc_update, lemma_fits_not_contained,
    lemma_insert_ascending, lemma_remove_ascending, strict_order,
};
use crate::state::{token_owner_idx, NftInfo, NftInfoView};

verus! {

/// What a list of texts stands for.
pub open spec fn texts(v: Seq<String>) -> Seq<Seq<char>> {
    v.map_values(|s: String| s@)
}

/// What a list of records stands for.
pub open spec fn infos_view(v: Seq<NftInfo>) -> Seq<NftInfoView> {
    v.map_values(|i: NftInfo| i@)
}

/// What a list of index entries stands for.
pub open spec fn pairs_view(v: Seq<(String, String)>) -> Seq<IndexKey> {
    v.map_values(|p: (String, String)| (p.0@, p.1@))
}

/// Whether `k` stands among the first `i` entries of `keys`.
pub open spec fn seen<K>(keys: Seq<K>, i: int, k: K) -> bool {
    exists|j: int| 0 <= j < i && #[trigger] keys[j] == k
}

/// The order of the owner index: by owner, and under one owner by
/// identifier.
pub open spec fn pair_lt(a: IndexKey, b: IndexKey) -> bool {
    str_lt(a.0, b.0) || (a.0 == b.0 && str_lt(a.1, b.1))
}

/// The order of identifiers, as a relation.
pub open spec fn id_order() -> spec_fn(Seq<char>, Seq<char>) -> bool {
    |a: Seq<char>, b: Seq<char>| str_lt(a, b)
}

/// The order of the owner index, as a relation.
pub open spec fn pair_order() -> spec_fn(IndexKey, IndexKey) -> bool {
    |a: IndexKey, b: IndexKey| pair_lt(a, b)
}

/// The order of identifiers is a strict order.
pub proof fn lemma_id_order_strict()
    ensures
        strict_order(id_order()),
{
    let lt = id_order();
    assert forall|a: Seq<char>| !#[trigger] lt(a, a) by {
        lemma_str_lt_irreflexive(a);
    }
    assert forall|a: Seq<char>, b: Seq<char>, c: Seq<char>| #[trigger]
        lt(a, b) && #[trigger] lt(b, c) implies lt(a, c) by {
        lemma_str_lt_transitive(a, b, c);
    }
}

/// The order of the owner index is transitive.
pub proof fn lemma_pair_lt_transitive(a: IndexKey, b: IndexKey, c: IndexKey)
    requires
        pair_lt(a, b),
        pair_lt(b, c),
    ensures
        pair_lt(a, c),
{
    if str_lt(a.0, b.0) && str_lt(b.0, c.0) {
        lemma_str_lt_transitive(a.0, b.0, c.0);
    } else if a.0 == b.0 && b.0 == c.0 {
        lemma_str_lt_transitive(a.1, b.1, c.1);
    }
}

/// The order of the owner index is total: of two different entries one
/// comes first.
pub proof fn lemma_pair_lt_connected(a: IndexKey, b: IndexKey)
    ensures
        pair_lt(a, b) || a == b || pair_lt(b, a),
{
    lemma_str_lt_connected(a.0, b.0);
    lemma_str_lt_connected(a.1, b.1);
}

/// The order of the owner index is a strict order.
pub proof fn lemma_pair_order_strict()
    ensures
        strict_order(pair_order()),
{
    let lt = pair_order();
    assert forall|a: IndexKey| !#[trigger] lt(a, a) by {
        lemma_str_lt_irreflexive(a.0);
        lemma_str_lt_irreflexive(a.1);
    }
    assert forall|a: IndexKey, b: IndexKey, c: IndexKey| #[trigger]
        lt(a, b) && #[trigger] lt(b, c) implies lt(a, c) by {
        lemma_pair_lt_transitive(a, b, c);
    }
}

/// Whether the index entry of `a_owner` and `a_id` comes strictly before
/// that of `b_owner` and `b_id`.
fn pair_less(a_owner: &str, a_id: &str, b_owner: &str, b_id: &str) -> (r: bool)
    ensures
        r == pair_lt((a_owner@, a_id@), (b_owner@, b_id@)),
{
    if str_less(a_owner, b_owner) {
        true
    } else if str_equal(a_owner, b_owner) {
        str_less(a_id, b_id)
    } else {
        false
    }
}

/// Whether `id` comes after the exclusive start of a page.
fn is_after_start(start_after: &Option<String>, id: &str) -> (r: bool)
    ensures
        r == after_start(crate::state::opt_text(*start_after), id@),
{
    match start_after {
        Some(s) => str_less(s.as_str(), id),
        None => true,
    }
}

/// The owner index of a token table: one entry of owner and identifier for
/// each token, in ascending order.
pub struct TokenIndexes {
    owner: Vec<(String, String)>,
}

impl View for TokenIndexes {
    type V = Set<IndexKey>;

    closed spec fn view(&self) -> Set<IndexKey> {
        self.keys().to_set()
    }
}

impl TokenIndexes {
    /// The entries in the order in which they are kept.
    pub closed spec fn keys(&self) -> Seq<IndexKey> {
        pairs_view(self.owner@)
    }

    /// The entries are in strictly ascending order.
    pub closed spec fn wf(&self) -> bool {
        ascending(self.keys(), pair_order())
    }

    /// The identifiers filed under `owner`.
    pub open spec fn owned_by(&self, owner: Seq<char>) -> Set<Seq<char>> {
        Set::new(|id: Seq<char>| self@.contains((owner, id)))
    }

    /// An index without entries.
    pub fn new() -> (r: Self)
        ensures
            r.wf(),
            r@ == Set::<IndexKey>::empty(),
    {
        let r = TokenIndexes { owner: Vec::new() };
        assert(r.keys().to_set() =~= Set::<IndexKey>::empty());
        r
    }

    /// Files `id` under `owner`. An entry that is there already stays as it
    /// is.
    pub fn insert(&mut self, owner: String, id: String)
        requires
            old(self).wf(),
        ensures
            final(self).wf(),
            final(self)@ == old(self)@.insert((owner@, id@)),
    {
        let ghost k: IndexKey = (owner@, id@);
        let ghost keys = self.keys();
        let mut i: usize = 0;
        while i < self.owner.len() && pair_less(
            self.owner[i].0.as_str(),
            self.owner[i].1.as_str(),
            owner.as_str(),
            id.as_str(),
        )
            invariant
                i <= self.owner.len(),
                self.keys() == keys,
                k == (owner@, id@),
                forall|j: int| 0 <= j < i ==> pair_lt(#[trigger] keys[j], k),
            decreases self.owner.len() - i,
        {
            i += 1;
        }
        let found = i < self.owner.len() && str_equal(self.owner[i].0.as_str(), owner.as_str())
            && str_equal(self.owner[i].1.as_str(), id.as_str());
        proof {
            lemma_pair_order_strict();
        }
        if found {
            proof {
                assert(keys[i as int] == k);
                assert(keys.contains(k));
                assert(keys.to_set().insert(k) =~= keys.to_set());
            }
        } else {
            proof {
                let lt = pair_order();
                assert(fits_at(keys, lt, i as int, k)) by {
                    assert forall|j: int| i <= j < keys.len() implies lt(k, #[trigger] keys[j]) by {
                        lemma_pair_lt_connected(keys[i as int], k);
                        if j > i {
                            assert(lt(keys[i as int], keys[j]));
                            lemma_pair_lt_transitive(k, keys[i as int], keys[j]);
                        }
                    }
                    assert forall|j: int| 0 <= j < i implies lt(#[trigger] keys[j], k) by {
                        assert(pair_lt(keys[j], k));
                    }
                }
                lemma_insert_ascending(keys, lt, i as int, k);
            }
            self.owner.insert(i, (owner, id));
            proof {
                assert(self.keys() =~= keys.insert(i as int, k));
            }
        }
    }

    /// Takes the entry of `id` under `owner` out, if it is there.
    pub fn remove(&mut self, owner: &str, id: &str)
        requires
            old(self).wf(),
        ensures
            final(self).wf(),
            final(self)@ == old(self)@.remove((owner@, id@)),
    {
        let ghost k: IndexKey = (owner@, id@);
        let ghost keys = self.keys();
        let mut i: usize = 0;
        while i < self.owner.len() && !(str_equal(self.owner[i].0.as_str(), owner) && str_equal(
            self.owner[i].1.as_str(),
            id,
        ))
            invariant
                i <= self.owner.len(),
                self.keys() == keys,
                k == (owner@, id@),
                forall|j: int| 0 <= j < i ==> #[trigger] keys[j] != k,
            decreases self.owner.len() - i,
        {
            i += 1;
        }
        if i < self.owner.len() {
            proof {
                lemma_pair_order_strict();
                assert(keys[i as int] == k);
                lemma_remove_ascending(keys, pair_order(), i as int);
            }
            let _ = self.owner.remove(i);
            proof {
                assert(self.keys() =~= keys.remove(i as int));
            }
        } else {
            proof {
                assert(!keys.contains(k));
                assert(keys.to_set().remove(k) =~= keys.to_set());
            }
        }
    }

    /// The page of the identifiers filed under `owner` that starts after
    /// `start_after` and holds at most `limit` of them.
    pub fn ids_of(&self, owner: &str, start_after: &Option<String>, limit: usize) -> (page: Vec<
        String,
    >)
        requires
            self.wf(),
        ensures
            is_page(
                self.owned_by(owner@),
                crate::state::opt_text(*start_after),
                limit as nat,
                texts(page@),
            ),
    {
        let ghost keys = self.keys();
        let ghost start = crate::state::opt_text(*start_after);
        let mut page: Vec<String> = Vec::new();
        let mut i: usize = 0;
        proof {
            lemma_pair_order_strict();
        }
        while i < self.owner.len() && page.len() < limit
            invariant
                i <= self.owner.len(),
                page.len() <= limit,
                keys == self.keys(),
                start == crate::state::opt_text(*start_after),
                ascending(keys, pair_order()),
                strictly_ascending(texts(page@)),
                forall|t: int|
                    0 <= t < page.len() ==> after_start(start, #[trigger] texts(page@)[t]),
                forall|t: int|
                    0 <= t < page.len() ==> seen(keys, i as int, (owner@, #[trigger] texts(page@)[t])),
                forall|j: int|
                    0 <= j < i && (#[trigger] keys[j]).0 == owner@ && after_start(start, keys[j].1)
                        ==> texts(page@).contains(keys[j].1),
            decreases self.owner.len() - i,
        {
            let ghost before = texts(page@);
            if str_equal(self.owner[i].0.as_str(), owner) && is_after_start(
                start_after,
                self.owner[i].1.as_str(),
            ) {
                page.push(self.owner[i].1.clone());
                proof {
                    let now = texts(page@);
                    let id = keys[i as int].1;
                    assert(now =~= before.push(id));
                    assert forall|a: int, b: int| 0 <= a < b < now.len() implies str_lt(
                        #[trigger] now[a],
                        #[trigger] now[b],
                    ) by {
                        if b == now.len() - 1 {
                            assert(seen(keys, i as int, (owner@, before[a])));
                            let j = choose|j: int| 0 <= j < i && #[trigger] keys[j] == (owner@, before[a]);
                            assert(pair_order()(keys[j], keys[i as int]));
                            lemma_str_lt_irreflexive(owner@);
                        } else {
                            assert(str_lt(before[a], before[b]));
                        }
                    }
                    assert forall|t: int| 0 <= t < page.len() implies seen(
                        keys,
                        i + 1,
                        (owner@, #[trigger] now[t]),
                    ) by {
                        if t == now.len() - 1 {
                            assert(keys[i as int] == (owner@, now[t]));
                        } else {
                            assert(seen(keys, i as int, (owner@, before[t])));
                            let j = choose|j: int| 0 <= j < i && #[trigger] keys[j] == (owner@, before[t]);
                            assert(keys[j] == (owner@, now[t]));
                        }
                    }
                    assert forall|j: int|
                        0 <= j < i + 1 && (#[trigger] keys[j]).0 == owner@ && after_start(
                            start,
                            keys[j].1,
                        ) implies now.contains(keys[j].1) by {
                        if j == i {
                            assert(now[now.len() - 1] == keys[j].1);
                        } else {
                            assert(before.contains(keys[j].1));
                            let t = before.index_of(keys[j].1);
                            assert(now[t] == keys[j].1);
                        }
                    }
                }
            }
            i += 1;
        }
        proof {
            let now = texts(page@);
            let ids = self.owned_by(owner@);
            assert forall|t: int| 0 <= t < now.len() implies ids.contains(#[trigger] now[t])
                && after_start(start, now[t]) by {
                assert(seen(keys, i as int, (owner@, now[t])));
                let j = choose|j: int| 0 <= j < i && #[trigger] keys[j] == (owner@, now[t]);
                assert(keys.contains(keys[j]));
            }
            assert forall|id: Seq<char>| #[trigger]
                ids.contains(id) && after_start(start, id) && !now.contains(id) implies now.len()
                == limit && forall|t: int| 0 <= t < now.len() ==> str_lt(#[trigger] now[t], id) by {
                assert(keys.contains((owner@, id)));
                let j = keys.index_of((owner@, id));
                assert(j >= i);
                assert forall|t: int| 0 <= t < now.len() implies str_lt(#[trigger] now[t], id) by {
                    assert(seen(keys, i as int, (owner@, now[t])));
                    let j0 = choose|j0: int| 0 <= j0 < i && #[trigger] keys[j0] == (owner@, now[t]);
                    assert(pair_order()(keys[j0], keys[j]));
                    lemma_str_lt_irreflexive(owner@);
                }
            }
        }
        page
    }
}

/// The token table. Records are stored, replaced and removed only through it,
/// so that the owner index always agrees with them.
pub struct TokenTable {
    ids: Vec<String>,
    infos: Vec<NftInfo>,
    indexes: TokenIndexes,
}

impl View for TokenTable {
    type V = TableView;

    closed spec fn view(&self) -> TableView {
        TableView {
            tokens: assoc_map(texts(self.ids@), infos_view(self.infos@)),
            owner_index: self.indexes@,
        }
    }
}

impl TokenTable {
    /// The identifiers in the order in which they are kept.
    pub closed spec fn id_seq(&self) -> Seq<Seq<char>> {
        texts(self.ids@)
    }

    /// The identifiers are in strictly ascending order, each has its record,
    /// and the owner index agrees with the records.
    pub closed spec fn wf(&self) -> bool {
        &&& self.ids.len() == self.infos.len()
        &&& ascending(self.id_seq(), id_order())
        &&& self.indexes.wf()
        &&& self@.wf()
    }

    /// A well-formed table stands for a well-formed view, and its identifiers
    /// are those of the view's records, in strictly ascending order.
    pub proof fn lemma_wf(&self)
        requires
            self.wf(),
        ensures
            self@.wf(),
            strictly_ascending(self.id_seq()),
            self.id_seq().to_set() == self@.tokens.dom(),
            self.id_seq().len() == self@.tokens.dom().len(),
    {
        let s = self.id_seq();
        assert forall|i: int, j: int| 0 <= i < j < s.len() implies str_lt(
            #[trigger] s[i],
            #[trigger] s[j],
        ) by {
            assert(id_order()(s[i], s[j]));
        }
        assert(self@.tokens.dom() =~= s.to_set());
        lemma_id_order_strict();
        lemma_ascending_no_duplicates(s, id_order());
        s.unique_seq_to_set();
    }

    /// A table without records.
    pub fn new() -> (r: Self)
        ensures
            r.wf(),
            r@ == TableView::empty(),
    {
        let r = TokenTable { ids: Vec::new(), infos: Vec::new(), indexes: TokenIndexes::new() };
        proof {
            assert(r@.tokens =~= Map::<Seq<char>, NftInfoView>::empty());
            assert(r@.tokens.dom() =~= Set::<Seq<char>>::empty());
        }
        r
    }

    /// The number of records.
    pub fn len(&self) -> (n: usize)
        requires
            self.wf(),
        ensures
            n == self@.tokens.dom().len(),
    {
        proof {
            self.lemma_wf();
        }
        self.ids.len()
    }

    /// Whether the table holds no record.
    pub fn is_empty(&self) -> (r: bool)
        requires
            self.wf(),
        ensures
            r == (self@.tokens.dom().len() == 0),
            r == (self@ == TableView::empty()),
    {
        proof {
            self.lemma_wf();
            if self.ids.len() == 0 {
                assert(self@.tokens =~= Map::<Seq<char>, NftInfoView>::empty());
                assert(self@.owner_index =~= Set::<IndexKey>::empty()) by {
                    assert forall|k: IndexKey| !self@.owner_index.contains(k) by {
                        assert(self@.owner_index.contains(k) <==> self@.tokens.dom().contains(k.1)
                            && self@.tokens[k.1].owner == k.0);
                    }
                }
            }
        }
        self.ids.len() == 0
    }

    /// Where `id` stands, or where it would be inserted.
    fn find(&self, id: &str) -> (r: (usize, bool))
        requires
            self.wf(),
        ensures
            r.0 <= self.ids.len(),
            r.1 ==> r.0 < self.ids.len() && self.id_seq()[r.0 as int] == id@,
            !r.1 ==> fits_at(self.id_seq(), id_order(), r.0 as int, id@),
            r.1 == self@.tokens.dom().contains(id@),
    {
        let ghost s = self.id_seq();
        let mut i: usize = 0;
        while i < self.ids.len() && str_less(self.ids[i].as_str(), id)
            invariant
                i <= self.ids.len(),
                s == self.id_seq(),
                forall|j: int| 0 <= j < i ==> str_lt(#[trigger] s[j], id@),
            decreases self.ids.len() - i,
        {
            i += 1;
        }
        let found = i < self.ids.len() && str_equal(self.ids[i].as_str(), id);
        proof {
            lemma_id_order_strict();
            self.lemma_wf();
            if found {
                assert(s[i as int] == id@);
                assert(s.contains(id@));
            } else {
                let lt = id_order();
                assert(fits_at(s, lt, i as int, id@)) by {
                    assert forall|j: int| i <= j < s.len() implies lt(id@, #[trigger] s[j]) by {
                        lemma_str_lt_connected(s[i as int], id@);
                        if j > i {
                            assert(lt(s[i as int], s[j]));
                            lemma_str_lt_transitive(id@, s[i as int], s[j]);
                        }
                    }
                    assert forall|j: int| 0 <= j < i implies lt(#[trigger] s[j], id@) by {
                        assert(str_lt(s[j], id@));
                    }
                }
                lemma_fits_not_contained(s, lt, i as int, id@);
            }
        }
        (i, found)
    }

    /// The identifiers of all records, in ascending order.
    pub fn all_keys(&self) -> (r: Vec<String>)
        ensures
            texts(r@) == self.id_seq(),
            self.wf() ==> strictly_ascending(texts(r@)) && texts(r@).to_set()
                == self@.tokens.dom(),
    {
        let mut r: Vec<String> = Vec::new();
        let mut i: usize = 0;
        while i < self.ids.len()
            invariant
                i <= self.ids.len(),
                texts(r@) == self.id_seq().take(i as int),
            decreases self.ids.len() - i,
        {
            let ghost before = texts(r@);
            r.push(self.ids[i].clone());
            proof {
                assert(texts(r@) =~= before.push(self.id_seq()[i as int]));
                assert(self.id_seq().take(i + 1) =~= self.id_seq().take(i as int).push(
                    self.id_seq()[i as int],
                ));
            }
            i += 1;
        }
        proof {
            assert(self.id_seq().take(i as int) =~= self.id_seq());
            if self.wf() {
                self.lemma_wf();
            }
        }
        r
    }

    /// Whether the table holds a record under `id`.
    pub fn has(&self, id: &str) -> (r: bool)
        requires
            self.wf(),
        ensures
            r == self@.contains(id@),
    {
        self.find(id).1
    }

    /// The record under `id`, if there is one.
    pub fn may_load(&self, id: &str) -> (r: Option<&NftInfo>)
        requires
            self.wf(),
        ensures
            match r {
                Some(info) => self@.contains(id@) && info@ == self@.tokens[id@],
                None => !self@.contains(id@),
            },
    {
        let (p, found) = self.find(id);
        if found {
            proof {
                lemma_id_order_strict();
                lemma_ascending_no_duplicates(self.id_seq(), id_order());
                lemma_assoc_at(self.id_seq(), infos_view(self.infos@), p as int);
            }
            Some(&self.infos[p])
        } else {
            None
        }
    }

    /// Stores `info` under `id`. A record that was there is replaced, and
    /// the owner index follows: the entry of the old record leaves, that of
    /// the new one enters.
    pub fn save(&mut self, id: &str, info: NftInfo)
        requires
            old(self).wf(),
        ensures
            final(self).wf(),
            final(self)@ == old(self)@.save(id@, info@),
    {
        let (p, found) = self.find(id);
        let ghost keys = self.id_seq();
        let ghost vals = infos_view(self.infos@);
        let ghost before = self@;
        proof {
            lemma_id_order_strict();
            lemma_ascending_no_duplicates(keys, id_order());
            lemma_save_wf(before, id@, info@);
        }
        let owner = token_owner_idx(id.as_bytes(), &info);
        if found {
            proof {
                lemma_assoc_at(keys, vals, p as int);
                lemma_assoc_update(keys, vals, p as int, info@);
            }
            self.indexes.remove(self.infos[p].owner.as_str(), id);
            self.infos.set(p, info);
            proof {
                assert(infos_view(self.infos@) =~= vals.update(p as int, info@));
            }
        } else {
            proof {
                lemma_insert_ascending(keys, id_order(), p as int, id@);
                lemma_ascending_no_duplicates(keys.insert(p as int, id@), id_order());
                lemma_assoc_insert(keys, vals, p as int, id@, info@);
            }
            self.ids.insert(p, id.to_owned());
            self.infos.insert(p, info);
            proof {
                assert(texts(self.ids@) =~= keys.insert(p as int, id@));
                assert(infos_view(self.infos@) =~= vals.insert(p as int, info@));
            }
        }
        self.indexes.insert(owner, id.to_owned());
        proof {
            assert(self@ =~= before.save(id@, info@));
        }
    }

    /// Removes the record under `id` and its index entry, if there is one.
    pub fn remove(&mut self, id: &str)
        requires
            old(self).wf(),
        ensures
            final(self).wf(),
            final(self)@ == old(self)@.remove(id@),
    {
        let (p, found) = self.find(id);
        let ghost keys = self.id_seq();
        let ghost vals = infos_view(self.infos@);
        let ghost before = self@;
        if found {
            proof {
                lemma_id_order_strict();
                lemma_ascending_no_duplicates(keys, id_order());
                lemma_remove_wf(before, id@);
                lemma_assoc_at(keys, vals, p as int);
                lemma_assoc_remove(keys, vals, p as int);
                lemma_remove_ascending(keys, id_order(), p as int);
            }
            self.indexes.remove(self.infos[p].owner.as_str(), id);
            let _ = self.ids.remove(p);
            let _ = self.infos.remove(p);
            proof {
                assert(texts(self.ids@) =~= keys.remove(p as int));
                assert(infos_view(self.infos@) =~= vals.remove(p as int));
                assert(self@ =~= before.remove(id@));
            }
        }
    }

    /// The page of the identifiers that starts after `start_after` and holds
    /// at most `limit` of them.
    pub fn keys(&self, start_after: &Option<String>, limit: usize) -> (page: Vec<String>)
        requires
            self.wf(),
        ensures
            is_page(
                self@.tokens.dom(),
                crate::state::opt_text(*start_after),
                limit as nat,
                texts(page@),
            ),
    {
        let ghost s = self.id_seq();
        let ghost start = crate::state::opt_text(*start_after);
        let mut page: Vec<String> = Vec::new();
        let mut i: usize = 0;
        proof {
            self.lemma_wf();
        }
        while i < self.ids.len() && page.len() < limit
            invariant
                i <= self.ids.len(),
                page.len() <= limit,
                s == self.id_seq(),
                s.len() == self.ids.len(),
                start == crate::state::opt_text(*start_after),
                strictly_ascending(s),
                strictly_ascending(texts(page@)),
                forall|t: int|
                    0 <= t < page.len() ==> after_start(start, #[trigger] texts(page@)[t]),
                forall|t: int|
                    0 <= t < page.len() ==> seen(s, i as int, #[trigger] texts(page@)[t]),
                forall|j: int|
                    0 <= j < i && after_start(start, #[trigger] s[j]) ==> texts(page@).contains(
                        s[j],
                    ),
            decreases self.ids.len() - i,
        {
            let ghost before = texts(page@);
            if is_after_start(start_after, self.ids[i].as_str()) {
                page.push(self.ids[i].clone());
                proof {
                    let now = texts(page@);
                    let id = s[i as int];
                    assert(now =~= before.push(id));
                    assert forall|a: int, b: int| 0 <= a < b < now.len() implies str_lt(
                        #[trigger] now[a],
                        #[trigger] now[b],
                    ) by {
                        if b == now.len() - 1 {
                            assert(seen(s, i as int, before[a]));
                            let j = choose|j: int| 0 <= j < i && #[trigger] s[j] == before[a];
                            assert(str_lt(s[j], s[i as int]));
                        } else {
                            assert(str_lt(before[a], before[b]));
                        }
                    }
                    assert forall|t: int| 0 <= t < page.len() implies seen(
                        s,
                        i + 1,
                        #[trigger] now[t],
                    ) by {
                        if t == now.len() - 1 {
                            assert(s[i as int] == now[t]);
                        } else {
                            assert(seen(s, i as int, before[t]));
                            let j = choose|j: int| 0 <= j < i && #[trigger] s[j] == before[t];
                            assert(s[j] == now[t]);
                        }
                    }
                    assert forall|j: int|
                        0 <= j < i + 1 && after_start(start, #[trigger] s[j]) implies now.contains(
                        s[j],
                    ) by {
                        if j == i {
                            assert(now[now.len() - 1] == s[j]);
                        } else {
                            assert(before.contains(s[j]));
                            let t = before.index_of(s[j]);
                            assert(now[t] == s[j]);
                        }
                    }
                }
            }
            i += 1;
        }
        proof {
            let now = texts(page@);
            let ids = self@.tokens.dom();
            assert forall|t: int| 0 <= t < now.len() implies ids.contains(#[trigger] now[t])
                && after_start(start, now[t]) by {
                assert(seen(s, i as int, now[t]));
                let j = choose|j: int| 0 <= j < i && #[trigger] s[j] == now[t];
                assert(s.contains(s[j]));
            }
            assert forall|id: Seq<char>| #[trigger]
                ids.contains(id) && after_start(start, id) && !now.contains(id) implies now.len()
                == limit && forall|t: int| 0 <= t < now.len() ==> str_lt(#[trigger] now[t], id) by {
                assert(s.contains(id));
                let j = s.index_of(id);
                assert(j >= i);
                assert forall|t: int| 0 <= t < now.len() implies str_lt(#[trigger] now[t], id) by {
                    assert(seen(s, i as int, now[t]));
                    let j0 = choose|j0: int| 0 <= j0 < i && #[trigger] s[j0] == now[t];
                    assert(str_lt(s[j0], s[j]));
                }
            }
        }
        page
    }

    /// The page of the identifiers that the owner index files under `owner`
    /// that starts after `start_after` and holds at most `limit` of them.
    pub fn keys_by_owner(&self, owner: &str, start_after: &Option<String>, limit: usize) -> (page:
        Vec<String>)
        requires
            self.wf(),
        ensures
            is_page(
                self@.owned_by(owner@),
                crate::state::opt_text(*start_after),
                limit as nat,
                texts(page@),
            ),
    {
        let page = self.indexes.ids_of(owner, start_after, limit);
        proof {
            assert(self@.owned_by(owner@) =~= self.indexes.owned_by(owner@));
        }
        page
    }
}

} // verus!
