//! Ordered collections keyed by text: a set of identifiers and a map from identifiers to records.
use vstd::prelude::*;

use crate::order::{comes_before, same_text};

verus! {

/// The keys stand in strictly increasing code point order.
pub open spec fn increasing(keys: Seq<Seq<char>>) -> bool {
    forall|i: int, j: int|
        0 <= i < j < keys.len() ==> crate::order::lex_lt(#[trigger] keys[i], #[trigger] keys[j])
}

/// `keys` lists each member of `set` once, in increasing code point order.
pub open spec fn lists(keys: Seq<Seq<char>>, set: Set<Seq<char>>) -> bool {
    &&& increasing(keys)
    &&& forall|k: Seq<char>| #[trigger] set.contains(k) <==> keys.contains(k)
}

/// The increasing listing of `set`.
pub open spec fn sorted(set: Set<Seq<char>>) -> Seq<Seq<char>> {
    choose|keys: Seq<Seq<char>>| lists(keys, set)
}

/// The part of `map` whose entries meet `keep`.
pub open spec fn kept<V>(map: Map<Seq<char>, V>, keep: spec_fn(Seq<char>, V) -> bool) -> Map<
    Seq<char>,
    V,
> {
    Map::new(|k: Seq<char>| map.contains_key(k) && keep(k, map[k]), |k: Seq<char>| map[k])
}

/// A value that can be copied without a change of what it stands for.
pub trait Dup: View + Sized {
    /// A copy with the same view.
    fn dup(&self) -> (copy: Self)
        ensures
            copy@ == self@,
    ;
}

/// The views of the values in `s`, in order.
pub open spec fn views<T: View>(s: Seq<T>) -> Seq<T::V> {
    s.map_values(|t: T| t@)
}

/// The view of the value in `o`.
pub open spec fn opt_view<T: View>(o: Option<T>) -> Option<T::V> {
    match o {
        Some(t) => Some(t@),
        None => None,
    }
}

/// What a result stands for whose error is a text.
pub open spec fn outcome<T: View>(result: Result<T, String>) -> Result<T::V, Seq<char>> {
    match result {
        Ok(t) => Ok(t@),
        Err(e) => Err(e@),
    }
}

/// A copy of an optional text.
pub fn dup_text(o: &Option<String>) -> (copy: Option<String>)
    ensures
        copy == *o,
{
    match o {
        Some(t) => Some(t.clone()),
        None => None,
    }
}

/// A copy of the values in `items`.
pub fn dup_all<T: Dup>(items: &Vec<T>) -> (copy: Vec<T>)
    ensures
        views(copy@) == views(items@),
{
    let mut copy: Vec<T> = Vec::new();
    let mut i: usize = 0;
    while i < items.len()
        invariant
            i <= items.len(),
            views(copy@) =~= views(items@).take(i as int),
        decreases items.len() - i,
    {
        let ghost before = views(copy@);
        let item = items[i].dup();
        copy.push(item);
        assert(views(copy@) =~= before.push(item@));
        i += 1;
    }
    assert(views(items@).take(items@.len() as int) =~= views(items@));
    copy
}

impl Dup for String {
    fn dup(&self) -> (copy: Self) {
        self.clone()
    }
}

/// Increasing keys are distinct.
pub proof fn lemma_increasing_distinct(keys: Seq<Seq<char>>)
    requires
        increasing(keys),
    ensures
        keys.no_duplicates(),
{
    assert forall|i: int, j: int| 0 <= i < keys.len() && 0 <= j < keys.len() && i != j implies keys[i]
        != keys[j] by {
        crate::order::lemma_lex_irreflexive(keys[i]);
        if i < j {
            assert(crate::order::lex_lt(keys[i], keys[j]));
        } else {
            assert(crate::order::lex_lt(keys[j], keys[i]));
        }
    }
}

/// A set has at most one increasing listing.
pub proof fn lemma_listing_unique(a: Seq<Seq<char>>, b: Seq<Seq<char>>, set: Set<Seq<char>>)
    requires
        lists(a, set),
        lists(b, set),
    ensures
        a == b,
    decreases a.len(),
{
    lemma_increasing_distinct(a);
    lemma_increasing_distinct(b);
    if a.len() == 0 {
        if b.len() > 0 {
            assert(b.contains(b[0]));
            assert(set.contains(b[0]));
            assert(a.contains(b[0]));
        }
        assert(a =~= b);
    } else {
        assert(a.contains(a[0]));
        assert(set.contains(a[0]));
        assert(b.contains(a[0]));
        assert(b.contains(b[0]));
        assert(set.contains(b[0]));
        assert(a.contains(b[0]));
        let i = b.index_of(a[0]);
        let j = a.index_of(b[0]);
        if i > 0 {
            assert(crate::order::lex_lt(b[0], b[i]));
            if j > 0 {
                assert(crate::order::lex_lt(a[0], a[j]));
                crate::order::lemma_lex_transitive(a[0], b[0], a[0]);
            }
            crate::order::lemma_lex_irreflexive(a[0]);
        }
        assert(a[0] == b[0]);
        let rest = set.remove(a[0]);
        assert forall|k: Seq<char>| #[trigger] rest.contains(k) implies a.drop_first().contains(k)
            && b.drop_first().contains(k) by {
            let p = a.index_of(k);
            let q = b.index_of(k);
            assert(set.contains(k));
            assert(a.contains(k) && b.contains(k));
            assert(a.drop_first()[p - 1] == k);
            assert(b.drop_first()[q - 1] == k);
        }
        assert forall|k: Seq<char>| a.drop_first().contains(k) implies #[trigger] rest.contains(k) by {
            let p = a.drop_first().index_of(k);
            assert(a[p + 1] == k);
            assert(a.contains(k));
        }
        assert forall|k: Seq<char>| b.drop_first().contains(k) implies #[trigger] rest.contains(k) by {
            let p = b.drop_first().index_of(k);
            assert(b[p + 1] == k);
            assert(b.contains(k));
        }
        lemma_listing_unique(a.drop_first(), b.drop_first(), rest);
        assert(a =~= seq![a[0]] + a.drop_first());
        assert(b =~= seq![b[0]] + b.drop_first());
    }
}

/// Any increasing listing of a set is the one that [`sorted`] names.
pub proof fn lemma_sorted(keys: Seq<Seq<char>>, set: Set<Seq<char>>)
    requires
        lists(keys, set),
    ensures
        keys == sorted(set),
        lists(sorted(set), set),
{
    lemma_listing_unique(keys, sorted(set), set);
}

/// The first position whose key does not come before `key`.
fn lower_bound(keys: &Vec<String>, key: &str) -> (at: usize)
    requires
        increasing(keys.deep_view()),
    ensures
        at <= keys@.len(),
        forall|j: int| 0 <= j < at ==> crate::order::lex_lt(#[trigger] keys.deep_view()[j], key@),
        forall|j: int|
            at < j < keys@.len() ==> crate::order::lex_lt(key@, #[trigger] keys.deep_view()[j]),
        at < keys@.len() ==> keys.deep_view()[at as int] == key@ || crate::order::lex_lt(
            key@,
            keys.deep_view()[at as int],
        ),
        keys.deep_view().contains(key@) <==> (at < keys@.len() && keys.deep_view()[at as int]
            == key@),
{
    let mut at: usize = 0;
    let ghost ks = keys.deep_view();
    while at < keys.len() && comes_before(keys[at].as_str(), key)
        invariant
            at <= keys@.len(),
            ks == keys.deep_view(),
            increasing(ks),
            forall|j: int| 0 <= j < at ==> crate::order::lex_lt(#[trigger] ks[j], key@),
        decreases keys.len() - at,
    {
        assert(ks[at as int] == keys@[at as int]@);
        at += 1;
    }
    proof {
        if at < keys@.len() {
            assert(ks[at as int] == keys@[at as int]@);
            crate::order::lemma_lex_total(ks[at as int], key@);
            assert forall|j: int| at < j < ks.len() implies crate::order::lex_lt(
                key@,
                #[trigger] ks[j],
            ) by {
                assert(crate::order::lex_lt(ks[at as int], ks[j]));
                if ks[at as int] != key@ {
                    crate::order::lemma_lex_transitive(key@, ks[at as int], ks[j]);
                }
            }
        }
        if ks.contains(key@) {
            let p = ks.index_of(key@);
            crate::order::lemma_lex_irreflexive(key@);
            assert(p >= at);
            if p > at {
                assert(crate::order::lex_lt(key@, ks[p]));
            }
        }
    }
    at
}

proof fn lemma_insert_increasing(keys: Seq<Seq<char>>, at: int, key: Seq<char>)
    requires
        increasing(keys),
        0 <= at <= keys.len(),
        forall|j: int| 0 <= j < at ==> crate::order::lex_lt(#[trigger] keys[j], key),
        forall|j: int| at <= j < keys.len() ==> crate::order::lex_lt(key, #[trigger] keys[j]),
    ensures
        increasing(keys.insert(at, key)),
        forall|k: Seq<char>| #[trigger]
            keys.insert(at, key).contains(k) <==> k == key || keys.contains(k),
{
    let out = keys.insert(at, key);
    assert forall|i: int, j: int| 0 <= i < j < out.len() implies crate::order::lex_lt(
        #[trigger] out[i],
        #[trigger] out[j],
    ) by {
        let a = if i < at { i } else { i - 1 };
        let b = if j < at { j } else { j - 1 };
        if i != at && j != at {
            assert(crate::order::lex_lt(keys[a], keys[b]));
        } else if i == at {
            assert(crate::order::lex_lt(key, keys[b]));
        } else {
            assert(crate::order::lex_lt(keys[a], key));
        }
    }
    assert forall|k: Seq<char>| #[trigger] out.contains(k) <==> k == key || keys.contains(k) by {
        if out.contains(k) && k != key {
            let p = out.index_of(k);
            let q = if p < at { p } else { p - 1 };
            assert(keys[q] == k);
        }
        if keys.contains(k) {
            let p = keys.index_of(k);
            let q = if p < at { p } else { p + 1 };
            assert(out[q] == k);
        }
        assert(out[at] == key);
    }
}

proof fn lemma_remove_increasing(keys: Seq<Seq<char>>, at: int)
    requires
        increasing(keys),
        0 <= at < keys.len(),
    ensures
        increasing(keys.remove(at)),
        forall|k: Seq<char>| #[trigger]
            keys.remove(at).contains(k) <==> k != keys[at] && keys.contains(k),
{
    let out = keys.remove(at);
    lemma_increasing_distinct(keys);
    assert forall|i: int, j: int| 0 <= i < j < out.len() implies crate::order::lex_lt(
        #[trigger] out[i],
        #[trigger] out[j],
    ) by {
        let a = if i < at { i } else { i + 1 };
        let b = if j < at { j } else { j + 1 };
        assert(crate::order::lex_lt(keys[a], keys[b]));
    }
    assert forall|k: Seq<char>| #[trigger] out.contains(k) <==> k != keys[at] && keys.contains(k) by {
        if out.contains(k) {
            let p = out.index_of(k);
            let q = if p < at { p } else { p + 1 };
            assert(keys[q] == k);
        }
        if keys.contains(k) && k != keys[at] {
            let p = keys.index_of(k);
            let q = if p < at { p } else { p - 1 };
            assert(out[q] == k);
        }
    }
}

proof fn lemma_place(keys: Seq<Seq<char>>, key: Seq<char>) -> (at: int)
    requires
        increasing(keys),
        !keys.contains(key),
    ensures
        0 <= at <= keys.len(),
        forall|j: int| 0 <= j < at ==> crate::order::lex_lt(#[trigger] keys[j], key),
        forall|j: int| at <= j < keys.len() ==> crate::order::lex_lt(key, #[trigger] keys[j]),
    decreases keys.len(),
{
    if keys.len() == 0 {
        0
    } else {
        let last = keys.len() - 1;
        crate::order::lemma_lex_total(keys[last], key);
        assert(keys.contains(keys[last]));
        if crate::order::lex_lt(keys[last], key) {
            assert forall|j: int| 0 <= j < keys.len() implies crate::order::lex_lt(
                #[trigger] keys[j],
                key,
            ) by {
                if j < last {
                    assert(crate::order::lex_lt(keys[j], keys[last]));
                    crate::order::lemma_lex_transitive(keys[j], keys[last], key);
                }
            }
            keys.len() as int
        } else {
            let rest = keys.drop_last();
            assert(!rest.contains(key)) by {
                if rest.contains(key) {
                    assert(keys[rest.index_of(key)] == key);
                }
            }
            assert forall|i: int, j: int| 0 <= i < j < rest.len() implies crate::order::lex_lt(
                #[trigger] rest[i],
                #[trigger] rest[j],
            ) by {
                assert(crate::order::lex_lt(keys[i], keys[j]));
            }
            let at = lemma_place(rest, key);
            assert forall|j: int| 0 <= j < at implies crate::order::lex_lt(#[trigger] keys[j], key) by {
                assert(crate::order::lex_lt(rest[j], key));
            }
            assert forall|j: int| at <= j < keys.len() implies crate::order::lex_lt(
                key,
                #[trigger] keys[j],
            ) by {
                if j < last {
                    assert(crate::order::lex_lt(key, rest[j]));
                }
            }
            at
        }
    }
}

/// A finite set has an increasing listing.
pub proof fn lemma_finite_sorted(set: Set<Seq<char>>)
    requires
        set.finite(),
    ensures
        lists(sorted(set), set),
    decreases set.len(),
{
    if set.len() == 0 {
        let keys = Seq::<Seq<char>>::empty();
        assert(set =~= Set::<Seq<char>>::empty());
        assert(lists(keys, set));
    } else {
        let key = set.choose();
        let rest = set.remove(key);
        lemma_finite_sorted(rest);
        let keys = sorted(rest);
        assert(!keys.contains(key)) by {
            assert(!rest.contains(key));
        }
        let at = lemma_place(keys, key);
        lemma_insert_increasing(keys, at, key);
        assert(lists(keys.insert(at, key), set)) by {
            assert forall|k: Seq<char>| #[trigger] set.contains(k) <==> keys.insert(at, key).contains(
                k,
            ) by {
                assert(rest.contains(k) <==> keys.contains(k));
            }
        }
    }
}

/// The members of a finite set are those of its listing.
pub proof fn lemma_sorted_to_set(set: Set<Seq<char>>)
    requires
        set.finite(),
    ensures
        sorted(set).to_set() == set,
{
    lemma_finite_sorted(set);
    assert(sorted(set).to_set() =~= set);
}

/// A set of identifiers.
pub struct IdSet {
    ids: Vec<String>,
}

impl View for IdSet {
    type V = Set<Seq<char>>;

    closed spec fn view(&self) -> Set<Seq<char>> {
        self.ids.deep_view().to_set()
    }
}

impl Dup for IdSet {
    fn dup(&self) -> (copy: Self) {
        proof {
            use_type_invariant(self);
        }
        IdSet { ids: self.ids.clone() }
    }
}

impl IdSet {
    #[verifier::type_invariant]
    spec fn inv(self) -> bool {
        increasing(self.ids.deep_view())
    }

    /// The empty set.
    pub fn new() -> (set: Self)
        ensures
            set@ == Set::<Seq<char>>::empty(),
    {
        let set = IdSet { ids: Vec::new() };
        assert(set@ =~= Set::<Seq<char>>::empty());
        set
    }

    /// The set of the identifiers in `ids`; repetitions count once.
    pub fn from_vec(ids: Vec<String>) -> (set: Self)
        ensures
            set@ == ids.deep_view().to_set(),
    {
        let mut set = IdSet::new();
        let mut i: usize = 0;
        while i < ids.len()
            invariant
                i <= ids.len(),
                set@ == ids.deep_view().take(i as int).to_set(),
            decreases ids.len() - i,
        {
            let ghost before = set@;
            set.insert(ids[i].clone());
            proof {
                let all = ids.deep_view();
                assert(all.take(i + 1) =~= all.take(i as int).push(ids@[i as int]@));
                assert(all.take(i + 1).to_set() =~= before.insert(ids@[i as int]@)) by {
                    assert forall|k: Seq<char>| all.take(i + 1).to_set().contains(k)
                        <==> before.insert(ids@[i as int]@).contains(k) by {
                        if before.contains(k) {
                            let p = all.take(i as int).index_of(k);
                            assert(all.take(i + 1)[p] == k);
                        }
                        assert(all.take(i + 1)[i as int] == ids@[i as int]@);
                    }
                }
            }
            i += 1;
        }
        assert(ids.deep_view().take(ids@.len() as int) =~= ids.deep_view());
        set
    }

    /// How many identifiers the set holds.
    pub fn len(&self) -> (n: usize)
        ensures
            self@.finite(),
            n == self@.len(),
    {
        proof {
            use_type_invariant(self);
            lemma_increasing_distinct(self.ids.deep_view());
            self.ids.deep_view().unique_seq_to_set();
        }
        self.ids.len()
    }

    /// Whether the set holds nothing.
    pub fn is_empty(&self) -> (empty: bool)
        ensures
            empty == (self@ == Set::<Seq<char>>::empty()),
    {
        proof {
            if self.ids@.len() == 0 {
                assert(self@ =~= Set::<Seq<char>>::empty());
            } else {
                assert(self.ids.deep_view().contains(self.ids.deep_view()[0]));
                assert(self@.contains(self.ids.deep_view()[0]));
            }
        }
        self.ids.len() == 0
    }

    /// Whether the set holds `id`.
    pub fn contains(&self, id: &str) -> (held: bool)
        ensures
            held == self@.contains(id@),
    {
        proof {
            use_type_invariant(self);
        }
        let at: usize = lower_bound(&self.ids, id);
        at < self.ids.len() && same_text(self.ids[at].as_str(), id)
    }

    /// Adds `id`.
    pub fn insert(&mut self, id: String)
        ensures
            final(self)@ == old(self)@.insert(id@),
    {
        proof {
            use_type_invariant(&*self);
        }
        let ghost before = self.ids.deep_view();
        let mut ids: Vec<String> = Vec::new();
        std::mem::swap(&mut ids, &mut self.ids);
        let at: usize = lower_bound(&ids, id.as_str());
        let ghost key = id@;
        if at < ids.len() && same_text(ids[at].as_str(), id.as_str()) {
            self.ids = ids;
            proof {
                assert(before.contains(key));
                assert(self@ =~= old(self)@.insert(key));
            }
        } else {
            ids.insert(at, id);
            proof {
                lemma_insert_increasing(before, at as int, key);
                assert(ids.deep_view() =~= before.insert(at as int, key));
            }
            self.ids = ids;
            assert(self@ =~= old(self)@.insert(key));
        }
    }

    /// Takes `id` out.
    pub fn remove(&mut self, id: &str)
        ensures
            final(self)@ == old(self)@.remove(id@),
    {
        proof {
            use_type_invariant(&*self);
        }
        let ghost before = self.ids.deep_view();
        let mut ids: Vec<String> = Vec::new();
        std::mem::swap(&mut ids, &mut self.ids);
        let at: usize = lower_bound(&ids, id);
        if at < ids.len() && same_text(ids[at].as_str(), id) {
            ids.remove(at);
            proof {
                lemma_remove_increasing(before, at as int);
                assert(ids.deep_view() =~= before.remove(at as int));
            }
        }
        self.ids = ids;
        assert(self@ =~= old(self)@.remove(id@));
    }

    /// The identifiers in increasing code point order.
    pub fn to_sorted_vec(&self) -> (ids: Vec<String>)
        ensures
            ids.deep_view() == sorted(self@),
            lists(ids.deep_view(), self@),
    {
        proof {
            use_type_invariant(self);
            lemma_sorted(self.ids.deep_view(), self@);
        }
        self.ids.clone()
    }

    /// The identifiers of the set that meet `keep`, whose meaning is `meaning`.
    pub(crate) fn filter<F: Fn(&str) -> bool>(
        &self,
        keep: F,
        Ghost(meaning): Ghost<spec_fn(Seq<char>) -> bool>,
    ) -> (set: Self)
        requires
            forall|k: &str| #[trigger] call_requires(keep, (k,)),
            forall|k: &str, r: bool| #[trigger] call_ensures(keep, (k,), r) ==> r == meaning(k@),
        ensures
            set@ == self@.filter(meaning),
    {
        let ids = self.to_sorted_vec();
        let mut set = IdSet::new();
        let mut i: usize = 0;
        while i < ids.len()
            invariant
                i <= ids.len(),
                forall|k: &str| #[trigger] call_requires(keep, (k,)),
                forall|k: &str, r: bool| #[trigger] call_ensures(keep, (k,), r) ==> r == meaning(k@),
                forall|k: Seq<char>| #[trigger]
                    set@.contains(k) <==> ids.deep_view().take(i as int).contains(k) && meaning(k),
            decreases ids.len() - i,
        {
            let ghost before = set@;
            let kept = keep(ids[i].as_str());
            if kept {
                set.insert(ids[i].clone());
            }
            proof {
                let all = ids.deep_view();
                assert(all.take(i + 1) =~= all.take(i as int).push(ids@[i as int]@));
                assert forall|k: Seq<char>| #[trigger] set@.contains(k) <==> all.take(i + 1).contains(k)
                    && meaning(k) by {
                    if all.take(i as int).contains(k) {
                        let p = all.take(i as int).index_of(k);
                        assert(all.take(i + 1)[p] == k);
                    }
                    assert(all.take(i + 1)[i as int] == ids@[i as int]@);
                    assert(before.contains(k) <==> all.take(i as int).contains(k) && meaning(k));
                }
            }
            i += 1;
        }
        assert(ids.deep_view().take(ids@.len() as int) =~= ids.deep_view());
        assert(set@ =~= self@.filter(meaning));
        set
    }

    /// The identifiers that are in `self`, in `other` or in both.
    pub fn union(&self, other: &IdSet) -> (set: Self)
        ensures
            set@ == self@.union(other@),
    {
        let ids = other.to_sorted_vec();
        let mut set = self.dup();
        let mut i: usize = 0;
        while i < ids.len()
            invariant
                i <= ids.len(),
                forall|k: Seq<char>| #[trigger]
                    set@.contains(k) <==> self@.contains(k) || ids.deep_view().take(
                        i as int,
                    ).contains(k),
            decreases ids.len() - i,
        {
            let ghost before = set@;
            set.insert(ids[i].clone());
            proof {
                let all = ids.deep_view();
                assert(all.take(i + 1) =~= all.take(i as int).push(ids@[i as int]@));
                assert forall|k: Seq<char>| #[trigger] set@.contains(k) <==> self@.contains(k)
                    || all.take(i + 1).contains(k) by {
                    if all.take(i as int).contains(k) {
                        let p = all.take(i as int).index_of(k);
                        assert(all.take(i + 1)[p] == k);
                    }
                    assert(all.take(i + 1)[i as int] == ids@[i as int]@);
                    assert(before.contains(k) <==> self@.contains(k) || all.take(
                        i as int,
                    ).contains(k));
                }
            }
            i += 1;
        }
        assert(ids.deep_view().take(ids@.len() as int) =~= ids.deep_view());
        assert(set@ =~= self@.union(other@));
        set
    }
}

/// A map from identifiers to records, ordered by identifier.
pub struct Table<V> {
    keys: Vec<String>,
    values: Vec<V>,
}

impl<V: View> View for Table<V> {
    type V = Map<Seq<char>, V::V>;

    closed spec fn view(&self) -> Map<Seq<char>, V::V> {
        Map::new(
            |k: Seq<char>| self.keys.deep_view().contains(k),
            |k: Seq<char>| self.values@[self.keys.deep_view().index_of(k)]@,
        )
    }
}

impl<V> Table<V> {
    #[verifier::type_invariant]
    spec fn inv(self) -> bool {
        &&& increasing(self.keys.deep_view())
        &&& self.keys@.len() == self.values@.len()
    }
}

impl<V: View> Table<V> {
    /// The keys in increasing order.
    pub closed spec fn key_list(&self) -> Seq<Seq<char>> {
        self.keys.deep_view()
    }

    /// The empty table.
    pub fn new() -> (table: Self)
        ensures
            table@ == Map::<Seq<char>, V::V>::empty(),
    {
        let table = Table { keys: Vec::new(), values: Vec::new() };
        assert(table@ =~= Map::<Seq<char>, V::V>::empty());
        table
    }

    /// How many records the table holds.
    pub fn len(&self) -> (n: usize)
        ensures
            self@.dom().finite(),
            n == self@.dom().len(),
            n == self.key_list().len(),
            self.key_list() == sorted(self@.dom()),
            lists(self.key_list(), self@.dom()),
    {
        proof {
            use_type_invariant(self);
            lemma_increasing_distinct(self.keys.deep_view());
            self.keys.deep_view().unique_seq_to_set();
            assert(self@.dom() =~= self.keys.deep_view().to_set());
            lemma_sorted(self.keys.deep_view(), self@.dom());
        }
        self.keys.len()
    }

    /// Whether the table holds no record.
    pub fn is_empty(&self) -> (empty: bool)
        ensures
            empty == (self@ == Map::<Seq<char>, V::V>::empty()),
    {
        proof {
            if self.keys@.len() == 0 {
                assert(self@ =~= Map::<Seq<char>, V::V>::empty());
            } else {
                assert(self.keys.deep_view().contains(self.keys.deep_view()[0]));
                assert(self@.dom().contains(self.keys.deep_view()[0]));
            }
        }
        self.keys.len() == 0
    }

    /// The key at position `i` of the increasing order.
    pub fn key_at(&self, i: usize) -> (key: &str)
        requires
            i < self.key_list().len(),
        ensures
            key@ == self.key_list()[i as int],
            self@.contains_key(key@),
    {
        assert(self.keys.deep_view()[i as int] == self.keys@[i as int]@);
        self.keys[i].as_str()
    }

    /// The record at position `i` of the increasing key order.
    pub fn value_at(&self, i: usize) -> (value: &V)
        requires
            i < self.key_list().len(),
        ensures
            value@ == self@[self.key_list()[i as int]],
            self@.contains_key(self.key_list()[i as int]),
    {
        proof {
            use_type_invariant(self);
            lemma_increasing_distinct(self.keys.deep_view());
        }
        &self.values[i]
    }

    /// Whether `key` has a record.
    pub fn contains_key(&self, key: &str) -> (held: bool)
        ensures
            held == self@.contains_key(key@),
    {
        proof {
            use_type_invariant(self);
        }
        let at: usize = lower_bound(&self.keys, key);
        at < self.keys.len() && same_text(self.keys[at].as_str(), key)
    }

    /// The record of `key`.
    pub fn get(&self, key: &str) -> (value: Option<&V>)
        ensures
            value is Some <==> self@.contains_key(key@),
            value matches Some(v) ==> v@ == self@[key@],
    {
        proof {
            use_type_invariant(self);
            lemma_increasing_distinct(self.keys.deep_view());
        }
        let at: usize = lower_bound(&self.keys, key);
        if at < self.keys.len() && same_text(self.keys[at].as_str(), key) {
            Some(&self.values[at])
        } else {
            None
        }
    }

    /// Gives `key` the record `value`, in place of the one it had.
    pub fn insert(&mut self, key: String, value: V)
        ensures
            final(self)@ == old(self)@.insert(key@, value@),
    {
        proof {
            use_type_invariant(&*self);
            lemma_increasing_distinct(self.keys.deep_view());
        }
        let ghost before = self.keys.deep_view();
        let mut next: Table<V> = Table { keys: Vec::new(), values: Vec::new() };
        std::mem::swap(&mut next, self);
        let Table { keys, values } = next;
        let mut keys = keys;
        let mut values = values;
        let ghost k0 = key@;
        let ghost vals = values@;
        let at: usize = lower_bound(&keys, key.as_str());
        if at < keys.len() && same_text(keys[at].as_str(), key.as_str()) {
            values.set(at, value);
            *self = Table { keys, values };
            proof {
                assert(self@.dom() =~= old(self)@.insert(k0, value@).dom());
                assert(self@ =~= old(self)@.insert(k0, value@));
            }
        } else {
            keys.insert(at, key);
            values.insert(at, value);
            proof {
                lemma_insert_increasing(before, at as int, k0);
                assert(keys.deep_view() =~= before.insert(at as int, k0));
                lemma_increasing_distinct(keys.deep_view());
            }
            *self = Table { keys, values };
            proof {
                let after = self.keys.deep_view();
                let want = old(self)@.insert(k0, value@);
                assert(self@.dom() =~= want.dom());
                assert forall|k: Seq<char>| self@.contains_key(k) implies self@[k] == want[k] by {
                    if k == k0 {
                        assert(after[at as int] == k0);
                        assert(after.index_of(k0) == at);
                    } else {
                        let p = before.index_of(k);
                        assert(before.contains(k));
                        let q = if p < at { p } else { p + 1 };
                        assert(after[q] == k);
                        assert(after.index_of(k) == q);
                    }
                }
                assert(self@ =~= want);
            }
        }
    }

    /// Takes the record of `key` out.
    pub fn remove(&mut self, key: &str) -> (value: Option<V>)
        ensures
            final(self)@ == old(self)@.remove(key@),
            value is Some <==> old(self)@.contains_key(key@),
            value matches Some(v) ==> v@ == old(self)@[key@],
    {
        proof {
            use_type_invariant(&*self);
            lemma_increasing_distinct(self.keys.deep_view());
        }
        let ghost before = self.keys.deep_view();
        let mut next: Table<V> = Table { keys: Vec::new(), values: Vec::new() };
        std::mem::swap(&mut next, self);
        let Table { keys, values } = next;
        let mut keys = keys;
        let mut values = values;
        let at: usize = lower_bound(&keys, key);
        if at < keys.len() && same_text(keys[at].as_str(), key) {
            keys.remove(at);
            let value = values.remove(at);
            proof {
                lemma_remove_increasing(before, at as int);
                assert(keys.deep_view() =~= before.remove(at as int));
                lemma_increasing_distinct(keys.deep_view());
            }
            *self = Table { keys, values };
            proof {
                let after = self.keys.deep_view();
                let want = old(self)@.remove(key@);
                assert(self@.dom() =~= want.dom());
                assert forall|k: Seq<char>| self@.contains_key(k) implies self@[k] == want[k] by {
                    let p = before.index_of(k);
                    assert(before.contains(k));
                    let q = if p < at { p } else { p - 1 };
                    assert(after[q] == k);
                    assert(after.index_of(k) == q);
                }
                assert(self@ =~= want);
            }
            Some(value)
        } else {
            *self = Table { keys, values };
            assert(self@ =~= old(self)@.remove(key@));
            None
        }
    }

    /// The keys whose record meets `test`, whose meaning is `meaning`.
    pub(crate) fn keys_where<F: Fn(&str, &V) -> bool>(
        &self,
        test: F,
        Ghost(meaning): Ghost<spec_fn(Seq<char>, V::V) -> bool>,
    ) -> (keys: IdSet)
        requires
            forall|k: &str, v: &V| #[trigger] call_requires(test, (k, v)),
            forall|k: &str, v: &V, r: bool| #[trigger]
                call_ensures(test, (k, v), r) ==> r == meaning(k@, v@),
        ensures
            forall|k: Seq<char>| #[trigger]
                keys@.contains(k) <==> self@.contains_key(k) && meaning(k, self@[k]),
    {
        let n: usize = self.len();
        let mut keys = IdSet::new();
        let mut i: usize = 0;
        while i < n
            invariant
                i <= n,
                n == self.key_list().len(),
                lists(self.key_list(), self@.dom()),
                forall|k: &str, v: &V| #[trigger] call_requires(test, (k, v)),
                forall|k: &str, v: &V, r: bool| #[trigger]
                    call_ensures(test, (k, v), r) ==> r == meaning(k@, v@),
                forall|k: Seq<char>| #[trigger]
                    keys@.contains(k) <==> self.key_list().take(i as int).contains(k) && meaning(
                        k,
                        self@[k],
                    ),
            decreases n - i,
        {
            let ghost before = keys@;
            let key = self.key_at(i);
            if test(key, self.value_at(i)) {
                keys.insert(key.to_owned());
            }
            proof {
                let all = self.key_list();
                assert(all.take(i + 1) =~= all.take(i as int).push(key@));
                assert forall|k: Seq<char>| #[trigger] keys@.contains(k) <==> all.take(i + 1).contains(
                    k,
                ) && meaning(k, self@[k]) by {
                    if all.take(i as int).contains(k) {
                        let p = all.take(i as int).index_of(k);
                        assert(all.take(i + 1)[p] == k);
                    }
                    assert(all.take(i + 1)[i as int] == key@);
                    assert(before.contains(k) <==> all.take(i as int).contains(k) && meaning(
                        k,
                        self@[k],
                    ));
                }
            }
            i += 1;
        }
        assert(self.key_list().take(n as int) =~= self.key_list());
        assert forall|k: Seq<char>| #[trigger] keys@.contains(k) <==> self@.contains_key(k) && meaning(
            k,
            self@[k],
        ) by {
            assert(self@.dom().contains(k) <==> self.key_list().contains(k));
        }
        keys
    }

    /// Whether some record meets `test`, whose meaning is `meaning`.
    pub(crate) fn any<F: Fn(&str, &V) -> bool>(
        &self,
        test: F,
        Ghost(meaning): Ghost<spec_fn(Seq<char>, V::V) -> bool>,
    ) -> (found: bool)
        requires
            forall|k: &str, v: &V| #[trigger] call_requires(test, (k, v)),
            forall|k: &str, v: &V, r: bool| #[trigger]
                call_ensures(test, (k, v), r) ==> r == meaning(k@, v@),
        ensures
            found <==> exists|k: Seq<char>| #[trigger] self@.contains_key(k) && meaning(k, self@[k]),
    {
        let keys = self.keys_where(test, Ghost(meaning));
        let none = keys.is_empty();
        proof {
            if none {
                assert forall|k: Seq<char>| #[trigger] self@.contains_key(k) implies !meaning(
                    k,
                    self@[k],
                ) by {
                    assert(!keys@.contains(k));
                }
            } else {
                assert(exists|k: Seq<char>| keys@.contains(k)) by {
                    if forall|k: Seq<char>| !keys@.contains(k) {
                        assert(keys@ =~= Set::<Seq<char>>::empty());
                    }
                }
                let k = choose|k: Seq<char>| keys@.contains(k);
                assert(self@.contains_key(k));
            }
        }
        !none
    }

    /// Gives every record the value that `change`, whose meaning is `meaning`, makes of it.
    pub(crate) fn update_all<F: Fn(&str, V) -> V>(
        &mut self,
        change: F,
        Ghost(meaning): Ghost<spec_fn(Seq<char>, V::V) -> V::V>,
    )
        requires
            forall|k: &str, v: V| #[trigger] call_requires(change, (k, v)),
            forall|k: &str, v: V, r: V| #[trigger]
                call_ensures(change, (k, v), r) ==> r@ == meaning(k@, v@),
        ensures
            final(self)@ == old(self)@.map_entries(meaning),
    {
        proof {
            use_type_invariant(&*self);
            lemma_increasing_distinct(self.keys.deep_view());
        }
        let mut next: Table<V> = Table { keys: Vec::new(), values: Vec::new() };
        std::mem::swap(&mut next, self);
        let Table { keys, values } = next;
        let mut values = values;
        let mut out: Vec<V> = Vec::new();
        let ghost vals = values@;
        let n: usize = keys.len();
        let mut i: usize = 0;
        while i < n
            invariant
                i <= n,
                n == keys@.len(),
                vals.len() == n,
                values@ == vals.take(n - i),
                out@.len() == i,
                forall|k: &str, v: V| #[trigger] call_requires(change, (k, v)),
                forall|k: &str, v: V, r: V| #[trigger]
                    call_ensures(change, (k, v), r) ==> r@ == meaning(k@, v@),
                forall|j: int|
                    0 <= j < i ==> (#[trigger] out@[j])@ == meaning(
                        keys@[n - 1 - j]@,
                        vals[n - 1 - j]@,
                    ),
            decreases n - i,
        {
            let value = values.pop().unwrap();
            out.push(change(keys[n - 1 - i].as_str(), value));
            i += 1;
        }
        let mut values: Vec<V> = Vec::new();
        let ghost turned = out@;
        let mut i: usize = 0;
        while i < n
            invariant
                i <= n,
                n == turned.len(),
                out@ == turned.take(n - i),
                values@.len() == i,
                forall|j: int| 0 <= j < i ==> values@[j] == turned[n - 1 - j],
            decreases n - i,
        {
            values.push(out.pop().unwrap());
            i += 1;
        }
        *self = Table { keys, values };
        proof {
            let want = old(self)@.map_entries(meaning);
            assert(self@.dom() =~= want.dom());
            assert forall|k: Seq<char>| self@.contains_key(k) implies self@[k] == want[k] by {
                let p = self.keys.deep_view().index_of(k);
                assert(self.values@[p] == turned[n - 1 - p]);
                assert(self.keys.deep_view()[p] == self.keys@[p]@);
            }
            assert(self@ =~= want);
        }
    }

    /// What `make`, whose meaning is `meaning`, makes of each record, in increasing key order.
    pub(crate) fn collect<T: View, F: Fn(&str, &V) -> T>(
        &self,
        make: F,
        Ghost(meaning): Ghost<spec_fn(Seq<char>, V::V) -> T::V>,
    ) -> (items: Vec<T>)
        requires
            forall|k: &str, v: &V|
                self@.contains_key(k@) && v@ == self@[k@] ==> #[trigger] call_requires(make, (k, v)),
            forall|k: &str, v: &V, r: T| #[trigger]
                call_ensures(make, (k, v), r) ==> r@ == meaning(k@, v@),
        ensures
            views(items@) == sorted(self@.dom()).map_values(
                |k: Seq<char>| meaning(k, self@[k]),
            ),
            items@.len() == self@.dom().len(),
    {
        let n: usize = self.len();
        let mut items: Vec<T> = Vec::new();
        let ghost want = sorted(self@.dom()).map_values(|k: Seq<char>| meaning(k, self@[k]));
        let mut i: usize = 0;
        while i < n
            invariant
                i <= n,
                n == self.key_list().len(),
                self.key_list() == sorted(self@.dom()),
                want == sorted(self@.dom()).map_values(|k: Seq<char>| meaning(k, self@[k])),
                forall|k: &str, v: &V|
                    self@.contains_key(k@) && v@ == self@[k@] ==> #[trigger] call_requires(
                        make,
                        (k, v),
                    ),
                forall|k: &str, v: &V, r: T| #[trigger]
                    call_ensures(make, (k, v), r) ==> r@ == meaning(k@, v@),
                views(items@) =~= want.take(i as int),
                items@.len() == i,
            decreases n - i,
        {
            let ghost before = views(items@);
            let item = make(self.key_at(i), self.value_at(i));
            items.push(item);
            assert(views(items@) =~= before.push(item@));
            i += 1;
        }
        assert(want.take(n as int) =~= want);
        items
    }

    /// Keeps the records that meet `keep`, whose meaning is `meaning`.
    pub(crate) fn retain<F: Fn(&str, &V) -> bool>(
        &mut self,
        keep: F,
        Ghost(meaning): Ghost<spec_fn(Seq<char>, V::V) -> bool>,
    )
        requires
            forall|k: &str, v: &V| #[trigger] call_requires(keep, (k, v)),
            forall|k: &str, v: &V, r: bool| #[trigger]
                call_ensures(keep, (k, v), r) ==> r == meaning(k@, v@),
        ensures
            final(self)@ == kept(old(self)@, meaning),
    {
        let keys = self.keys_where(keep, Ghost(meaning));
        let n: usize = self.len();
        let mut all: Vec<String> = Vec::new();
        let mut i: usize = 0;
        while i < n
            invariant
                i <= n,
                n == self.key_list().len(),
                all.deep_view() =~= self.key_list().take(i as int),
            decreases n - i,
        {
            let ghost before = all.deep_view();
            let key = self.key_at(i).to_owned();
            all.push(key);
            assert(all.deep_view() =~= before.push(key@));
            i += 1;
        }
        let ghost before = self@;
        let ghost list = self.key_list();
        assert(list.take(n as int) =~= list);
        let mut i: usize = 0;
        while i < n
            invariant
                i <= n,
                n == all@.len(),
                all.deep_view() == list,
                lists(list, before.dom()),
                forall|k: Seq<char>| #[trigger]
                    keys@.contains(k) <==> before.contains_key(k) && meaning(k, before[k]),
                forall|k: Seq<char>| #[trigger]
                    self@.contains_key(k) <==> before.contains_key(k) && (meaning(k, before[k])
                        || list.skip(i as int).contains(k)),
                forall|k: Seq<char>| #[trigger] self@.contains_key(k) ==> self@[k] == before[k],
            decreases n - i,
        {
            let ghost prior = self@;
            let ghost key = list[i as int];
            assert(all@[i as int]@ == key);
            if !keys.contains(all[i].as_str()) {
                self.remove(all[i].as_str());
            }
            proof {
                lemma_increasing_distinct(list);
                assert(list.contains(key));
                assert(before.dom().contains(key));
                assert forall|k: Seq<char>| #[trigger] self@.contains_key(k) <==> before.contains_key(k)
                    && (meaning(k, before[k]) || list.skip(i + 1).contains(k)) by {
                    assert(prior.contains_key(k) <==> before.contains_key(k) && (meaning(
                        k,
                        before[k],
                    ) || list.skip(i as int).contains(k)));
                    if list.skip(i as int).contains(k) && k != key {
                        let p = list.skip(i as int).index_of(k);
                        assert(list.skip(i + 1)[p - 1] == k);
                    }
                    if list.skip(i + 1).contains(k) {
                        let p = list.skip(i + 1).index_of(k);
                        assert(list.skip(i as int)[p + 1] == k);
                        assert(list[p + i + 1] == k);
                        assert(k != key);
                    }
                    assert(list.skip(i as int)[0] == key);
                }
            }
            i += 1;
        }
        assert(self@ =~= kept(before, meaning));
    }
}

/// The rank `a` is below the rank `b`, compared part by part.
pub open spec fn rank_lt(a: (u128, u128, u128), b: (u128, u128, u128)) -> bool {
    a.0 < b.0 || (a.0 == b.0 && (a.1 < b.1 || (a.1 == b.1 && a.2 < b.2)))
}

/// Among the entries that meet `test`, `k` has the highest rank; of several such entries it is the
/// one with the last key if `last`, else the one with the first.
pub open spec fn is_best<V>(
    map: Map<Seq<char>, V>,
    test: spec_fn(Seq<char>, V) -> bool,
    rank: spec_fn(V) -> (u128, u128, u128),
    last: bool,
    k: Seq<char>,
) -> bool {
    &&& map.contains_key(k)
    &&& test(k, map[k])
    &&& forall|j: Seq<char>| #[trigger]
        map.contains_key(j) && test(j, map[j]) && j != k ==> rank_lt(rank(map[j]), rank(map[k])) || (
        rank(map[j]) == rank(map[k]) && if last {
            crate::order::lex_lt(j, k)
        } else {
            crate::order::lex_lt(k, j)
        })
}

/// The key of the entry of the highest rank among those that meet `test`.
pub open spec fn best<V>(
    map: Map<Seq<char>, V>,
    test: spec_fn(Seq<char>, V) -> bool,
    rank: spec_fn(V) -> (u128, u128, u128),
    last: bool,
) -> Option<Seq<char>> {
    if exists|k: Seq<char>| is_best(map, test, rank, last, k) {
        Some(choose|k: Seq<char>| is_best(map, test, rank, last, k))
    } else {
        None
    }
}

/// At most one entry is the best.
pub proof fn lemma_best_unique<V>(
    map: Map<Seq<char>, V>,
    test: spec_fn(Seq<char>, V) -> bool,
    rank: spec_fn(V) -> (u128, u128, u128),
    last: bool,
    k: Seq<char>,
)
    requires
        is_best(map, test, rank, last, k),
    ensures
        best(map, test, rank, last) == Some(k),
{
    let a = choose|a: Seq<char>| is_best(map, test, rank, last, a);
    if a != k {
        assert(map.contains_key(a) && map.contains_key(k));
        if crate::order::lex_lt(a, k) && crate::order::lex_lt(k, a) {
            crate::order::lemma_lex_transitive(a, k, a);
            crate::order::lemma_lex_irreflexive(a);
        }
    }
}

/// The entry `j` comes below the entry `k`: by rank, and at the same rank by key.
pub open spec fn ranks_below<V>(
    map: Map<Seq<char>, V>,
    rank: spec_fn(V) -> (u128, u128, u128),
    last: bool,
    j: Seq<char>,
    k: Seq<char>,
) -> bool {
    rank_lt(rank(map[j]), rank(map[k])) || (rank(map[j]) == rank(map[k]) && if last {
        crate::order::lex_lt(j, k)
    } else {
        crate::order::lex_lt(k, j)
    })
}

/// Among finitely many keys, one of which meets `test`, one comes above all others that do.
proof fn lemma_best_among<V>(
    map: Map<Seq<char>, V>,
    test: spec_fn(Seq<char>, V) -> bool,
    rank: spec_fn(V) -> (u128, u128, u128),
    last: bool,
    keys: Set<Seq<char>>,
    k: Seq<char>,
) -> (top: Seq<char>)
    requires
        keys.finite(),
        keys.contains(k),
        test(k, map[k]),
    ensures
        keys.contains(top),
        test(top, map[top]),
        forall|j: Seq<char>| #[trigger]
            keys.contains(j) && test(j, map[j]) && j != top ==> ranks_below(map, rank, last, j, top),
    decreases keys.len(),
{
    let rest = keys.remove(k);
    if exists|j: Seq<char>| #[trigger] rest.contains(j) && test(j, map[j]) {
        let j = choose|j: Seq<char>| #[trigger] rest.contains(j) && test(j, map[j]);
        let a = lemma_best_among(map, test, rank, last, rest, j);
        crate::order::lemma_lex_total(a, k);
        if ranks_below(map, rank, last, k, a) {
            a
        } else {
            assert(ranks_below(map, rank, last, a, k));
            assert forall|j: Seq<char>| #[trigger] keys.contains(j) && test(j, map[j]) && j
                != k implies ranks_below(map, rank, last, j, k) by {
                assert(rest.contains(j));
                if j != a {
                    if last {
                        if crate::order::lex_lt(j, a) && crate::order::lex_lt(a, k) {
                            crate::order::lemma_lex_transitive(j, a, k);
                        }
                    } else {
                        if crate::order::lex_lt(k, a) && crate::order::lex_lt(a, j) {
                            crate::order::lemma_lex_transitive(k, a, j);
                        }
                    }
                }
            }
            k
        }
    } else {
        assert forall|j: Seq<char>| #[trigger] keys.contains(j) && test(j, map[j]) && j
            != k implies ranks_below(map, rank, last, j, k) by {
            assert(rest.contains(j));
        }
        k
    }
}

/// Where some entry of a finite map meets `test`, one of those that do is the best.
pub proof fn lemma_best_exists<V>(
    map: Map<Seq<char>, V>,
    test: spec_fn(Seq<char>, V) -> bool,
    rank: spec_fn(V) -> (u128, u128, u128),
    last: bool,
    k: Seq<char>,
)
    requires
        map.dom().finite(),
        map.contains_key(k),
        test(k, map[k]),
    ensures
        best(map, test, rank, last) matches Some(top) && is_best(map, test, rank, last, top),
{
    let top = lemma_best_among(map, test, rank, last, map.dom(), k);
    assert forall|j: Seq<char>| #[trigger] map.contains_key(j) && test(j, map[j]) && j
        != top implies ranks_below(map, rank, last, j, top) by {
        assert(map.dom().contains(j));
    }
    assert(is_best(map, test, rank, last, top));
    lemma_best_unique(map, test, rank, last, top);
}

impl<V: View> Table<V> {
    /// The key of the record of the highest rank among those that meet `test`.
    pub(crate) fn find_best<T: Fn(&str, &V) -> bool, R: Fn(&V) -> (u128, u128, u128)>(
        &self,
        test: T,
        rank: R,
        last: bool,
        Ghost(meaning): Ghost<spec_fn(Seq<char>, V::V) -> bool>,
        Ghost(value): Ghost<spec_fn(V::V) -> (u128, u128, u128)>,
    ) -> (key: Option<String>)
        requires
            forall|k: &str, v: &V| #[trigger] call_requires(test, (k, v)),
            forall|k: &str, v: &V, r: bool| #[trigger]
                call_ensures(test, (k, v), r) ==> r == meaning(k@, v@),
            forall|v: &V| #[trigger] call_requires(rank, (v,)),
            forall|v: &V, r: (u128, u128, u128)| #[trigger]
                call_ensures(rank, (v,), r) ==> r == value(v@),
        ensures
            key.deep_view() == best(self@, meaning, value, last),
            key is None ==> forall|k: Seq<char>| #[trigger]
                self@.contains_key(k) ==> !meaning(k, self@[k]),
            key matches Some(k) ==> is_best(self@, meaning, value, last, k@),
    {
        let n: usize = self.len();
        let ghost list = self.key_list();
        let mut found: Option<usize> = None;
        let mut top: (u128, u128, u128) = (0, 0, 0);
        let mut i: usize = 0;
        while i < n
            invariant
                i <= n,
                n == self.key_list().len(),
                list == self.key_list(),
                lists(list, self@.dom()),
                forall|k: &str, v: &V| #[trigger] call_requires(test, (k, v)),
                forall|k: &str, v: &V, r: bool| #[trigger]
                    call_ensures(test, (k, v), r) ==> r == meaning(k@, v@),
                forall|v: &V| #[trigger] call_requires(rank, (v,)),
                forall|v: &V, r: (u128, u128, u128)| #[trigger]
                    call_ensures(rank, (v,), r) ==> r == value(v@),
                match found {
                    Some(b) => {
                        &&& b < i
                        &&& meaning(list[b as int], self@[list[b as int]])
                        &&& top == value(self@[list[b as int]])
                        &&& forall|j: int|
                            0 <= j < i && j != b && meaning(
                                #[trigger] list[j],
                                self@[list[j]],
                            ) ==> rank_lt(value(self@[list[j]]), top) || (value(self@[list[j]])
                                == top && if last {
                                j < b
                            } else {
                                b < j
                            })
                    },
                    None => forall|j: int|
                        0 <= j < i ==> !meaning(#[trigger] list[j], self@[list[j]]),
                },
            decreases n - i,
        {
            let item = self.value_at(i);
            if test(self.key_at(i), item) {
                let r = rank(item);
                let above = r.0 > top.0 || (r.0 == top.0 && (r.1 > top.1 || (r.1 == top.1 && r.2
                    > top.2)));
                let level = r.0 == top.0 && r.1 == top.1 && r.2 == top.2;
                if found.is_none() || above || (last && level) {
                    found = Some(i);
                    top = r;
                }
            }
            i += 1;
        }
        match found {
            Some(b) => {
                let key = self.key_at(b).to_owned();
                proof {
                    assert forall|j: Seq<char>| #[trigger] self@.contains_key(j) && meaning(
                        j,
                        self@[j],
                    ) && j != key@ implies rank_lt(value(self@[j]), value(self@[key@])) || (value(
                        self@[j],
                    ) == value(self@[key@]) && if last {
                        crate::order::lex_lt(j, key@)
                    } else {
                        crate::order::lex_lt(key@, j)
                    }) by {
                        assert(self@.dom().contains(j));
                        let p = list.index_of(j);
                        assert(list[p] == j);
                        if p < b {
                            assert(crate::order::lex_lt(list[p], list[b as int]));
                        } else {
                            assert(crate::order::lex_lt(list[b as int], list[p]));
                        }
                    }
                    assert(is_best(self@, meaning, value, last, key@));
                    lemma_best_unique(self@, meaning, value, last, key@);
                }
                Some(key)
            },
            None => {
                proof {
                    assert forall|k: Seq<char>| #[trigger] self@.contains_key(k) implies !meaning(
                        k,
                        self@[k],
                    ) by {
                        assert(self@.dom().contains(k));
                        let p = list.index_of(k);
                        assert(list[p] == k);
                    }
                    assert forall|k: Seq<char>| !is_best(self@, meaning, value, last, k) by {
                        if self@.contains_key(k) {
                        }
                    }
                }
                None
            },
        }
    }
}

impl<V: Dup> Dup for Table<V> {
    fn dup(&self) -> (copy: Self) {
        let n: usize = self.len();
        let mut copy: Table<V> = Table::new();
        let mut i: usize = 0;
        while i < n
            invariant
                i <= n,
                n == self.key_list().len(),
                lists(self.key_list(), self@.dom()),
                forall|k: Seq<char>| #[trigger]
                    copy@.contains_key(k) <==> self.key_list().take(i as int).contains(k),
                forall|k: Seq<char>| #[trigger] copy@.contains_key(k) ==> copy@[k] == self@[k],
            decreases n - i,
        {
            let ghost before = copy@;
            let key = self.key_at(i);
            copy.insert(key.to_owned(), self.value_at(i).dup());
            proof {
                let all = self.key_list();
                assert(all.take(i + 1) =~= all.take(i as int).push(key@));
                assert forall|k: Seq<char>| #[trigger] copy@.contains_key(k) <==> all.take(
                    i + 1,
                ).contains(k) by {
                    if all.take(i as int).contains(k) {
                        let p = all.take(i as int).index_of(k);
                        assert(all.take(i + 1)[p] == k);
                    }
                    assert(all.take(i + 1)[i as int] == key@);
                    assert(before.contains_key(k) <==> all.take(i as int).contains(k));
                }
            }
            i += 1;
        }
        assert(self.key_list().take(n as int) =~= self.key_list());
        assert forall|k: Seq<char>| #[trigger] copy@.contains_key(k) <==> self@.contains_key(k) by {
            assert(self@.dom().contains(k) <==> self.key_list().contains(k));
        }
        assert(copy@ =~= self@);
        copy
    }
}

/// What `make`, whose meaning is `meaning`, makes of each identifier, in order.
pub(crate) fn map_ids<T: View, F: Fn(&str) -> T>(
    ids: &Vec<String>,
    make: F,
    Ghost(meaning): Ghost<spec_fn(Seq<char>) -> T::V>,
) -> (items: Vec<T>)
    requires
        forall|k: &str|
            ids.deep_view().contains(k@) ==> #[trigger] call_requires(make, (k,)),
        forall|k: &str, r: T| #[trigger] call_ensures(make, (k,), r) ==> r@ == meaning(k@),
    ensures
        views(items@) == ids.deep_view().map_values(|k: Seq<char>| meaning(k)),
{
    let mut items: Vec<T> = Vec::new();
    let ghost want = ids.deep_view().map_values(|k: Seq<char>| meaning(k));
    let mut i: usize = 0;
    while i < ids.len()
        invariant
            i <= ids@.len(),
            want == ids.deep_view().map_values(|k: Seq<char>| meaning(k)),
            forall|k: &str|
                ids.deep_view().contains(k@) ==> #[trigger] call_requires(make, (k,)),
            forall|k: &str, r: T| #[trigger] call_ensures(make, (k,), r) ==> r@ == meaning(k@),
            views(items@) =~= want.take(i as int),
            items@.len() == i,
        decreases ids@.len() - i,
    {
        let ghost before = views(items@);
        assert(ids.deep_view().contains(ids.deep_view()[i as int]));
        let item = make(ids[i].as_str());
        items.push(item);
        assert(views(items@) =~= before.push(item@));
        i += 1;
    }
    assert(want.take(ids@.len() as int) =~= want);
    items
}

} // verus!
