//! Parsing of repeatable `key=value` command-line arguments.
//!
//! Each entry is split on its first `=` only, so values may themselves
//! contain `=`. Entries without a `=` are dropped (the caller may warn).
//! Later entries with an already-seen key overwrite the earlier value.

use vstd::prelude::*;

verus! {

/// Index of the first `=` in `s`, or `s.len()` when there is none.
pub open spec fn first_eq(s: Seq<char>) -> int
    decreases s.len(),
{
    if s.len() == 0 {
        0
    } else if s[0] == '=' {
        0
    } else {
        1 + first_eq(s.drop_first())
    }
}

/// Whether `s` contains a `=` at all.
pub open spec fn has_eq(s: Seq<char>) -> bool {
    exists|i: int| 0 <= i < s.len() && s[i] == '='
}

/// The `(key, value)` split of one raw entry, or `None` when it has no `=`.
pub open spec fn split_pair_spec(s: Seq<char>) -> Option<(Seq<char>, Seq<char>)> {
    if has_eq(s) {
        Some((s.take(first_eq(s)), s.skip(first_eq(s) + 1)))
    } else {
        None
    }
}

/// The key of one raw entry, when it has one.
pub open spec fn key_of(s: Seq<char>) -> Option<Seq<char>> {
    match split_pair_spec(s) {
        Some(kv) => Some(kv.0),
        None => None,
    }
}

pub proof fn lemma_first_eq_bounds(s: Seq<char>)
    ensures
        0 <= first_eq(s) <= s.len(),
        has_eq(s) <==> first_eq(s) < s.len(),
        first_eq(s) < s.len() ==> s[first_eq(s)] == '=',
        forall|j: int| 0 <= j < first_eq(s) ==> s[j] != '=',
    decreases s.len(),
{
    if s.len() > 0 && s[0] != '=' {
        lemma_first_eq_bounds(s.drop_first());
        assert forall|j: int| 0 <= j < first_eq(s) implies s[j] != '=' by {
            if j > 0 {
                assert(s.drop_first()[j - 1] != '=');
            }
        }
        if has_eq(s) {
            let i = choose|i: int| 0 <= i < s.len() && s[i] == '=';
            assert(s.drop_first()[i - 1] == '=');
        }
        if has_eq(s.drop_first()) {
            let i = choose|i: int| 0 <= i < s.drop_first().len() && s.drop_first()[i] == '=';
            assert(s[i + 1] == '=');
        }
    }
}

/// Splits one raw argument on its first `=`.
pub fn split_pair(s: &String) -> (r: Option<(String, String)>)
    ensures
        match r {
            Some(kv) => split_pair_spec(s@) == Some((kv.0@, kv.1@)),
            None => !has_eq(s@),
        },
{
    let st = s.as_str();
    let n = st.unicode_len();
    let mut i: usize = 0;
    while i < n
        invariant
            i <= n,
            n == st@.len(),
            st@ == s@,
            forall|j: int| 0 <= j < i ==> s@[j] != '=',
        decreases n - i,
    {
        if st.get_char(i) == '=' {
            let key = st.substring_char(0, i).to_owned();
            let value = st.substring_char(i + 1, n).to_owned();
            proof {
                lemma_first_eq_bounds(s@);
                assert(first_eq(s@) == i) by {
                    if first_eq(s@) < i {
                        assert(s@[first_eq(s@)] == '=');
                    }
                }
            }
            return Some((key, value));
        }
        i += 1;
    }
    None
}

/// One parsed `key=value` argument.
pub struct Pair {
    pub key: String,
    pub value: String,
}

/// An ordered mapping of parsed parameters; keys are unique, the order is
/// the order in which the keys first appeared.
pub struct Params {
    pub pairs: Vec<Pair>,
}

impl View for Pair {
    type V = (Seq<char>, Seq<char>);

    open spec fn view(&self) -> (Seq<char>, Seq<char>) {
        (self.key@, self.value@)
    }
}

impl View for Params {
    type V = Seq<(Seq<char>, Seq<char>)>;

    open spec fn view(&self) -> Seq<(Seq<char>, Seq<char>)> {
        Seq::new(self.pairs.len() as nat, |i: int| (self.pairs[i].key@, self.pairs[i].value@))
    }
}

/// The mapping that an ordered pair sequence denotes.
pub open spec fn pairs_to_map(ps: Seq<(Seq<char>, Seq<char>)>) -> Map<Seq<char>, Seq<char>>
    decreases ps.len(),
{
    if ps.len() == 0 {
        Map::empty()
    } else {
        pairs_to_map(ps.drop_last()).insert(ps.last().0, ps.last().1)
    }
}

/// `ps` with `k` bound to `v`: updated in place when `k` is present,
/// appended otherwise.
pub open spec fn upsert(ps: Seq<(Seq<char>, Seq<char>)>, k: Seq<char>, v: Seq<char>) -> Seq<
    (Seq<char>, Seq<char>),
> {
    if exists|i: int| 0 <= i < ps.len() && ps[i].0 == k {
        ps.update(choose|i: int| 0 <= i < ps.len() && ps[i].0 == k, (k, v))
    } else {
        ps.push((k, v))
    }
}

/// Keys pairwise distinct.
pub open spec fn unique_keys(ps: Seq<(Seq<char>, Seq<char>)>) -> bool {
    forall|i: int, j: int| 0 <= i < j < ps.len() ==> ps[i].0 != ps[j].0
}

impl Params {
    pub open spec fn wf(&self) -> bool {
        unique_keys(self@)
    }

    /// The mapping these parameters denote.
    pub open spec fn as_map(&self) -> Map<Seq<char>, Seq<char>> {
        pairs_to_map(self@)
    }

    /// A pair-for-pair copy.
    pub fn duplicate(&self) -> (r: Params)
        ensures
            r@ == self@,
    {
        let mut pairs: Vec<Pair> = Vec::new();
        let n = self.pairs.len();
        let mut i: usize = 0;
        while i < n
            invariant
                i <= n,
                n == self.pairs.len(),
                pairs.len() == i,
                forall|j: int|
                    0 <= j < i ==> pairs[j].key@ == self.pairs[j].key@ && pairs[j].value@
                        == self.pairs[j].value@,
            decreases n - i,
        {
            pairs.push(
                Pair { key: self.pairs[i].key.clone(), value: self.pairs[i].value.clone() },
            );
            i += 1;
        }
        let r = Params { pairs };
        proof {
            assert(r@ =~= self@);
        }
        r
    }

    pub fn empty() -> (r: Params)
        ensures
            r@ == Seq::<(Seq<char>, Seq<char>)>::empty(),
            r.wf(),
    {
        let r = Params { pairs: Vec::new() };
        proof {
            assert(r@ =~= Seq::<(Seq<char>, Seq<char>)>::empty());
        }
        r
    }
}

/// The pair sequence that parsing a raw argument list yields.
pub open spec fn parse_spec(entries: Seq<Seq<char>>) -> Seq<(Seq<char>, Seq<char>)>
    decreases entries.len(),
{
    if entries.len() == 0 {
        Seq::empty()
    } else {
        let prev = parse_spec(entries.drop_last());
        match split_pair_spec(entries.last()) {
            Some(kv) => upsert(prev, kv.0, kv.1),
            None => prev,
        }
    }
}

/// The mapping that parsing a raw argument list yields.
pub open spec fn parse_map(entries: Seq<Seq<char>>) -> Map<Seq<char>, Seq<char>>
    decreases entries.len(),
{
    if entries.len() == 0 {
        Map::empty()
    } else {
        match split_pair_spec(entries.last()) {
            Some(kv) => parse_map(entries.drop_last()).insert(kv.0, kv.1),
            None => parse_map(entries.drop_last()),
        }
    }
}

proof fn lemma_upsert_unique(ps: Seq<(Seq<char>, Seq<char>)>, k: Seq<char>, v: Seq<char>)
    requires
        unique_keys(ps),
    ensures
        unique_keys(upsert(ps, k, v)),
        pairs_to_map(upsert(ps, k, v)) == pairs_to_map(ps).insert(k, v),
{
    if exists|i: int| 0 <= i < ps.len() && ps[i].0 == k {
        let i = choose|i: int| 0 <= i < ps.len() && ps[i].0 == k;
        lemma_update_to_map(ps, i, v);
    } else {
        assert(pairs_to_map(ps.push((k, v))) == pairs_to_map(ps).insert(k, v)) by {
            assert(ps.push((k, v)).drop_last() =~= ps);
        }
    }
}

/// Updating the pair at `i` (keeping its key) rewrites exactly that key's
/// entry in the denoted mapping.
proof fn lemma_update_to_map(ps: Seq<(Seq<char>, Seq<char>)>, i: int, v: Seq<char>)
    requires
        unique_keys(ps),
        0 <= i < ps.len(),
    ensures
        pairs_to_map(ps.update(i, (ps[i].0, v))) == pairs_to_map(ps).insert(ps[i].0, v),
    decreases ps.len(),
{
    let k = ps[i].0;
    let updated = ps.update(i, (k, v));
    if i == ps.len() - 1 {
        assert(updated.drop_last() =~= ps.drop_last());
        assert(pairs_to_map(updated) =~= pairs_to_map(ps).insert(k, v)) by {
            assert(updated.last() == (k, v));
        }
    } else {
        assert(updated.drop_last() =~= ps.drop_last().update(i, (k, v)));
        lemma_update_to_map(ps.drop_last(), i, v);
        assert(ps.drop_last()[i].0 == k);
        assert(updated.last() == ps.last());
        // the final insert of the last pair commutes with the insert of k,
        // because their keys differ
        assert(ps.last().0 != k);
        assert(pairs_to_map(ps.drop_last()).insert(k, v).insert(ps.last().0, ps.last().1)
            =~= pairs_to_map(ps.drop_last()).insert(ps.last().0, ps.last().1).insert(k, v));
    }
}

proof fn lemma_parse_spec_wf(entries: Seq<Seq<char>>)
    ensures
        unique_keys(parse_spec(entries)),
        pairs_to_map(parse_spec(entries)) == parse_map(entries),
    decreases entries.len(),
{
    if entries.len() > 0 {
        lemma_parse_spec_wf(entries.drop_last());
        match split_pair_spec(entries.last()) {
            Some(kv) => {
                lemma_upsert_unique(parse_spec(entries.drop_last()), kv.0, kv.1);
            },
            None => {},
        }
    }
}

/// Parses a raw argument list. Entries without `=` are dropped; for entries
/// sharing a key, the last value wins.
pub fn parse_parameters(entries: &Vec<String>) -> (r: Params)
    ensures
        r@ == parse_spec(entries.deep_view()),
        r.wf(),
        r.as_map() == parse_map(entries.deep_view()),
{
    let ghost all = entries.deep_view();
    let mut r = Params::empty();
    let mut i: usize = 0;
    while i < entries.len()
        invariant
            i <= entries.len(),
            all == entries.deep_view(),
            all.len() == entries.len(),
            forall|j: int| 0 <= j < all.len() ==> all[j] == entries[j]@,
            r@ == parse_spec(all.take(i as int)),
            r.wf(),
        decreases entries.len() - i,
    {
        proof {
            assert(all.take(i + 1).drop_last() =~= all.take(i as int));
            assert(all.take(i + 1).last() == entries[i as int]@);
        }
        match split_pair(&entries[i]) {
            Some(kv) => {
                upsert_pair(&mut r, kv.0, kv.1);
            },
            None => {},
        }
        i += 1;
    }
    proof {
        assert(all.take(entries.len() as int) =~= all);
        lemma_parse_spec_wf(all);
    }
    r
}

/// Binds `key` to `value` in `params`, overwriting an existing entry.
pub fn upsert_pair(params: &mut Params, key: String, value: String)
    requires
        old(params).wf(),
    ensures
        final(params)@ == upsert(old(params)@, key@, value@),
        final(params).wf(),
        final(params).as_map() == old(params).as_map().insert(key@, value@),
{
    let n = params.pairs.len();
    let mut i: usize = 0;
    while i < n
        invariant
            i <= n,
            n == params.pairs.len(),
            *params == *old(params),
            old(params).wf(),
            forall|j: int| 0 <= j < i ==> params@[j].0 != key@,
        decreases n - i,
    {
        if params.pairs[i].key == key {
            assert(params@[i as int].0 == key@);
            params.pairs[i] = Pair { key, value };
            proof {
                assert(old(params)@[i as int].0 == key@);
                let w = choose|w: int| 0 <= w < old(params)@.len() && old(params)@[w].0 == key@;
                assert(w == i) by {
                    if w < i {
                        assert(old(params)@[w].0 != old(params)@[i as int].0);
                    }
                    if i < w {
                        assert(old(params)@[i as int].0 != old(params)@[w].0);
                    }
                }
                assert(params@ =~= upsert(old(params)@, key@, value@));
                lemma_upsert_unique(old(params)@, key@, value@);
            }
            return ;
        }
        i += 1;
    }
    params.pairs.push(Pair { key, value });
    proof {
        assert(!(exists|w: int| 0 <= w < old(params)@.len() && old(params)@[w].0 == key@));
        assert(params@ =~= upsert(old(params)@, key@, value@));
        lemma_upsert_unique(old(params)@, key@, value@);
    }
}

/// Exactly the entries carrying a `=` appear in the parsed mapping, split on
/// the first `=`; the last entry with a given key determines its value.
pub proof fn lemma_parse_parameters_exact(entries: Seq<Seq<char>>)
    ensures
        forall|k: Seq<char>|
            parse_map(entries).contains_key(k) <==> exists|i: int|
                0 <= i < entries.len() && key_of(#[trigger] entries[i]) == Some(k),
        forall|i: int|
            0 <= i < entries.len() && split_pair_spec(#[trigger] entries[i]) is Some && (forall|
                j: int,
            |
                i < j < entries.len() ==> key_of(#[trigger] entries[j]) != key_of(entries[i]))
                ==> parse_map(entries)[split_pair_spec(entries[i])->Some_0.0] == split_pair_spec(
                entries[i],
            )->Some_0.1,
    decreases entries.len(),
{
    if entries.len() > 0 {
        lemma_parse_parameters_exact(entries.drop_last());
        let prefix = entries.drop_last();
        assert forall|k: Seq<char>| parse_map(entries).contains_key(k) implies exists|i: int|
            0 <= i < entries.len() && key_of(#[trigger] entries[i]) == Some(k) by {
            if key_of(entries.last()) == Some(k) {
                assert(key_of(entries[entries.len() - 1]) == Some(k));
            } else {
                assert(parse_map(prefix).contains_key(k));
                let i = choose|i: int| 0 <= i < prefix.len() && key_of(#[trigger] prefix[i])
                    == Some(k);
                assert(key_of(entries[i]) == Some(k));
            }
        }
        assert forall|k: Seq<char>|
            (exists|i: int| 0 <= i < entries.len() && key_of(#[trigger] entries[i]) == Some(k))
            implies parse_map(entries).contains_key(k) by {
            let i = choose|i: int| 0 <= i < entries.len() && key_of(#[trigger] entries[i]) == Some(
                k,
            );
            if i < entries.len() - 1 {
                assert(key_of(prefix[i]) == Some(k));
                assert(parse_map(prefix).contains_key(k));
            }
        }
        assert forall|i: int|
            0 <= i < entries.len() && split_pair_spec(#[trigger] entries[i]) is Some && (forall|
                j: int,
            |
                i < j < entries.len() ==> key_of(#[trigger] entries[j]) != key_of(entries[i]))
            implies parse_map(entries)[split_pair_spec(entries[i])->Some_0.0] == split_pair_spec(
            entries[i],
        )->Some_0.1 by {
            let k = split_pair_spec(entries[i])->Some_0.0;
            if i == entries.len() - 1 {
                assert(parse_map(entries)[k] == split_pair_spec(entries[i])->Some_0.1);
            } else {
                assert(split_pair_spec(prefix[i]) is Some);
                assert(forall|j: int|
                    i < j < prefix.len() ==> key_of(#[trigger] prefix[j]) != key_of(prefix[i]));
                assert(parse_map(prefix)[k] == split_pair_spec(prefix[i])->Some_0.1);
                assert(key_of(entries[entries.len() - 1]) != Some(k));
            }
        }
    }
}

} // verus!
