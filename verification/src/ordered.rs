//! Insertion-ordered maps with text keys.
//!
//! The maps of a workflow document keep the order in which their keys were
//! first inserted. Their content is modelled as a sequence of entries with
//! pairwise distinct keys; the functions below say on that sequence what the
//! map operations do.

use vstd::prelude::*;
use indexmap::IndexMap;
use crate::container::Container;
use crate::container::ContainerView;
use crate::data::Data;
use crate::secret::Secret;
use crate::secret::SecretView;
use crate::value::Value;
use crate::value::ValueView;

verus! {

/// An entry sequence: keys with what they map to, in order.
pub type Entries<V> = Seq<(Seq<char>, V)>;

/// Whether no key occurs twice.
pub open spec fn distinct_keys<V>(s: Entries<V>) -> bool {
    forall|i: int, j: int| 0 <= i < j < s.len() ==> s[i].0 != s[j].0
}

/// Whether `key` occurs.
pub open spec fn has_key<V>(s: Entries<V>, key: Seq<char>) -> bool {
    exists|i: int| 0 <= i < s.len() && #[trigger] s[i].0 == key
}

/// The first position of `key`; the length where it does not occur.
pub open spec fn position<V>(s: Entries<V>, key: Seq<char>) -> int
    decreases s.len(),
{
    if s.len() == 0 {
        0
    } else if s[0].0 == key {
        0
    } else {
        1 + position(s.subrange(1, s.len() as int), key)
    }
}

/// The entries after `key` is set to `value`: an entry with that key keeps
/// its place and gets the value, a new key goes to the end.
pub open spec fn put<V>(s: Entries<V>, key: Seq<char>, value: V) -> Entries<V> {
    let i = position(s, key);
    if i < s.len() {
        s.update(i, (key, value))
    } else {
        s.push((key, value))
    }
}

/// The entries after each entry of `more` is put, in order.
pub open spec fn put_all<V>(s: Entries<V>, more: Entries<V>) -> Entries<V>
    decreases more.len(),
{
    if more.len() == 0 {
        s
    } else {
        put_all(put(s, more[0].0, more[0].1), more.subrange(1, more.len() as int))
    }
}

/// The entries as a finite map, where no key occurs twice.
pub open spec fn as_map<V>(s: Entries<V>) -> Map<Seq<char>, V> {
    Map::new(|k: Seq<char>| has_key(s, k), |k: Seq<char>| s[position(s, k)].1)
}

/// `position` finds the key where it occurs and runs to the end where not.
pub proof fn position_is_first<V>(s: Entries<V>, key: Seq<char>)
    ensures
        0 <= position(s, key) <= s.len(),
        position(s, key) < s.len() <==> has_key(s, key),
        position(s, key) < s.len() ==> s[position(s, key)].0 == key,
        forall|i: int| 0 <= i < position(s, key) ==> (#[trigger] s[i]).0 != key,
    decreases s.len(),
{
    if s.len() == 0 {
    } else if s[0].0 == key {
        assert(s[0].0 == key);
    } else {
        let rest = s.subrange(1, s.len() as int);
        position_is_first(rest, key);
        let p = position(rest, key);
        if p < rest.len() {
            assert(s[p + 1] == rest[p]);
            assert(s[p + 1].0 == key);
        }
        if has_key(s, key) {
            let i = choose|i: int| 0 <= i < s.len() && #[trigger] s[i].0 == key;
            assert(rest[i - 1] == s[i]);
            assert(rest[i - 1].0 == key);
        }
        assert forall|i: int| 0 <= i < position(s, key) implies (#[trigger] s[i]).0 != key by {
            if i > 0 {
                assert(rest[i - 1] == s[i]);
            }
        }
    }
}

/// With distinct keys, the position of the key of entry `i` is `i`.
pub proof fn position_of_entry<V>(s: Entries<V>, i: int)
    requires
        distinct_keys(s),
        0 <= i < s.len(),
    ensures
        position(s, s[i].0) == i,
{
    position_is_first(s, s[i].0);
    let p = position(s, s[i].0);
    assert(has_key(s, s[i].0));
    if p < i {
        assert(s[p].0 != s[i].0);
    }
}

/// Putting keeps keys distinct, and keeps every other key where it was.
pub proof fn put_keeps_distinct<V>(s: Entries<V>, key: Seq<char>, value: V)
    requires
        distinct_keys(s),
    ensures
        distinct_keys(put(s, key, value)),
        has_key(put(s, key, value), key),
        forall|k: Seq<char>| has_key(s, k) ==> has_key(put(s, key, value), k),
        forall|k: Seq<char>| has_key(put(s, key, value), k) ==> k == key || has_key(s, k),
{
    position_is_first(s, key);
    let i = position(s, key);
    let t = put(s, key, value);
    if i < s.len() {
        assert(t[i].0 == key);
        assert forall|k: Seq<char>| has_key(s, k) implies has_key(t, k) by {
            let j = choose|j: int| 0 <= j < s.len() && #[trigger] s[j].0 == k;
            assert(t[j].0 == k);
        }
        assert forall|k: Seq<char>| has_key(t, k) implies k == key || has_key(s, k) by {
            let j = choose|j: int| 0 <= j < t.len() && #[trigger] t[j].0 == k;
            if j != i {
                assert(s[j].0 == k);
            }
        }
    } else {
        assert(t[s.len() as int].0 == key);
        assert forall|k: Seq<char>| has_key(s, k) implies has_key(t, k) by {
            let j = choose|j: int| 0 <= j < s.len() && #[trigger] s[j].0 == k;
            assert(t[j].0 == k);
        }
        assert forall|k: Seq<char>| has_key(t, k) implies k == key || has_key(s, k) by {
            let j = choose|j: int| 0 <= j < t.len() && #[trigger] t[j].0 == k;
            if j < s.len() {
                assert(s[j].0 == k);
            }
        }
        assert forall|a: int, b: int| 0 <= a < b < t.len() implies t[a].0 != t[b].0 by {
            if b == s.len() {
                assert(s[a].0 != key);
            }
        }
    }
}

/// Putting a key that does not occur appends the entry.
pub proof fn put_new_key<V>(s: Entries<V>, key: Seq<char>, value: V)
    requires
        !has_key(s, key),
    ensures
        put(s, key, value) == s.push((key, value)),
{
    position_is_first(s, key);
}

/// Putting the one entry of a list is putting that entry.
pub proof fn put_all_of_one<V>(s: Entries<V>, key: Seq<char>, value: V)
    ensures
        put_all(s, seq![(key, value)]) == put(s, key, value),
{
    let more = seq![(key, value)];
    assert(more.subrange(1, more.len() as int) =~= Seq::<(Seq<char>, V)>::empty());
    assert(put_all(put(s, key, value), Seq::<(Seq<char>, V)>::empty()) == put(s, key, value));
}

#[verifier::external_type_specification]
#[verifier::external_body]
#[verifier::reject_recursive_types(K)]
#[verifier::reject_recursive_types(V)]
#[verifier::reject_recursive_types(S)]
pub struct ExIndexMap<K, V, S>(IndexMap<K, V, S>);

/// The entries of a map of values, in their order, each as key and content.
pub uninterp spec fn value_entries(m: IndexMap<String, Value>) -> Entries<ValueView>;

/// `IndexMap::new`: the new map has no entries.
#[verifier::external_body]
pub(crate) fn value_map_new() -> (m: IndexMap<String, Value>)
    ensures
        value_entries(m) == Seq::<(Seq<char>, ValueView)>::empty(),
{
    IndexMap::new()
}

/// `IndexMap::len`: the number of entries. A map holds each key once, so
/// the keys of these entries are pairwise distinct.
#[verifier::external_body]
pub(crate) fn value_map_len(m: &IndexMap<String, Value>) -> (n: usize)
    ensures
        n == value_entries(*m).len(),
        forall|i: int, j: int| 0 <= i < j < n ==> value_entries(*m)[i].0 != value_entries(*m)[j].0,
{
    m.len()
}

/// `IndexMap::insert`: where the key is present its entry keeps its place
/// and takes the new value, else the pair becomes the last entry.
#[verifier::external_body]
pub(crate) fn value_map_insert(m: &mut IndexMap<String, Value>, key: String, value: Value)
    ensures
        value_entries(*final(m)) == put(value_entries(*old(m)), key@, value.deep_view()),
{
    m.insert(key, value);
}

/// `IndexMap::get_index`: the entry at position `index`, `None` past the
/// end.
#[verifier::external_body]
pub(crate) fn value_map_get_index(m: &IndexMap<String, Value>, index: usize) -> (r: Option<
    (&String, &Value),
>)
    ensures
        r is Some <==> index < value_entries(*m).len(),
        r matches Some((k, v)) ==> k@ == value_entries(*m)[index as int].0 && v.deep_view()
            == value_entries(*m)[index as int].1,
{
    m.get_index(index)
}

/// `IndexMap::get`: the value stored for `key`, `None` where the key is
/// absent.
#[verifier::external_body]
pub(crate) fn value_map_get<'a>(m: &'a IndexMap<String, Value>, key: &str) -> (r: Option<&'a Value>)
    ensures
        r is Some <==> has_key(value_entries(*m), key@),
        r matches Some(v) ==> v.deep_view() == value_entries(*m)[position(
            value_entries(*m),
            key@,
        )].1,
{
    m.get(key)
}

/// `IndexMap::extend` with the entries of another map: each pair is
/// inserted in the other map's order.
#[verifier::external_body]
pub(crate) fn value_map_extend(m: &mut IndexMap<String, Value>, other: IndexMap<String, Value>)
    ensures
        value_entries(*final(m)) == put_all(value_entries(*old(m)), value_entries(other)),
{
    m.extend(other);
}

/// Whether every entry of `a` has its key in `b` with the same value.
pub open spec fn included<V>(a: Entries<V>, b: Entries<V>) -> bool {
    forall|i: int|
        0 <= i < a.len() ==> has_key(b, (#[trigger] a[i]).0) && b[position(b, a[i].0)].1 == a[i].1
}

/// Two entry sequences with distinct keys are the same map exactly where
/// each is included in the other.
pub proof fn same_map_by_inclusion<V>(a: Entries<V>, b: Entries<V>)
    requires
        distinct_keys(a),
        distinct_keys(b),
    ensures
        (included(a, b) && included(b, a)) <==> as_map(a) == as_map(b),
{
    if included(a, b) && included(b, a) {
        assert forall|k: Seq<char>| has_key(a, k) <==> has_key(b, k) by {
            if has_key(a, k) {
                let i = choose|i: int| 0 <= i < a.len() && #[trigger] a[i].0 == k;
                assert(has_key(b, a[i].0));
            }
            if has_key(b, k) {
                let i = choose|i: int| 0 <= i < b.len() && #[trigger] b[i].0 == k;
                assert(has_key(a, b[i].0));
            }
        }
        assert forall|k: Seq<char>| has_key(a, k) implies a[position(a, k)].1 == b[position(
            b,
            k,
        )].1 by {
            let i = choose|i: int| 0 <= i < a.len() && #[trigger] a[i].0 == k;
            position_of_entry(a, i);
            assert(b[position(b, a[i].0)].1 == a[i].1);
        }
        assert(as_map(a) =~= as_map(b));
    }
    if as_map(a) == as_map(b) {
        assert forall|i: int| 0 <= i < a.len() implies has_key(b, (#[trigger] a[i]).0) && b[position(
            b,
            a[i].0,
        )].1 == a[i].1 by {
            let k = a[i].0;
            assert(has_key(a, k));
            assert(as_map(a).dom().contains(k));
            assert(as_map(b).dom().contains(k));
            position_of_entry(a, i);
            assert(as_map(a)[k] == a[i].1);
            assert(as_map(b)[k] == b[position(b, k)].1);
        }
        assert forall|i: int| 0 <= i < b.len() implies has_key(a, (#[trigger] b[i]).0) && a[position(
            a,
            b[i].0,
        )].1 == b[i].1 by {
            let k = b[i].0;
            assert(has_key(b, k));
            assert(as_map(b).dom().contains(k));
            assert(as_map(a).dom().contains(k));
            position_of_entry(b, i);
            assert(as_map(b)[k] == b[i].1);
            assert(as_map(a)[k] == a[position(a, k)].1);
        }
    }
}

/// A map with the same entries in the same order.
pub(crate) fn copy_values(m: &IndexMap<String, Value>) -> (r: IndexMap<String, Value>)
    ensures
        value_entries(r) == value_entries(*m),
{
    let n = value_map_len(m);
    let mut out = value_map_new();
    let mut i: usize = 0;
    while i < n
        invariant
            i <= n,
            n == value_entries(*m).len(),
            distinct_keys(value_entries(*m)),
            value_entries(out) == value_entries(*m).take(i as int),
        decreases n - i,
    {
        let ghost all = value_entries(*m);
        let ghost before = value_entries(out);
        match value_map_get_index(m, i) {
            Some((k, v)) => {
                proof {
                    assert(!has_key(before, k@)) by {
                        if has_key(before, k@) {
                            let j = choose|j: int| 0 <= j < before.len() && #[trigger] before[j].0 == k@;
                            assert(all[j].0 == all[i as int].0);
                        }
                    }
                    put_new_key(before, k@, v.deep_view());
                    assert(before.push((k@, v.deep_view())) =~= all.take(i + 1));
                }
                value_map_insert(&mut out, k.clone(), v.duplicate());
            },
            None => {},
        }
        i = i + 1;
    }
    assert(value_entries(*m).take(n as int) =~= value_entries(*m));
    out
}

/// Whether every entry of `a` has its key in `b` with the same value.
pub(crate) fn values_included(a: &IndexMap<String, Value>, b: &IndexMap<String, Value>) -> (r: bool)
    ensures
        r == included(value_entries(*a), value_entries(*b)),
{
    let n = value_map_len(a);
    let mut i: usize = 0;
    while i < n
        invariant
            i <= n,
            n == value_entries(*a).len(),
            forall|j: int|
                0 <= j < i ==> has_key(value_entries(*b), (#[trigger] value_entries(*a)[j]).0)
                    && value_entries(*b)[position(value_entries(*b), value_entries(*a)[j].0)].1
                    == value_entries(*a)[j].1,
        decreases n - i,
    {
        match value_map_get_index(a, i) {
            Some((k, v)) => {
                match value_map_get(b, k.as_str()) {
                    Some(w) => {
                        if !v.same(w) {
                            assert(!(has_key(value_entries(*b), value_entries(*a)[i as int].0)
                                && value_entries(*b)[position(
                                value_entries(*b),
                                value_entries(*a)[i as int].0,
                            )].1 == value_entries(*a)[i as int].1));
                            return false;
                        }
                    },
                    None => {
                        assert(!has_key(value_entries(*b), value_entries(*a)[i as int].0));
                        return false;
                    },
                }
            },
            None => {},
        }
        i = i + 1;
    }
    true
}

/// Whether two maps hold the same keys with the same values, in any order.
pub(crate) fn same_values(a: &IndexMap<String, Value>, b: &IndexMap<String, Value>) -> (r: bool)
    ensures
        r == (as_map(value_entries(*a)) == as_map(value_entries(*b))),
{
    let n = value_map_len(a);
    let m = value_map_len(b);
    proof {
        same_map_by_inclusion(value_entries(*a), value_entries(*b));
    }
    if n == 0 && m == 0 {
        return true;
    }
    values_included(a, b) && values_included(b, a)
}

/// Putting entries with distinct keys, none of which occurs yet, appends
/// them.
pub proof fn put_all_appends<V>(s: Entries<V>, more: Entries<V>)
    requires
        distinct_keys(s + more),
    ensures
        put_all(s, more) == s + more,
    decreases more.len(),
{
    if more.len() == 0 {
        assert(s + more =~= s);
    } else {
        let first = more[0];
        let rest = more.subrange(1, more.len() as int);
        let all = s + more;
        assert(!has_key(s, first.0)) by {
            if has_key(s, first.0) {
                let j = choose|j: int| 0 <= j < s.len() && #[trigger] s[j].0 == first.0;
                assert(all[j] == s[j]);
                assert(all[s.len() as int] == first);
            }
        }
        put_new_key(s, first.0, first.1);
        assert(s.push(first) + rest =~= all);
        put_all_appends(s.push(first), rest);
    }
}

/// A list of pairs with the same content.
pub(crate) fn copy_pairs<T: Data>(pairs: &Vec<(&String, &T)>) -> (r: Vec<(String, T)>)
    ensures
        r.deep_view() == pairs.deep_view(),
{
    let mut out: Vec<(String, T)> = Vec::new();
    let mut i: usize = 0;
    while i < pairs.len()
        invariant
            i <= pairs.len(),
            out.len() == i,
            forall|k: int| 0 <= k < i ==> (#[trigger] out@[k]).deep_view() == pairs@[k].deep_view(),
        decreases pairs.len() - i,
    {
        out.push((pairs[i].0.clone(), pairs[i].1.duplicate()));
        i = i + 1;
    }
    assert(out.deep_view() =~= pairs.deep_view());
    out
}

/// Whether every pair of `a` has its key in `b` with the same value.
pub(crate) fn pairs_included<T: Data>(a: &Vec<(&String, &T)>, b: &Vec<(&String, &T)>) -> (r: bool)
    ensures
        r == included(a.deep_view(), b.deep_view()),
{
    let ghost av = a.deep_view();
    let ghost bv = b.deep_view();
    let mut i: usize = 0;
    while i < a.len()
        invariant
            i <= a.len(),
            av == a.deep_view(),
            bv == b.deep_view(),
            forall|j: int|
                0 <= j < i ==> has_key(bv, (#[trigger] av[j]).0) && bv[position(bv, av[j].0)].1
                    == av[j].1,
        decreases a.len() - i,
    {
        let mut k: usize = 0;
        while k < b.len() && !(*b[k].0 == *a[i].0)
            invariant
                k <= b.len(),
                i < a.len(),
                av == a.deep_view(),
                bv == b.deep_view(),
                forall|j: int| 0 <= j < k ==> (#[trigger] bv[j]).0 != av[i as int].0,
            decreases b.len() - k,
        {
            k = k + 1;
        }
        proof {
            position_is_first(bv, av[i as int].0);
            let p = position(bv, av[i as int].0);
            if k < b.len() {
                assert(bv[k as int].0 == av[i as int].0);
                if p < k {
                    assert(bv[p].0 != av[i as int].0);
                }
                assert(p == k);
            } else {
                if p < bv.len() {
                    assert(bv[p].0 != av[i as int].0);
                }
                assert(!has_key(bv, av[i as int].0));
            }
        }
        if k == b.len() {
            return false;
        }
        if !a[i].1.same(b[k].1) {
            return false;
        }
        i = i + 1;
    }
    true
}

/// Whether two lists of pairs with distinct keys are the same map.
pub(crate) fn same_pairs<T: Data>(a: &Vec<(&String, &T)>, b: &Vec<(&String, &T)>) -> (r: bool)
    requires
        distinct_keys(a.deep_view()),
        distinct_keys(b.deep_view()),
    ensures
        r == (as_map(a.deep_view()) == as_map(b.deep_view())),
{
    proof {
        same_map_by_inclusion(a.deep_view(), b.deep_view());
    }
    pairs_included(a, b) && pairs_included(b, a)
}

/// The entries of a map of texts, in their order.
pub uninterp spec fn string_entries(m: IndexMap<String, String>) -> Entries<Seq<char>>;

/// `IndexMap::iter`, collected: the entries in their order. A map holds
/// each key once, so the keys are pairwise distinct.
#[verifier::external_body]
pub(crate) fn string_pairs(m: &IndexMap<String, String>) -> (r: Vec<(&String, &String)>)
    ensures
        r.deep_view() == string_entries(*m),
        forall|i: int, j: int| 0 <= i < j < r.len() ==> r.deep_view()[i].0 != r.deep_view()[j].0,
{
    m.iter().collect()
}

/// `IndexMap::from_iter`: the map that holds the pairs, each inserted in
/// the order of the list.
#[verifier::external_body]
pub(crate) fn strings_from_pairs(pairs: Vec<(String, String)>) -> (m: IndexMap<String, String>)
    ensures
        string_entries(m) == put_all(Seq::empty(), pairs.deep_view()),
{
    pairs.into_iter().collect()
}

/// The entries of a map of containers, in their order.
pub uninterp spec fn container_entries(m: IndexMap<String, Container>) -> Entries<ContainerView>;

/// `IndexMap::iter`, collected: the entries in their order. A map holds
/// each key once, so the keys are pairwise distinct.
#[verifier::external_body]
pub(crate) fn container_pairs(m: &IndexMap<String, Container>) -> (r: Vec<(&String, &Container)>)
    ensures
        r.deep_view() == container_entries(*m),
        forall|i: int, j: int| 0 <= i < j < r.len() ==> r.deep_view()[i].0 != r.deep_view()[j].0,
{
    m.iter().collect()
}

/// `IndexMap::from_iter`: the map that holds the pairs, each inserted in
/// the order of the list.
#[verifier::external_body]
pub(crate) fn containers_from_pairs(pairs: Vec<(String, Container)>) -> (m: IndexMap<
    String,
    Container,
>)
    ensures
        container_entries(m) == put_all(Seq::empty(), pairs.deep_view()),
{
    pairs.into_iter().collect()
}

/// The entries of a map of secrets, in their order.
pub uninterp spec fn secret_entries(m: IndexMap<String, Secret>) -> Entries<SecretView>;

/// `IndexMap::iter`, collected: the entries in their order. A map holds
/// each key once, so the keys are pairwise distinct.
#[verifier::external_body]
pub(crate) fn secret_pairs(m: &IndexMap<String, Secret>) -> (r: Vec<(&String, &Secret)>)
    ensures
        r.deep_view() == secret_entries(*m),
        forall|i: int, j: int| 0 <= i < j < r.len() ==> r.deep_view()[i].0 != r.deep_view()[j].0,
{
    m.iter().collect()
}

/// `IndexMap::from_iter`: the map that holds the pairs, each inserted in
/// the order of the list.
#[verifier::external_body]
pub(crate) fn secrets_from_pairs(pairs: Vec<(String, Secret)>) -> (m: IndexMap<String, Secret>)
    ensures
        secret_entries(m) == put_all(Seq::empty(), pairs.deep_view()),
{
    pairs.into_iter().collect()
}

/// The outputs of a job by their names.
#[derive(Debug, PartialEq, Eq)]
pub struct Outputs(pub IndexMap<String, String>);

/// The service containers of a job by their names.
#[derive(Debug, PartialEq, Eq)]
pub struct Services(pub IndexMap<String, Container>);

/// The secrets of a workflow or a job by their names.
#[derive(Debug, PartialEq, Eq)]
pub struct Secrets(pub IndexMap<String, Secret>);

impl DeepView for Outputs {
    type V = Map<Seq<char>, Seq<char>>;

    open spec fn deep_view(&self) -> Map<Seq<char>, Seq<char>> {
        as_map(self.entries())
    }
}

impl Outputs {
    /// The names with what they stand for, in order.
    pub open spec fn entries(&self) -> Entries<Seq<char>> {
        string_entries(self.0)
    }
}

impl Default for Outputs {
    fn default() -> (r: Outputs)
        ensures
            r.entries() == Seq::<(Seq<char>, Seq<char>)>::empty(),
    {
        let pairs: Vec<(String, String)> = Vec::new();
        assert(pairs.deep_view() =~= Seq::<(Seq<char>, Seq<char>)>::empty());
        Outputs(strings_from_pairs(pairs))
    }
}

impl Data for Outputs {
    fn duplicate(&self) -> (r: Outputs)
        ensures
            r.entries() == self.entries(),
    {
        let pairs = string_pairs(&self.0);
        proof {
            assert(Seq::<(Seq<char>, Seq<char>)>::empty() + pairs.deep_view() =~= pairs.deep_view());
            put_all_appends(Seq::empty(), pairs.deep_view());
        }
        Outputs(strings_from_pairs(copy_pairs(&pairs)))
    }

    fn same(&self, other: &Outputs) -> (r: bool) {
        let a = string_pairs(&self.0);
        let b = string_pairs(&other.0);
        same_pairs(&a, &b)
    }
}

impl Clone for Outputs {
    fn clone(&self) -> (r: Outputs)
        ensures
            r.entries() == self.entries(),
    {
        self.duplicate()
    }
}

impl DeepView for Services {
    type V = Map<Seq<char>, ContainerView>;

    open spec fn deep_view(&self) -> Map<Seq<char>, ContainerView> {
        as_map(self.entries())
    }
}

impl Services {
    /// The names with what they stand for, in order.
    pub open spec fn entries(&self) -> Entries<ContainerView> {
        container_entries(self.0)
    }
}

impl Default for Services {
    fn default() -> (r: Services)
        ensures
            r.entries() == Seq::<(Seq<char>, ContainerView)>::empty(),
    {
        let pairs: Vec<(String, Container)> = Vec::new();
        assert(pairs.deep_view() =~= Seq::<(Seq<char>, ContainerView)>::empty());
        Services(containers_from_pairs(pairs))
    }
}

impl Data for Services {
    fn duplicate(&self) -> (r: Services)
        ensures
            r.entries() == self.entries(),
    {
        let pairs = container_pairs(&self.0);
        proof {
            assert(Seq::<(Seq<char>, ContainerView)>::empty() + pairs.deep_view() =~= pairs.deep_view());
            put_all_appends(Seq::empty(), pairs.deep_view());
        }
        Services(containers_from_pairs(copy_pairs(&pairs)))
    }

    fn same(&self, other: &Services) -> (r: bool) {
        let a = container_pairs(&self.0);
        let b = container_pairs(&other.0);
        same_pairs(&a, &b)
    }
}

impl Clone for Services {
    fn clone(&self) -> (r: Services)
        ensures
            r.entries() == self.entries(),
    {
        self.duplicate()
    }
}

impl DeepView for Secrets {
    type V = Map<Seq<char>, SecretView>;

    open spec fn deep_view(&self) -> Map<Seq<char>, SecretView> {
        as_map(self.entries())
    }
}

impl Secrets {
    /// The names with what they stand for, in order.
    pub open spec fn entries(&self) -> Entries<SecretView> {
        secret_entries(self.0)
    }
}

impl Default for Secrets {
    fn default() -> (r: Secrets)
        ensures
            r.entries() == Seq::<(Seq<char>, SecretView)>::empty(),
    {
        let pairs: Vec<(String, Secret)> = Vec::new();
        assert(pairs.deep_view() =~= Seq::<(Seq<char>, SecretView)>::empty());
        Secrets(secrets_from_pairs(pairs))
    }
}

impl Data for Secrets {
    fn duplicate(&self) -> (r: Secrets)
        ensures
            r.entries() == self.entries(),
    {
        let pairs = secret_pairs(&self.0);
        proof {
            assert(Seq::<(Seq<char>, SecretView)>::empty() + pairs.deep_view() =~= pairs.deep_view());
            put_all_appends(Seq::empty(), pairs.deep_view());
        }
        Secrets(secrets_from_pairs(copy_pairs(&pairs)))
    }

    fn same(&self, other: &Secrets) -> (r: bool) {
        let a = secret_pairs(&self.0);
        let b = secret_pairs(&other.0);
        same_pairs(&a, &b)
    }
}

impl Clone for Secrets {
    fn clone(&self) -> (r: Secrets)
        ensures
            r.entries() == self.entries(),
    {
        self.duplicate()
    }
}

} // verus!
