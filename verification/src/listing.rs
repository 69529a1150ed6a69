//! Sorted listings of string sets and string maps, and the diagnostic text a
//! sorted set or map of strings prints with `{:?}`.

use vstd::prelude::*;

use crate::text::{str_eq, str_less, str_less_from, str_lt, strs};

verus! {

proof fn lemma_less_from_irreflexive(a: Seq<char>, i: int)
    requires
        0 <= i,
    ensures
        !str_less_from(a, a, i),
    decreases a.len() - i,
{
    if i < a.len() {
        lemma_less_from_irreflexive(a, i + 1);
    }
}

proof fn lemma_less_from_transitive(a: Seq<char>, b: Seq<char>, c: Seq<char>, i: int)
    requires
        0 <= i,
        str_less_from(a, b, i),
        str_less_from(b, c, i),
    ensures
        str_less_from(a, c, i),
    decreases a.len() - i,
{
    if i < a.len() && i < b.len() && i < c.len() && a[i] == b[i] && b[i] == c[i] {
        lemma_less_from_transitive(a, b, c, i + 1);
    }
}

proof fn lemma_less_from_total(a: Seq<char>, b: Seq<char>, i: int)
    requires
        0 <= i <= a.len(),
        i <= b.len(),
    ensures
        str_less_from(a, b, i) || str_less_from(b, a, i) || (a.len() == b.len() && forall|j: int|
            i <= j < a.len() ==> a[j] == b[j]),
    decreases a.len() - i,
{
    if i < a.len() && i < b.len() && a[i] == b[i] {
        lemma_less_from_total(a, b, i + 1);
    }
}

proof fn lemma_less_irreflexive(a: Seq<char>)
    ensures
        !str_less(a, a),
{
    lemma_less_from_irreflexive(a, 0);
}

proof fn lemma_less_transitive(a: Seq<char>, b: Seq<char>, c: Seq<char>)
    requires
        str_less(a, b),
        str_less(b, c),
    ensures
        str_less(a, c),
{
    lemma_less_from_transitive(a, b, c, 0);
}

proof fn lemma_less_total(a: Seq<char>, b: Seq<char>)
    requires
        a != b,
    ensures
        str_less(a, b) || str_less(b, a),
{
    lemma_less_from_total(a, b, 0);
    if !str_less(a, b) && !str_less(b, a) {
        assert(a =~= b);
    }
}

/// Every string of `s` orders strictly before every later one.
pub open spec fn strictly_sorted(s: Seq<Seq<char>>) -> bool {
    forall|i: int, j: int| 0 <= i < j < s.len() ==> str_less(#[trigger] s[i], #[trigger] s[j])
}

/// The strings of a set, each once, in increasing order: the order in which
/// a sorted set of strings iterates.
pub open spec fn sorted_listing(s: Set<Seq<char>>) -> Seq<Seq<char>> {
    choose|l: Seq<Seq<char>>| strictly_sorted(l) && l.to_set() == s
}

proof fn lemma_sorted_drop_first(a: Seq<Seq<char>>)
    requires
        strictly_sorted(a),
        a.len() > 0,
    ensures
        strictly_sorted(a.drop_first()),
        forall|x: Seq<char>|
            a.drop_first().contains(x) <==> (a.contains(x) && x != a[0]),
{
    let d = a.drop_first();
    assert forall|i: int, j: int| 0 <= i < j < d.len() implies str_less(#[trigger] d[i], #[trigger] d[j]) by {
        assert(d[i] == a[i + 1]);
        assert(d[j] == a[j + 1]);
    }
    assert forall|x: Seq<char>| d.contains(x) <==> (a.contains(x) && x != a[0]) by {
        if d.contains(x) {
            let k = choose|k: int| 0 <= k < d.len() && d[k] == x;
            assert(a[k + 1] == x);
            assert(str_less(a[0], a[k + 1]));
            lemma_less_irreflexive(a[0]);
        }
        if a.contains(x) && x != a[0] {
            let k = choose|k: int| 0 <= k < a.len() && a[k] == x;
            assert(k != 0);
            assert(d[k - 1] == x);
        }
    }
}

proof fn lemma_sorted_unique(a: Seq<Seq<char>>, b: Seq<Seq<char>>)
    requires
        strictly_sorted(a),
        strictly_sorted(b),
        a.to_set() == b.to_set(),
    ensures
        a == b,
    decreases a.len(),
{
    if a.len() == 0 {
        if b.len() > 0 {
            assert(b.to_set().contains(b[0]));
            assert(!a.contains(b[0]));
        }
        assert(a =~= b);
    } else {
        assert(a.to_set().contains(a[0]));
        assert(b.contains(a[0]));
        assert(b.len() > 0);
        assert(b.to_set().contains(b[0]));
        assert(a.contains(b[0]));
        if a[0] != b[0] {
            let k = choose|k: int| 0 <= k < b.len() && b[k] == a[0];
            let m = choose|m: int| 0 <= m < a.len() && a[m] == b[0];
            assert(k != 0);
            assert(m != 0);
            assert(str_less(b[0], b[k]));
            assert(str_less(a[0], a[m]));
            lemma_less_transitive(a[0], b[0], a[0]);
            lemma_less_irreflexive(a[0]);
        }
        lemma_sorted_drop_first(a);
        lemma_sorted_drop_first(b);
        assert forall|x: Seq<char>| a.drop_first().contains(x) <==> b.drop_first().contains(x) by {
            assert(a.to_set().contains(x) == a.contains(x));
            assert(b.to_set().contains(x) == b.contains(x));
            assert(a.to_set().contains(x) == b.to_set().contains(x));
        }
        assert(a.drop_first().to_set() =~= b.drop_first().to_set());
        lemma_sorted_unique(a.drop_first(), b.drop_first());
        assert(a.len() == b.len());
        assert forall|i: int| 0 <= i < a.len() implies a[i] == b[i] by {
            if i > 0 {
                assert(a[i] == a.drop_first()[i - 1]);
                assert(b[i] == b.drop_first()[i - 1]);
            }
        }
        assert(a =~= b);
    }
}

/// A strictly increasing list is the sorted listing of its own elements.
proof fn lemma_sorted_listing(l: Seq<Seq<char>>)
    requires
        strictly_sorted(l),
    ensures
        sorted_listing(l.to_set()) == l,
{
    assert(strictly_sorted(l) && l.to_set() == l.to_set());
    let c = sorted_listing(l.to_set());
    assert(strictly_sorted(c) && c.to_set() == l.to_set());
    lemma_sorted_unique(c, l);
}

/// Two sets of strings are equal exactly when their sorted listings are.
proof fn lemma_listing_determines_set(a: Seq<Seq<char>>, b: Seq<Seq<char>>)
    requires
        strictly_sorted(a),
        strictly_sorted(b),
    ensures
        (a == b) <==> (a.to_set() == b.to_set()),
{
    if a.to_set() == b.to_set() {
        lemma_sorted_unique(a, b);
    }
}

/// Inserts `x` into a strictly increasing list unless it is already there.
fn insert_sorted(list: &mut Vec<&'static str>, x: &'static str)
    requires
        strictly_sorted(strs(old(list)@)),
    ensures
        strictly_sorted(strs(final(list)@)),
        strs(final(list)@).to_set() == strs(old(list)@).to_set().insert(x@),
{
    let ghost before = strs(list@);
    let mut i: usize = 0;
    while i < list.len() && str_lt(list[i], x)
        invariant
            i <= list@.len(),
            strs(list@) == before,
            forall|j: int| 0 <= j < i ==> str_less(#[trigger] before[j], x@),
        decreases list@.len() - i,
    {
        i = i + 1;
    }
    if i < list.len() && str_eq(list[i], x) {
        proof {
            assert(before[i as int] == x@);
            assert(before.contains(x@));
            assert(before.to_set().insert(x@) =~= before.to_set());
        }
        return;
    }
    proof {
        if i < list@.len() {
            assert(!str_less(before[i as int], x@));
            assert(before[i as int] != x@);
            lemma_less_total(before[i as int], x@);
        }
    }
    list.insert(i, x);
    proof {
        let after = strs(list@);
        let n = before.len();
        assert(after.len() == n + 1);
        assert forall|j: int| 0 <= j < i implies #[trigger] after[j] == before[j] by {
            assert(list@[j] == old(list)@[j]);
        }
        assert(after[i as int] == x@);
        assert forall|j: int| i < j <= n implies #[trigger] after[j] == before[j - 1] by {
            assert(list@[j] == old(list)@[j - 1]);
        }
        assert forall|p: int, q: int| 0 <= p < q < after.len() implies str_less(
            #[trigger] after[p],
            #[trigger] after[q],
        ) by {
            if q < i {
                assert(str_less(before[p], before[q]));
            } else if q == i {
                assert(str_less(before[p], x@));
            } else if p < i {
                assert(str_less(before[p], x@));
                assert(str_less(x@, before[i as int]));
                if q - 1 > i {
                    assert(str_less(before[i as int], before[q - 1]));
                    lemma_less_transitive(x@, before[i as int], before[q - 1]);
                }
                lemma_less_transitive(before[p], x@, before[q - 1]);
            } else if p == i {
                assert(str_less(x@, before[i as int]));
                if q - 1 > i {
                    assert(str_less(before[i as int], before[q - 1]));
                    lemma_less_transitive(x@, before[i as int], before[q - 1]);
                }
            } else {
                assert(str_less(before[p - 1], before[q - 1]));
            }
        }
        assert forall|y: Seq<char>| after.contains(y) <==> (before.contains(y) || y == x@) by {
            if after.contains(y) {
                let k = choose|k: int| 0 <= k < after.len() && after[k] == y;
                if k < i {
                    assert(before[k] == y);
                } else if k > i {
                    assert(before[k - 1] == y);
                }
            }
            if before.contains(y) {
                let k = choose|k: int| 0 <= k < before.len() && before[k] == y;
                if k < i {
                    assert(after[k] == y);
                } else {
                    assert(after[k + 1] == y);
                }
            }
            if y == x@ {
                assert(after[i as int] == y);
            }
        }
        assert(after.to_set() =~= before.to_set().insert(x@));
    }
}

/// The distinct strings of a list, in increasing order.
pub fn sorted_distinct(v: &Vec<&'static str>) -> (r: Vec<&'static str>)
    ensures
        strictly_sorted(strs(r@)),
        strs(r@).to_set() == strs(v@).to_set(),
        strs(r@) == sorted_listing(strs(v@).to_set()),
{
    let mut out: Vec<&'static str> = Vec::new();
    let mut i: usize = 0;
    while i < v.len()
        invariant
            i <= v@.len(),
            strictly_sorted(strs(out@)),
            strs(out@).to_set() == strs(v@).take(i as int).to_set(),
        decreases v@.len() - i,
    {
        insert_sorted(&mut out, v[i]);
        proof {
            let s0 = strs(v@).take(i as int);
            let s1 = strs(v@).take(i + 1);
            assert(s1 =~= s0.push(v@[i as int]@));
            assert forall|y: Seq<char>| s1.contains(y) <==> (s0.contains(y) || y == v@[i as int]@) by {
                if s1.contains(y) {
                    let k = choose|k: int| 0 <= k < s1.len() && s1[k] == y;
                    if k < i {
                        assert(s0[k] == y);
                    }
                }
                if s0.contains(y) {
                    let k = choose|k: int| 0 <= k < s0.len() && s0[k] == y;
                    assert(s1[k] == y);
                }
                if y == v@[i as int]@ {
                    assert(s1[i as int] == y);
                }
            }
            assert(s1.to_set() =~= s0.to_set().insert(v@[i as int]@));
        }
        i = i + 1;
    }
    proof {
        assert(strs(v@).take(v@.len() as int) =~= strs(v@));
        lemma_sorted_listing(strs(out@));
    }
    out
}

/// What `<str as Debug>` prints for a string: the string between double
/// quotes, each character escaped as `char::escape_debug` escapes it. It is a
/// function of the string alone.
pub uninterp spec fn str_debug(s: Seq<char>) -> Seq<char>;

/// Formats a string slice with `{:?}`, std's `Debug` for `str`. The contract
/// names the result (`str_debug`) and says nothing more of it: the escaping
/// rules follow Unicode tables that are not restated here.
#[verifier::external_body]
fn debug_str(s: &str) -> (r: String)
    ensures
        r@ == str_debug(s@),
{
    format!("{:?}", s)
}

/// Strings rendered by `str_debug`, separated by `", "`.
pub open spec fn debug_items(l: Seq<Seq<char>>) -> Seq<char>
    decreases l.len(),
{
    if l.len() == 0 {
        Seq::empty()
    } else if l.len() == 1 {
        str_debug(l[0])
    } else {
        debug_items(l.drop_last()) + ", "@ + str_debug(l.last())
    }
}

/// What a sorted set of strings prints with `{:?}`: its strings in
/// increasing order, rendered by `str_debug`, between braces.
pub open spec fn set_debug(s: Set<Seq<char>>) -> Seq<char> {
    "{"@ + debug_items(sorted_listing(s)) + "}"@
}

fn push_debug_items(out: &mut String, l: &Vec<&'static str>)
    ensures
        final(out)@ == old(out)@ + debug_items(strs(l@)),
{
    let mut i: usize = 0;
    while i < l.len()
        invariant
            i <= l@.len(),
            out@ == old(out)@ + debug_items(strs(l@).take(i as int)),
        decreases l@.len() - i,
    {
        let ghost t = strs(l@).take(i + 1);
        proof {
            assert(t.drop_last() =~= strs(l@).take(i as int));
            assert(t.last() == l@[i as int]@);
            assert(t.len() == i + 1);
        }
        if i > 0 {
            out.append(", ");
        }
        let item = debug_str(l[i]);
        out.append(item.as_str());
        proof {
            reveal_strlit(", ");
            if i == 0 {
                assert(t[0] == t.last());
                assert(strs(l@).take(0) =~= Seq::<Seq<char>>::empty());
                assert(out@ =~= old(out)@ + debug_items(t));
            } else {
                assert(out@ =~= old(out)@ + debug_items(t));
            }
        }
        i = i + 1;
    }
    proof {
        assert(strs(l@).take(l@.len() as int) =~= strs(l@));
    }
}

/// The text a sorted set of the given strings prints with `{:?}`.
pub fn set_debug_string(v: &Vec<&'static str>) -> (r: String)
    ensures
        r@ == set_debug(strs(v@).to_set()),
{
    let sorted = sorted_distinct(v);
    let mut out = String::from_str("{");
    push_debug_items(&mut out, &sorted);
    out.append("}");
    proof {
        reveal_strlit("{");
        reveal_strlit("}");
        assert(out@ =~= set_debug(strs(v@).to_set()));
    }
    out
}

/// Whether two lists hold the same strings, ignoring order and repeats.
pub fn same_string_set(a: &Vec<&'static str>, b: &Vec<&'static str>) -> (r: bool)
    ensures
        r == (strs(a@).to_set() == strs(b@).to_set()),
{
    let sa = sorted_distinct(a);
    let sb = sorted_distinct(b);
    let r = crate::text::strs_eq(&sa, &sb);
    proof {
        lemma_sorted_listing(strs(sa@));
        lemma_sorted_listing(strs(sb@));
        lemma_listing_determines_set(strs(sa@), strs(sb@));
    }
    r
}

/// The map a list of key/value pairs collects into, a later pair replacing
/// an earlier one with the same key.
pub open spec fn pairs_map(s: Seq<(Seq<char>, Seq<char>)>) -> Map<Seq<char>, Seq<char>>
    decreases s.len(),
{
    if s.len() == 0 {
        Map::empty()
    } else {
        pairs_map(s.drop_last()).insert(s.last().0, s.last().1)
    }
}

/// Character sequences of a list of string-slice pairs.
pub open spec fn pair_views(v: Seq<(&'static str, &'static str)>) -> Seq<(Seq<char>, Seq<char>)> {
    v.map_values(|p: (&'static str, &'static str)| (p.0@, p.1@))
}

/// Keys of a list of string-slice pairs.
pub open spec fn pair_keys(v: Seq<(&'static str, &'static str)>) -> Seq<Seq<char>> {
    v.map_values(|p: (&'static str, &'static str)| p.0@)
}

/// `entries` lists the map `m`: their keys are the keys of `m`, each with
/// `m`'s value for it.
pub open spec fn lists_map(entries: Seq<(&'static str, &'static str)>, m: Map<Seq<char>, Seq<char>>) -> bool {
    &&& pair_keys(entries).to_set() == m.dom()
    &&& forall|j: int| 0 <= j < entries.len() ==> m[(#[trigger] entries[j]).0@] == entries[j].1@
}

/// Sets the value of key `k` in a list of entries with strictly increasing
/// keys, inserting the key in order when it is absent.
fn insert_sorted_entry(
    list: &mut Vec<(&'static str, &'static str)>,
    k: &'static str,
    v: &'static str,
    Ghost(m): Ghost<Map<Seq<char>, Seq<char>>>,
)
    requires
        strictly_sorted(pair_keys(old(list)@)),
        lists_map(old(list)@, m),
    ensures
        strictly_sorted(pair_keys(final(list)@)),
        lists_map(final(list)@, m.insert(k@, v@)),
{
    let ghost before = pair_keys(list@);
    let ghost old_list = list@;
    let mut i: usize = 0;
    while i < list.len() && str_lt(list[i].0, k)
        invariant
            i <= list@.len(),
            list@ == old_list,
            pair_keys(list@) == before,
            forall|j: int| 0 <= j < i ==> str_less(#[trigger] before[j], k@),
        decreases list@.len() - i,
    {
        i = i + 1;
    }
    let m2 = Ghost(m.insert(k@, v@));
    if i < list.len() && str_eq(list[i].0, k) {
        list.set(i, (k, v));
        proof {
            let after = pair_keys(list@);
            assert(after =~= before);
            assert(before[i as int] == k@);
            assert(before.contains(k@));
            assert(m.dom().contains(k@));
            assert(m2@.dom() =~= m.dom());
            assert forall|j: int| 0 <= j < list@.len() implies m2@[(#[trigger] list@[j]).0@] == list@[j].1@ by {
                if j != i {
                    assert(list@[j] == old_list[j]);
                    assert(before[j] == old_list[j].0@);
                    if j < i {
                        assert(str_less(before[j], before[i as int]));
                    } else {
                        assert(str_less(before[i as int], before[j]));
                    }
                    lemma_less_irreflexive(before[j]);
                    assert(m[old_list[j].0@] == old_list[j].1@);
                }
            }
        }
        return;
    }
    proof {
        if i < list@.len() {
            assert(!str_less(before[i as int], k@));
            assert(before[i as int] != k@);
            lemma_less_total(before[i as int], k@);
        }
    }
    list.insert(i, (k, v));
    proof {
        let after = pair_keys(list@);
        let n = before.len();
        assert(after.len() == n + 1);
        assert forall|j: int| 0 <= j < i implies #[trigger] list@[j] == old_list[j] by {}
        assert forall|j: int| i < j <= n implies #[trigger] list@[j] == old_list[j - 1] by {}
        assert forall|j: int| 0 <= j < i implies #[trigger] after[j] == before[j] by {
            assert(list@[j] == old_list[j]);
        }
        assert(after[i as int] == k@);
        assert forall|j: int| i < j <= n implies #[trigger] after[j] == before[j - 1] by {
            assert(list@[j] == old_list[j - 1]);
        }
        assert forall|p: int, q: int| 0 <= p < q < after.len() implies str_less(
            #[trigger] after[p],
            #[trigger] after[q],
        ) by {
            if q < i {
                assert(str_less(before[p], before[q]));
            } else if q == i {
                assert(str_less(before[p], k@));
            } else if p < i {
                assert(str_less(before[p], k@));
                assert(str_less(k@, before[i as int]));
                if q - 1 > i {
                    assert(str_less(before[i as int], before[q - 1]));
                    lemma_less_transitive(k@, before[i as int], before[q - 1]);
                }
                lemma_less_transitive(before[p], k@, before[q - 1]);
            } else if p == i {
                assert(str_less(k@, before[i as int]));
                if q - 1 > i {
                    assert(str_less(before[i as int], before[q - 1]));
                    lemma_less_transitive(k@, before[i as int], before[q - 1]);
                }
            } else {
                assert(str_less(before[p - 1], before[q - 1]));
            }
        }
        assert forall|y: Seq<char>| after.contains(y) <==> (before.contains(y) || y == k@) by {
            if after.contains(y) {
                let w = choose|w: int| 0 <= w < after.len() && after[w] == y;
                if w < i {
                    assert(before[w] == y);
                } else if w > i {
                    assert(before[w - 1] == y);
                }
            }
            if before.contains(y) {
                let w = choose|w: int| 0 <= w < before.len() && before[w] == y;
                if w < i {
                    assert(after[w] == y);
                } else {
                    assert(after[w + 1] == y);
                }
            }
            if y == k@ {
                assert(after[i as int] == y);
            }
        }
        assert(after.to_set() =~= m2@.dom());
        assert forall|j: int| 0 <= j < list@.len() implies m2@[(#[trigger] list@[j]).0@] == list@[j].1@ by {
            if j < i {
                assert(str_less(before[j], k@));
                lemma_less_irreflexive(k@);
                assert(m[old_list[j].0@] == old_list[j].1@);
            } else if j > i {
                assert(str_less(k@, before[j - 1])) by {
                    if j - 1 > i {
                        assert(str_less(before[i as int], before[j - 1]));
                        lemma_less_transitive(k@, before[i as int], before[j - 1]);
                    }
                }
                lemma_less_irreflexive(k@);
                assert(m[old_list[j - 1].0@] == old_list[j - 1].1@);
            }
        }
    }
}

/// The entries of the map a list of pairs collects into, keys in increasing
/// order.
fn sorted_entries(pairs: &Vec<(&'static str, &'static str)>) -> (r: Vec<(&'static str, &'static str)>)
    ensures
        strictly_sorted(pair_keys(r@)),
        lists_map(r@, pairs_map(pair_views(pairs@))),
{
    let mut out: Vec<(&'static str, &'static str)> = Vec::new();
    let mut i: usize = 0;
    proof {
        assert(pair_keys(out@).to_set() =~= pairs_map(pair_views(pairs@).take(0)).dom());
    }
    while i < pairs.len()
        invariant
            i <= pairs@.len(),
            strictly_sorted(pair_keys(out@)),
            lists_map(out@, pairs_map(pair_views(pairs@).take(i as int))),
        decreases pairs@.len() - i,
    {
        let ghost m = pairs_map(pair_views(pairs@).take(i as int));
        insert_sorted_entry(&mut out, pairs[i].0, pairs[i].1, Ghost(m));
        proof {
            let t = pair_views(pairs@).take(i + 1);
            assert(t.drop_last() =~= pair_views(pairs@).take(i as int));
            assert(t.last() == (pairs@[i as int].0@, pairs@[i as int].1@));
        }
        i = i + 1;
    }
    proof {
        assert(pair_views(pairs@).take(pairs@.len() as int) =~= pair_views(pairs@));
    }
    out
}

proof fn lemma_entries_determine_map(
    a: Seq<(&'static str, &'static str)>,
    b: Seq<(&'static str, &'static str)>,
    ma: Map<Seq<char>, Seq<char>>,
    mb: Map<Seq<char>, Seq<char>>,
)
    requires
        strictly_sorted(pair_keys(a)),
        strictly_sorted(pair_keys(b)),
        lists_map(a, ma),
        lists_map(b, mb),
    ensures
        (pair_views(a) == pair_views(b)) <==> (ma == mb),
{
    if ma == mb {
        lemma_sorted_unique(pair_keys(a), pair_keys(b));
        assert forall|j: int| 0 <= j < a.len() implies pair_views(a)[j] == pair_views(b)[j] by {
            assert(pair_keys(a)[j] == pair_keys(b)[j]);
            assert(ma[a[j].0@] == a[j].1@);
            assert(mb[b[j].0@] == b[j].1@);
        }
        assert(pair_views(a) =~= pair_views(b));
    }
    if pair_views(a) == pair_views(b) {
        assert(pair_views(a).len() == a.len());
        assert(pair_views(b).len() == b.len());
        assert(pair_keys(a) =~= pair_keys(b)) by {
            assert forall|j: int| 0 <= j < a.len() implies pair_keys(a)[j] == pair_keys(b)[j] by {
                assert(pair_views(a)[j] == pair_views(b)[j]);
                assert(pair_views(a)[j].0 == pair_keys(a)[j]);
                assert(pair_views(b)[j].0 == pair_keys(b)[j]);
            }
        }
        assert(ma.dom() =~= mb.dom());
        assert forall|x: Seq<char>| ma.dom().contains(x) implies ma[x] == mb[x] by {
            assert(pair_keys(a).contains(x));
            let j = choose|j: int| 0 <= j < pair_keys(a).len() && pair_keys(a)[j] == x;
            assert(pair_views(a)[j] == pair_views(b)[j]);
            assert(ma[a[j].0@] == a[j].1@);
            assert(mb[b[j].0@] == b[j].1@);
        }
        assert(ma =~= mb);
    }
}

fn same_pairs(a: &Vec<(&'static str, &'static str)>, b: &Vec<(&'static str, &'static str)>) -> (r: bool)
    ensures
        r == (pair_views(a@) == pair_views(b@)),
{
    if a.len() != b.len() {
        proof {
            assert(pair_views(a@).len() != pair_views(b@).len());
        }
        return false;
    }
    let mut i: usize = 0;
    while i < a.len()
        invariant
            a@.len() == b@.len(),
            i <= a@.len(),
            forall|j: int| 0 <= j < i ==> pair_views(a@)[j] == pair_views(b@)[j],
        decreases a@.len() - i,
    {
        if !str_eq(a[i].0, b[i].0) || !str_eq(a[i].1, b[i].1) {
            proof {
                assert(pair_views(a@)[i as int] != pair_views(b@)[i as int]);
            }
            return false;
        }
        i = i + 1;
    }
    proof {
        assert(pair_views(a@) =~= pair_views(b@));
    }
    true
}

/// Whether two lists of pairs collect into the same map.
pub fn same_string_map(a: &Vec<(&'static str, &'static str)>, b: &Vec<(&'static str, &'static str)>) -> (r:
    bool)
    ensures
        r == (pairs_map(pair_views(a@)) == pairs_map(pair_views(b@))),
{
    let sa = sorted_entries(a);
    let sb = sorted_entries(b);
    let r = same_pairs(&sa, &sb);
    proof {
        lemma_entries_determine_map(sa@, sb@, pairs_map(pair_views(a@)), pairs_map(pair_views(b@)));
    }
    r
}

/// One `key: value` entry as a map of strings prints it.
pub open spec fn debug_entry(k: Seq<char>, v: Seq<char>) -> Seq<char> {
    str_debug(k) + ": "@ + str_debug(v)
}

/// Entries of `m` for the given keys, in order, separated by `", "`.
pub open spec fn debug_entries(keys: Seq<Seq<char>>, m: Map<Seq<char>, Seq<char>>) -> Seq<char>
    decreases keys.len(),
{
    if keys.len() == 0 {
        Seq::empty()
    } else if keys.len() == 1 {
        debug_entry(keys[0], m[keys[0]])
    } else {
        debug_entries(keys.drop_last(), m) + ", "@ + debug_entry(keys.last(), m[keys.last()])
    }
}

/// What a sorted map of strings prints with `{:?}`: its entries in
/// increasing key order, between braces.
pub open spec fn map_debug(m: Map<Seq<char>, Seq<char>>) -> Seq<char> {
    "{"@ + debug_entries(sorted_listing(m.dom()), m) + "}"@
}

/// The text the map a list of pairs collects into prints with `{:?}`.
pub fn map_debug_string(pairs: &Vec<(&'static str, &'static str)>) -> (r: String)
    ensures
        r@ == map_debug(pairs_map(pair_views(pairs@))),
{
    let ghost m = pairs_map(pair_views(pairs@));
    let entries = sorted_entries(pairs);
    let mut out = String::from_str("{");
    let ghost start = out@;
    let mut i: usize = 0;
    while i < entries.len()
        invariant
            i <= entries@.len(),
            lists_map(entries@, m),
            out@ == start + debug_entries(pair_keys(entries@).take(i as int), m),
        decreases entries@.len() - i,
    {
        let ghost t = pair_keys(entries@).take(i + 1);
        proof {
            assert(t.drop_last() =~= pair_keys(entries@).take(i as int));
            assert(t.last() == entries@[i as int].0@);
            assert(m[entries@[i as int].0@] == entries@[i as int].1@);
        }
        if i > 0 {
            out.append(", ");
        }
        let key = debug_str(entries[i].0);
        out.append(key.as_str());
        out.append(": ");
        let value = debug_str(entries[i].1);
        out.append(value.as_str());
        proof {
            reveal_strlit(", ");
            reveal_strlit(": ");
            if i == 0 {
                assert(t[0] == t.last());
                assert(pair_keys(entries@).take(0) =~= Seq::<Seq<char>>::empty());
            }
            assert(out@ =~= start + debug_entries(t, m));
        }
        i = i + 1;
    }
    out.append("}");
    proof {
        reveal_strlit("{");
        reveal_strlit("}");
        assert(pair_keys(entries@).take(entries@.len() as int) =~= pair_keys(entries@));
        lemma_sorted_listing(pair_keys(entries@));
        assert(out@ =~= map_debug(m));
    }
    out
}

} // verus!
