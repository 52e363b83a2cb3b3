//! Sequences of named values in which no name occurs twice, read as maps.

use vstd::prelude::*;

verus! {

pub type Name = Seq<char>;

/// The names and the values of two sequences of one length, in pairs.
pub open spec fn paired<V>(names: Seq<String>, values: Seq<V>) -> Seq<(Name, V)> {
    Seq::new(names.len(), |i: int| (names[i]@, values[i]))
}

/// No name occurs twice.
pub open spec fn distinct<V>(s: Seq<(Name, V)>) -> bool {
    forall|i: int, j: int| 0 <= i < j < s.len() ==> (#[trigger] s[i]).0 != (#[trigger] s[j]).0
}

pub open spec fn has_name<V>(s: Seq<(Name, V)>, name: Name) -> bool {
    exists|i: int| 0 <= i < s.len() && (#[trigger] s[i]).0 == name
}

pub open spec fn place_of<V>(s: Seq<(Name, V)>, name: Name) -> int {
    choose|i: int| 0 <= i < s.len() && (#[trigger] s[i]).0 == name
}

/// The map from each name that occurs to the value that stands with it.
pub open spec fn as_map<V>(s: Seq<(Name, V)>) -> Map<Name, V> {
    Map::new(|name: Name| has_name(s, name), |name: Name| s[place_of(s, name)].1)
}

/// The value under a name, if the name occurs.
pub open spec fn lookup<V>(m: Map<Name, V>, name: Name) -> Option<V> {
    if m.contains_key(name) {
        Some(m[name])
    } else {
        None
    }
}

pub proof fn lemma_entry<V>(s: Seq<(Name, V)>, i: int)
    requires
        distinct(s),
        0 <= i < s.len(),
    ensures
        as_map(s).contains_key(s[i].0),
        as_map(s)[s[i].0] == s[i].1,
        place_of(s, s[i].0) == i,
{
    let name = s[i].0;
    assert(has_name(s, name));
    let k = place_of(s, name);
    assert(0 <= k < s.len() && s[k].0 == name);
    if k < i {
        assert(s[k].0 != s[i].0);
    } else if i < k {
        assert(s[i].0 != s[k].0);
    }
}

pub proof fn lemma_empty<V>(s: Seq<(Name, V)>)
    requires
        s.len() == 0,
    ensures
        as_map(s) == Map::<Name, V>::empty(),
        distinct(s),
{
    assert(as_map(s) =~= Map::<Name, V>::empty());
}

/// Replacing the value at one place is an insertion under the name there.
pub proof fn lemma_update<V>(s: Seq<(Name, V)>, i: int, value: V)
    requires
        distinct(s),
        0 <= i < s.len(),
    ensures
        distinct(s.update(i, (s[i].0, value))),
        as_map(s.update(i, (s[i].0, value))) == as_map(s).insert(s[i].0, value),
{
    let t = s.update(i, (s[i].0, value));
    assert forall|a: int, b: int| 0 <= a < b < t.len() implies (#[trigger] t[a]).0
        != (#[trigger] t[b]).0 by {
        assert(t[a].0 == s[a].0);
        assert(t[b].0 == s[b].0);
    }
    assert forall|name: Name| #[trigger] as_map(t).contains_key(name) == as_map(s).insert(
        s[i].0,
        value,
    ).contains_key(name) by {
        if has_name(t, name) {
            let k = place_of(t, name);
            assert(s[k].0 == name);
        }
        if has_name(s, name) {
            let k = place_of(s, name);
            assert(t[k].0 == name);
        }
        if name == s[i].0 {
            assert(t[i].0 == name);
        }
    }
    assert forall|name: Name| as_map(t).contains_key(name) implies #[trigger] as_map(t)[name]
        == as_map(s).insert(s[i].0, value)[name] by {
        let k = place_of(t, name);
        lemma_entry(t, k);
        lemma_entry(s, k);
        assert(s[k].0 == name);
        if k == i {
        } else {
            assert(t[k] == s[k]);
        }
    }
    assert(as_map(t) =~= as_map(s).insert(s[i].0, value));
}

/// Appending a value under a name that does not occur is an insertion.
pub proof fn lemma_push<V>(s: Seq<(Name, V)>, name: Name, value: V)
    requires
        distinct(s),
        !has_name(s, name),
    ensures
        distinct(s.push((name, value))),
        as_map(s.push((name, value))) == as_map(s).insert(name, value),
{
    let t = s.push((name, value));
    assert forall|a: int, b: int| 0 <= a < b < t.len() implies (#[trigger] t[a]).0
        != (#[trigger] t[b]).0 by {
        assert(t[a] == s[a]);
        if b < s.len() {
            assert(t[b] == s[b]);
        } else {
            assert(t[b].0 == name);
        }
    }
    assert forall|n: Name| #[trigger] as_map(t).contains_key(n) == as_map(s).insert(
        name,
        value,
    ).contains_key(n) by {
        if has_name(t, n) {
            let k = place_of(t, n);
            if k < s.len() {
                assert(s[k].0 == n);
            }
        }
        if has_name(s, n) {
            let k = place_of(s, n);
            assert(t[k].0 == n);
        }
        if n == name {
            assert(t[s.len() as int].0 == n);
        }
    }
    assert forall|n: Name| as_map(t).contains_key(n) implies #[trigger] as_map(t)[n] == as_map(
        s,
    ).insert(name, value)[n] by {
        let k = place_of(t, n);
        lemma_entry(t, k);
        if k < s.len() {
            assert(t[k] == s[k]);
            lemma_entry(s, k);
        }
    }
    assert(as_map(t) =~= as_map(s).insert(name, value));
}

/// Taking out the entry at one place removes its name.
pub proof fn lemma_remove<V>(s: Seq<(Name, V)>, i: int)
    requires
        distinct(s),
        0 <= i < s.len(),
    ensures
        distinct(s.remove(i)),
        as_map(s.remove(i)) == as_map(s).remove(s[i].0),
{
    let t = s.remove(i);
    assert forall|a: int, b: int| 0 <= a < b < t.len() implies (#[trigger] t[a]).0
        != (#[trigger] t[b]).0 by {
        let a2 = if a < i { a } else { a + 1 };
        let b2 = if b < i { b } else { b + 1 };
        assert(t[a] == s[a2]);
        assert(t[b] == s[b2]);
    }
    assert forall|n: Name| #[trigger] as_map(t).contains_key(n) == as_map(s).remove(
        s[i].0,
    ).contains_key(n) by {
        if has_name(t, n) {
            let k = place_of(t, n);
            let k2 = if k < i { k } else { k + 1 };
            assert(t[k] == s[k2]);
            assert(s[k2].0 == n);
            if k2 < i {
                assert(s[k2].0 != s[i].0);
            } else {
                assert(s[i].0 != s[k2].0);
            }
        }
        if has_name(s, n) && n != s[i].0 {
            let k = place_of(s, n);
            let k2 = if k < i { k } else { k - 1 };
            assert(t[k2] == s[k]);
            assert(t[k2].0 == n);
        }
    }
    assert forall|n: Name| as_map(t).contains_key(n) implies #[trigger] as_map(t)[n] == as_map(
        s,
    ).remove(s[i].0)[n] by {
        let k = place_of(t, n);
        lemma_entry(t, k);
        let k2 = if k < i { k } else { k + 1 };
        assert(t[k] == s[k2]);
        lemma_entry(s, k2);
    }
    assert(as_map(t) =~= as_map(s).remove(s[i].0));
}

/// The first entries of a sequence without repeated names, and the next one.
pub proof fn lemma_prefix<V>(s: Seq<(Name, V)>, n: int)
    requires
        distinct(s),
        0 <= n < s.len(),
    ensures
        distinct(s.take(n)),
        !has_name(s.take(n), s[n].0),
        s.take(n + 1) == s.take(n).push(s[n]),
{
    let t = s.take(n);
    assert forall|a: int, b: int| 0 <= a < b < t.len() implies (#[trigger] t[a]).0
        != (#[trigger] t[b]).0 by {
        assert(t[a] == s[a]);
        assert(t[b] == s[b]);
    }
    if has_name(t, s[n].0) {
        let k = place_of(t, s[n].0);
        assert(t[k] == s[k]);
        assert(s[k].0 != s[n].0);
    }
    assert(s.take(n + 1) =~= s.take(n).push(s[n]));
}

} // verus!
