//! Index maps: maps from a key to the indices of the entries filed under it.
use vstd::prelude::*;
use std::collections::HashMap;
use vstd::hash_map::StringHashMap;

verus! {

broadcast use vstd::std_specs::hash::group_hash_axioms;

/// The lists of indices of an index map, as sequences.
pub open spec fn idx_map<K>(m: Map<K, Vec<usize>>) -> Map<K, Seq<usize>> {
    Map::new(|k: K| m.contains_key(k), |k: K| m[k]@)
}

/// The index list `l` with `idx` added at its end; a list of `idx` alone
/// where there is none.
pub open spec fn push_to(l: Option<Seq<usize>>, idx: usize) -> Seq<usize> {
    match l {
        Some(s) => s.push(idx),
        None => seq![idx],
    }
}

/// `m` with `idx` filed under `k`.
pub open spec fn push_idx<K>(m: Map<K, Seq<usize>>, k: K, idx: usize) -> Map<K, Seq<usize>> {
    m.insert(k, push_to(if m.contains_key(k) { Some(m[k]) } else { None }, idx))
}

/// `m` with `idx` filed under each key of `keys`.
pub open spec fn push_idx_keys(m: Map<u128, Seq<usize>>, keys: Set<u128>, idx: usize) -> Map<u128, Seq<usize>> {
    Map::new(
        |k: u128| m.contains_key(k) || keys.contains(k),
        |k: u128|
            if keys.contains(k) {
                push_to(if m.contains_key(k) { Some(m[k]) } else { None }, idx)
            } else {
                m[k]
            },
    )
}

/// The indices filed under `k` in `m`; none where `k` is not a key.
pub open spec fn list_of<K>(m: Map<K, Seq<usize>>, k: K) -> Seq<usize> {
    if m.contains_key(k) {
        m[k]
    } else {
        Seq::empty()
    }
}

/// Filing `idx` under `k` makes `k` a key whose list is its list before with
/// `idx` at the end, and leaves every other key and its list as they were.
pub proof fn lemma_push_idx_appends<K>(m: Map<K, Seq<usize>>, k: K, idx: usize)
    ensures
        push_idx(m, k, idx).contains_key(k),
        push_idx(m, k, idx)[k] == list_of(m, k).push(idx),
        forall|j: K| j != k ==> (#[trigger] push_idx(m, k, idx).contains_key(j) == m.contains_key(j)),
        forall|j: K| j != k && #[trigger] m.contains_key(j) ==> push_idx(m, k, idx)[j] == m[j],
{
    assert(push_to(if m.contains_key(k) { Some(m[k]) } else { None }, idx) =~= list_of(m, k).push(idx));
}

/// Filing `idx` under each key of `keys` makes each of them a key whose list
/// is its list before with `idx` at the end, and leaves every other key and
/// its list as they were.
pub proof fn lemma_push_idx_keys_appends(m: Map<u128, Seq<usize>>, keys: Set<u128>, idx: usize)
    ensures
        forall|p: u128| #[trigger] keys.contains(p) ==> push_idx_keys(m, keys, idx).contains_key(p)
            && push_idx_keys(m, keys, idx)[p] == list_of(m, p).push(idx),
        forall|p: u128| !keys.contains(p) ==> (#[trigger] push_idx_keys(m, keys, idx).contains_key(p)
            == m.contains_key(p)),
        forall|p: u128| !keys.contains(p) && #[trigger] m.contains_key(p) ==> push_idx_keys(m, keys, idx)[p]
            == m[p],
{
    assert forall|p: u128| #[trigger] keys.contains(p) implies push_idx_keys(m, keys, idx).contains_key(p)
        && push_idx_keys(m, keys, idx)[p] == list_of(m, p).push(idx) by {
        assert(push_to(if m.contains_key(p) { Some(m[p]) } else { None }, idx) =~= list_of(m, p).push(idx));
    }
}

/// Every index of `m`'s lists is below `n`.
pub open spec fn indices_below<K>(m: Map<K, Seq<usize>>, n: nat) -> bool {
    forall|k: K, i: int| #![trigger m[k][i]] m.contains_key(k) && 0 <= i < m[k].len() ==> m[k][i] < n
}

/// Filing `idx` under `k` in an index map whose indices are below `n`
/// leaves them below `n + 1`, where `idx` is `n`.
pub proof fn lemma_push_idx_below<K>(m: Map<K, Seq<usize>>, k: K, n: nat)
    requires
        indices_below(m, n),
        n < usize::MAX,
    ensures
        indices_below(push_idx(m, k, n as usize), n + 1),
{
    let r = push_idx(m, k, n as usize);
    assert forall|j: K, i: int| #![trigger r[j][i]]
        r.contains_key(j) && 0 <= i < r[j].len() implies r[j][i] < n + 1 by {
        if j != k || (m.contains_key(j) && i < m[j].len()) {
            assert(m[j][i] < n);
        }
    }
}

/// Filing `idx` under each key of `keys` in an index map whose indices are
/// below `n` leaves them below `n + 1`, where `idx` is `n`.
pub proof fn lemma_push_idx_keys_below(m: Map<u128, Seq<usize>>, keys: Set<u128>, n: nat)
    requires
        indices_below(m, n),
        n < usize::MAX,
    ensures
        indices_below(push_idx_keys(m, keys, n as usize), n + 1),
{
    let r = push_idx_keys(m, keys, n as usize);
    assert forall|j: u128, i: int| #![trigger r[j][i]]
        r.contains_key(j) && 0 <= i < r[j].len() implies r[j][i] < n + 1 by {
        if m.contains_key(j) && i < m[j].len() {
            assert(m[j][i] < n);
        }
    }
}

/// Files `idx` under `k`.
pub fn push_index(m: &mut HashMap<u128, Vec<usize>>, k: u128, idx: usize)
    ensures
        idx_map(final(m)@) == push_idx(idx_map(old(m)@), k, idx),
{
    let ghost m0 = idx_map(m@);
    let ghost old_m = m@;
    match m.remove(&k) {
        Some(v) => {
            assert(old_m.contains_key(k) && v == old_m[k]);
            assert(m@ == old_m.remove(k));
            let mut v = v;
            v.push(idx);
            m.insert(k, v);
        },
        None => {
            let v: Vec<usize> = vec![idx];
            m.insert(k, v);
        },
    }
    assert(m@.contains_key(k));
    assert(m@[k]@ == push_to(if m0.contains_key(k) { Some(m0[k]) } else { None }, idx));
    assert(forall|j: u128| j != k ==> (m@.contains_key(j) == old_m.contains_key(j)));
    assert(forall|j: u128| j != k && m@.contains_key(j) ==> m@[j] == old_m[j]);
    assert(idx_map(m@) =~= push_idx(m0, k, idx));
}

/// Files `idx` under `name`.
pub fn push_index_by_name(m: &mut StringHashMap<Vec<usize>>, name: &str, idx: usize)
    ensures
        idx_map(final(m)@) == push_idx(idx_map(old(m)@), name@, idx),
{
    let ghost m0 = idx_map(m@);
    let v: Vec<usize> = match m.get(name) {
        Some(old_v) => {
            let mut v = old_v.clone();
            assert(v@ =~= old_v@);
            v.push(idx);
            assert(m0.contains_key(name@) && m0[name@] == old_v@);
            v
        },
        None => {
            let v: Vec<usize> = vec![idx];
            assert(v@ =~= seq![idx]);
            v
        },
    };
    assert(v@ == push_to(if m0.contains_key(name@) { Some(m0[name@]) } else { None }, idx));
    let ghost old_m = m@;
    let key = String::from_str(name);
    m.insert(key, v);
    assert(m@ == old_m.insert(name@, v));
    assert(forall|j: Seq<char>| j != name@ ==> (m@.contains_key(j) == old_m.contains_key(j)));
    assert(forall|j: Seq<char>| j != name@ && m@.contains_key(j) ==> m@[j] == old_m[j]);
    assert(idx_map(m@) =~= push_idx(m0, name@, idx));
}

/// Files `idx` under every key of `keys`.
pub fn push_index_keys<V>(m: &mut HashMap<u128, Vec<usize>>, keys: &HashMap<u128, V>, idx: usize)
    ensures
        idx_map(final(m)@) == push_idx_keys(idx_map(old(m)@), keys@.dom(), idx),
{
    let ghost m0 = idx_map(m@);
    let ghost dom = keys@.dom();
    proof {
        vstd::std_specs::hash::axiom_spec_keys_iter(keys);
    }
    let ghost mut seen: Set<u128> = Set::empty();
    assert(Seq::<u128>::empty().to_set() =~= Set::<u128>::empty());
    for k in it: keys.keys()
        invariant
            it.seq().unref().no_duplicates(),
            it.seq().unref().to_set() == dom,
            seen == it.seq().unref().take(it.index()).to_set(),
            it.index() == it.seq().len() ==> seen == dom,
            idx_map(m@) == push_idx_keys(m0, seen, idx),
    {
        let ghost done = seen;
        let ghost i = it.index();
        assert(it.seq().unref()[i] == *k);
        assert(!done.contains(*k)) by {
            if done.contains(*k) {
                let j = choose|j: int| 0 <= j < i && it.seq().unref().take(i)[j] == *k;
                assert(it.seq().unref()[j] == it.seq().unref()[i]);
            }
        }
        push_index(m, *k, idx);
        assert(idx_map(m@) =~= push_idx_keys(m0, done.insert(*k), idx));
        assert(it.seq().unref().take(i + 1) =~= it.seq().unref().take(i).push(*k));
        assert(it.seq().unref().take(i + 1).to_set() =~= done.insert(*k)) by {
            let t = it.seq().unref().take(i);
            Seq::lemma_to_set_insert_commutes(t, *k);
            assert(t + seq![*k] =~= t.push(*k));
        }
        proof {
            seen = done.insert(*k);
        }
        assert(it.seq().unref().take(it.seq().len() as int) =~= it.seq().unref());
    }
    assert(idx_map(m@) =~= push_idx_keys(m0, dom, idx));
}

} // verus!
