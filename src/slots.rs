use vstd::prelude::*;

verus! {

/// True when no two entries of `s` share a key.
pub open spec fn unique_keys<V>(s: Seq<(u64, V)>) -> bool {
    forall|i: int, j: int|
        0 <= i < s.len() && 0 <= j < s.len() && i != j ==> #[trigger] s[i].0 != #[trigger] s[j].0
}

/// True when some entry of `s` has key `k`.
pub open spec fn has_key<V>(s: Seq<(u64, V)>, k: u64) -> bool {
    exists|i: int| 0 <= i < s.len() && #[trigger] s[i].0 == k
}

/// The map from keys to values that an association list stands for.
pub open spec fn entries_map<V>(s: Seq<(u64, V)>) -> Map<u64, V> {
    Map::new(
        |k: u64| has_key(s, k),
        |k: u64| s[choose|i: int| 0 <= i < s.len() && #[trigger] s[i].0 == k].1,
    )
}

/// An entry at index `i` is what the map holds for its key.
pub proof fn lemma_entry_in_map<V>(s: Seq<(u64, V)>, i: int)
    requires
        unique_keys(s),
        0 <= i < s.len(),
    ensures
        entries_map(s).contains_key(s[i].0),
        entries_map(s)[s[i].0] == s[i].1,
{
    let k = s[i].0;
    assert(has_key(s, k));
    let j = choose|j: int| 0 <= j < s.len() && #[trigger] s[j].0 == k;
    assert(s[j].0 == s[i].0);
}

/// Changing the value at index `i` changes the map at that entry's key alone.
pub proof fn lemma_update_value<V>(s: Seq<(u64, V)>, i: int, w: V)
    requires
        unique_keys(s),
        0 <= i < s.len(),
    ensures
        unique_keys(s.update(i, (s[i].0, w))),
        entries_map(s.update(i, (s[i].0, w))) == entries_map(s).insert(s[i].0, w),
{
    let k = s[i].0;
    let t = s.update(i, (k, w));
    assert(unique_keys(t)) by {
        assert forall|a: int, b: int|
            0 <= a < t.len() && 0 <= b < t.len() && a != b implies #[trigger] t[a].0
            != #[trigger] t[b].0 by {
            assert(s[a].0 != s[b].0);
        }
    }
    lemma_entry_in_map(t, i);
    assert forall|x: u64| #[trigger] entries_map(t).contains_key(x) <==> entries_map(s).insert(
        k,
        w,
    ).contains_key(x) by {
        if has_key(t, x) {
            let j = choose|j: int| 0 <= j < t.len() && #[trigger] t[j].0 == x;
            assert(s[j].0 == x);
        }
        if has_key(s, x) {
            let j = choose|j: int| 0 <= j < s.len() && #[trigger] s[j].0 == x;
            assert(t[j].0 == x);
        }
    }
    assert forall|x: u64| #[trigger] entries_map(t).contains_key(x) && x != k implies entries_map(
        t,
    )[x] == entries_map(s)[x] by {
        let j = choose|j: int| 0 <= j < t.len() && #[trigger] t[j].0 == x;
        lemma_entry_in_map(t, j);
        lemma_entry_in_map(s, j);
    }
    assert(entries_map(t) =~= entries_map(s).insert(k, w));
}

/// A list that maps each of its keys to one value: the `view` is a `Map`.
pub struct KeyedSlots<V> {
    entries: Vec<(u64, V)>,
}

impl<V> View for KeyedSlots<V> {
    type V = Map<u64, V>;

    closed spec fn view(&self) -> Map<u64, V> {
        entries_map(self.entries@)
    }
}

impl<V> KeyedSlots<V> {
    /// Each key is held at most once.
    pub closed spec fn wf(&self) -> bool {
        unique_keys(self.entries@)
    }

    /// An empty list.
    pub fn new() -> (r: Self)
        ensures
            r.wf(),
            r@ == Map::<u64, V>::empty(),
    {
        let r = KeyedSlots { entries: Vec::new() };
        assert(r@ =~= Map::<u64, V>::empty());
        r
    }

    /// Index of the entry with key `k`, if any.
    fn find(&self, k: u64) -> (r: Option<usize>)
        ensures
            match r {
                Some(i) => i < self.entries@.len() && self.entries@[i as int].0 == k,
                None => !has_key(self.entries@, k),
            },
    {
        let mut i: usize = 0;
        while i < self.entries.len()
            invariant
                i <= self.entries@.len(),
                forall|j: int| 0 <= j < i ==> #[trigger] self.entries@[j].0 != k,
            decreases self.entries@.len() - i,
        {
            if self.entries[i].0 == k {
                return Some(i);
            }
            i = i + 1;
        }
        None
    }

    /// The value held under `k`, left in place.
    pub fn get(&self, k: u64) -> (r: Option<&V>)
        requires
            self.wf(),
        ensures
            match r {
                Some(v) => self@.contains_key(k) && *v == self@[k],
                None => !self@.contains_key(k),
            },
    {
        match self.find(k) {
            Some(i) => {
                proof {
                    lemma_entry_in_map(self.entries@, i as int);
                }
                Some(&self.entries[i].1)
            },
            None => None,
        }
    }

    /// The value held under `k`, to be changed in place.
    pub fn get_mut(&mut self, k: u64) -> (r: Option<&mut V>)
        requires
            old(self).wf(),
        ensures
            final(self).wf(),
            match r {
                Some(v) => {
                    &&& old(self)@.contains_key(k)
                    &&& *v == old(self)@[k]
                    &&& final(self)@ == old(self)@.insert(k, *final(v))
                },
                None => !old(self)@.contains_key(k) && final(self)@ == old(self)@,
            },
    {
        match self.find(k) {
            Some(i) => {
                let ghost s = self.entries@;
                proof {
                    lemma_entry_in_map(s, i as int);
                    assert forall|w: V| #[trigger] entries_map(s.update(i as int, (k, w)))
                        == entries_map(s).insert(k, w) && unique_keys(
                        s.update(i as int, (k, w)),
                    ) by {
                        lemma_update_value(s, i as int, w);
                    }
                }
                let e = &mut self.entries[i];
                Some(&mut e.1)
            },
            None => None,
        }
    }

    /// Removes the value held under `k` and hands it out.
    pub fn take(&mut self, k: u64) -> (r: Option<V>)
        requires
            old(self).wf(),
        ensures
            final(self).wf(),
            match r {
                Some(v) => old(self)@.contains_key(k) && v == old(self)@[k],
                None => !old(self)@.contains_key(k),
            },
            final(self)@ == old(self)@.remove(k),
    {
        match self.find(k) {
            Some(i) => {
                let ghost s = self.entries@;
                proof {
                    lemma_entry_in_map(s, i as int);
                }
                let e = self.entries.swap_remove(i);
                proof {
                    let t = self.entries@;
                    assert(forall|j: int| 0 <= j < t.len() ==> #[trigger] t[j] == (if j == i {
                        s[s.len() - 1]
                    } else {
                        s[j]
                    }));
                    assert(unique_keys(t)) by {
                        assert forall|a: int, b: int|
                            0 <= a < t.len() && 0 <= b < t.len() && a != b implies #[trigger] t[a].0
                            != #[trigger] t[b].0 by {
                            let ia = if a == i { s.len() - 1 } else { a };
                            let ib = if b == i { s.len() - 1 } else { b };
                            assert(s[ia].0 != s[ib].0);
                        }
                    }
                    assert forall|x: u64| #[trigger] entries_map(t).contains_key(x) <==> entries_map(
                        s,
                    ).remove(k).contains_key(x) by {
                        if has_key(t, x) {
                            let j = choose|j: int| 0 <= j < t.len() && #[trigger] t[j].0 == x;
                            let sj = if j == i { s.len() - 1 } else { j };
                            assert(s[sj].0 == x);
                            assert(s[sj].0 != s[i as int].0);
                        }
                        if has_key(s, x) && x != k {
                            let j = choose|j: int| 0 <= j < s.len() && #[trigger] s[j].0 == x;
                            let tj = if j == s.len() - 1 { i as int } else { j };
                            assert(t[tj].0 == x);
                        }
                    }
                    assert forall|x: u64| #[trigger] entries_map(t).contains_key(x) implies entries_map(
                        t,
                    )[x] == entries_map(s)[x] by {
                        let j = choose|j: int| 0 <= j < t.len() && #[trigger] t[j].0 == x;
                        let sj = if j == i { s.len() - 1 } else { j };
                        lemma_entry_in_map(t, j);
                        lemma_entry_in_map(s, sj);
                    }
                    assert(entries_map(t) =~= entries_map(s).remove(k));
                }
                Some(e.1)
            },
            None => {
                assert(self@ =~= self@.remove(k));
                None
            },
        }
    }

    /// Holds `v` under `k`, handing out what `k` held before.
    pub fn put(&mut self, k: u64, v: V) -> (r: Option<V>)
        requires
            old(self).wf(),
        ensures
            final(self).wf(),
            match r {
                Some(p) => old(self)@.contains_key(k) && p == old(self)@[k],
                None => !old(self)@.contains_key(k),
            },
            final(self)@ == old(self)@.insert(k, v),
    {
        let prev = self.take(k);
        let ghost s = self.entries@;
        self.entries.push((k, v));
        proof {
            let t = self.entries@;
            assert(!entries_map(s).contains_key(k));
            assert(!has_key(s, k));
            assert(unique_keys(t)) by {
                assert forall|a: int, b: int|
                    0 <= a < t.len() && 0 <= b < t.len() && a != b implies #[trigger] t[a].0
                    != #[trigger] t[b].0 by {
                    if a < s.len() && b < s.len() {
                        assert(s[a].0 != s[b].0);
                    } else if a < s.len() {
                        assert(s[a].0 != k);
                    } else {
                        assert(s[b].0 != k);
                    }
                }
            }
            lemma_entry_in_map(t, s.len() as int);
            assert forall|x: u64| #[trigger] entries_map(t).contains_key(x) <==> entries_map(
                s,
            ).insert(k, v).contains_key(x) by {
                if has_key(t, x) && x != k {
                    let j = choose|j: int| 0 <= j < t.len() && #[trigger] t[j].0 == x;
                    assert(s[j].0 == x);
                }
                if has_key(s, x) {
                    let j = choose|j: int| 0 <= j < s.len() && #[trigger] s[j].0 == x;
                    assert(t[j].0 == x);
                }
            }
            assert forall|x: u64| #[trigger] entries_map(t).contains_key(x) && x != k implies entries_map(
                t,
            )[x] == entries_map(s)[x] by {
                let j = choose|j: int| 0 <= j < t.len() && #[trigger] t[j].0 == x;
                assert(j < s.len());
                lemma_entry_in_map(t, j);
                lemma_entry_in_map(s, j);
            }
            assert(entries_map(t) =~= entries_map(s).insert(k, v));
        }
        prev
    }
}

} // verus!
