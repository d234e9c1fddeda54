use vstd::prelude::*;

verus! {

/// No two entries of `s` share a key.
pub open spec fn keys_distinct<V>(s: Seq<(String, V)>) -> bool {
    forall|i: int, j: int|
        0 <= i < s.len() && 0 <= j < s.len() && i != j ==> #[trigger] s[i].0@ != #[trigger] s[j].0@
}

/// Entry `i` of `s` exists and has key `k`.
pub open spec fn key_at<V>(s: Seq<(String, V)>, k: Seq<char>, i: int) -> bool {
    0 <= i < s.len() && s[i].0@ == k
}

/// The map that a list of entries with distinct keys stands for.
pub open spec fn map_of<V>(s: Seq<(String, V)>) -> Map<Seq<char>, V> {
    Map::new(
        |k: Seq<char>| exists|i: int| key_at(s, k, i),
        |k: Seq<char>| s[choose|i: int| key_at(s, k, i)].1,
    )
}

/// The entry at `i` is what the map holds for its key.
pub proof fn lemma_map_of_at<V>(s: Seq<(String, V)>, i: int)
    requires
        keys_distinct(s),
        0 <= i < s.len(),
    ensures
        map_of(s).contains_key(s[i].0@),
        map_of(s)[s[i].0@] == s[i].1,
{
    let k = s[i].0@;
    assert(key_at(s, k, i));
    let c = choose|c: int| key_at(s, k, c);
    assert(key_at(s, k, c));
    if c != i {
        assert(s[c].0@ != s[i].0@);
    }
}

/// The map of a list of entries has finitely many keys: those of the entries.
pub proof fn lemma_map_of_finite<V>(s: Seq<(String, V)>)
    ensures
        map_of(s).dom().finite(),
        forall|k: Seq<char>| #[trigger] map_of(s).contains_key(k) <==> exists|i: int| key_at(s, k, i),
{
    let keys = s.map_values(|p: (String, V)| p.0@);
    vstd::seq_lib::seq_to_set_is_finite(keys);
    assert forall|k: Seq<char>| #[trigger] map_of(s).dom().contains(k) <==> keys.to_set().contains(k) by {
        if map_of(s).dom().contains(k) {
            let i = choose|i: int| key_at(s, k, i);
            assert(keys[i] == k);
        }
        if keys.to_set().contains(k) {
            assert(keys.contains(k));
            let i = choose|i: int| 0 <= i < keys.len() && keys[i] == k;
            assert(key_at(s, k, i));
        }
    }
    assert(map_of(s).dom() =~= keys.to_set());
}

/// Appending an entry with a new key inserts that key.
pub proof fn lemma_map_of_push<V>(s: Seq<(String, V)>, k: String, v: V)
    requires
        keys_distinct(s),
        !map_of(s).contains_key(k@),
    ensures
        keys_distinct(s.push((k, v))),
        map_of(s.push((k, v))) =~= map_of(s).insert(k@, v),
{
    let t = s.push((k, v));
    assert forall|i: int, j: int|
        0 <= i < t.len() && 0 <= j < t.len() && i != j implies #[trigger] t[i].0@ != #[trigger] t[j].0@ by {
        if i == s.len() {
            assert(!key_at(s, k@, j));
        } else if j == s.len() {
            assert(!key_at(s, k@, i));
        } else {
            assert(t[i] == s[i] && t[j] == s[j]);
        }
    }
    assert forall|kk: Seq<char>| #[trigger] map_of(t).contains_key(kk) <==> map_of(s).insert(k@, v).contains_key(kk) by {
        if map_of(t).contains_key(kk) {
            let i = choose|i: int| key_at(t, kk, i);
            if i < s.len() {
                assert(key_at(s, kk, i));
            }
        }
        if map_of(s).contains_key(kk) {
            let i = choose|i: int| key_at(s, kk, i);
            assert(key_at(t, kk, i));
        }
        if kk == k@ {
            assert(key_at(t, kk, s.len() as int));
        }
    }
    assert forall|kk: Seq<char>| #[trigger] map_of(t).contains_key(kk) implies map_of(t)[kk] == map_of(s).insert(k@, v)[kk] by {
        let i = choose|i: int| key_at(t, kk, i);
        lemma_map_of_at(t, i);
        if i < s.len() {
            assert(t[i] == s[i]);
            lemma_map_of_at(s, i);
        }
    }
}

/// Replacing the value of entry `i`, with its key kept, updates that key.
pub proof fn lemma_map_of_update<V>(s: Seq<(String, V)>, i: int, k: String, v: V)
    requires
        keys_distinct(s),
        0 <= i < s.len(),
        s[i].0@ == k@,
    ensures
        keys_distinct(s.update(i, (k, v))),
        map_of(s.update(i, (k, v))) =~= map_of(s).insert(k@, v),
{
    let t = s.update(i, (k, v));
    assert forall|a: int, b: int|
        0 <= a < t.len() && 0 <= b < t.len() && a != b implies #[trigger] t[a].0@ != #[trigger] t[b].0@ by {
        assert(s[a].0@ != s[b].0@);
    }
    lemma_map_of_at(s, i);
    assert forall|kk: Seq<char>| #[trigger] map_of(t).contains_key(kk) <==> map_of(s).insert(k@, v).contains_key(kk) by {
        if map_of(t).contains_key(kk) {
            let j = choose|j: int| key_at(t, kk, j);
            assert(key_at(s, kk, j));
        }
        if map_of(s).contains_key(kk) {
            let j = choose|j: int| key_at(s, kk, j);
            assert(key_at(t, kk, j));
        }
    }
    assert forall|kk: Seq<char>| #[trigger] map_of(t).contains_key(kk) implies map_of(t)[kk] == map_of(s).insert(k@, v)[kk] by {
        let j = choose|j: int| key_at(t, kk, j);
        lemma_map_of_at(t, j);
        if j != i {
            lemma_map_of_at(s, j);
        }
    }
}

/// Dropping entry `i` removes its key.
pub proof fn lemma_map_of_remove<V>(s: Seq<(String, V)>, i: int)
    requires
        keys_distinct(s),
        0 <= i < s.len(),
    ensures
        keys_distinct(s.remove(i)),
        map_of(s.remove(i)) =~= map_of(s).remove(s[i].0@),
{
    let t = s.remove(i);
    let k = s[i].0@;
    assert forall|a: int, b: int|
        0 <= a < t.len() && 0 <= b < t.len() && a != b implies #[trigger] t[a].0@ != #[trigger] t[b].0@ by {
        let sa = if a < i { a } else { a + 1 };
        let sb = if b < i { b } else { b + 1 };
        assert(t[a] == s[sa] && t[b] == s[sb]);
        assert(s[sa].0@ != s[sb].0@);
    }
    assert forall|kk: Seq<char>| #[trigger] map_of(t).contains_key(kk) <==> map_of(s).remove(k).contains_key(kk) by {
        if map_of(t).contains_key(kk) {
            let j = choose|j: int| key_at(t, kk, j);
            let sj = if j < i { j } else { j + 1 };
            assert(t[j] == s[sj]);
            assert(key_at(s, kk, sj));
            assert(s[sj].0@ != s[i].0@);
        }
        if map_of(s).contains_key(kk) && kk != k {
            let j = choose|j: int| key_at(s, kk, j);
            assert(j != i);
            let tj = if j < i { j } else { j - 1 };
            assert(t[tj] == s[j]);
            assert(key_at(t, kk, tj));
        }
    }
    assert forall|kk: Seq<char>| #[trigger] map_of(t).contains_key(kk) implies map_of(t)[kk] == map_of(s).remove(k)[kk] by {
        let j = choose|j: int| key_at(t, kk, j);
        let sj = if j < i { j } else { j + 1 };
        assert(t[j] == s[sj]);
        lemma_map_of_at(t, j);
        lemma_map_of_at(s, sj);
    }
}

/// The map built by inserting the entries of `s` in turn.
pub open spec fn map_from_list<V>(s: Seq<(String, V)>) -> Map<Seq<char>, V>
    decreases s.len(),
{
    if s.len() == 0 {
        Map::empty()
    } else {
        map_from_list(s.drop_last()).insert(s.last().0@, s.last().1)
    }
}

/// A map from strings to values, kept as a list of entries in the order
/// their keys first arrived, with no key twice.
pub struct StrMap<V> {
    entries: Vec<(String, V)>,
}

impl<V> View for StrMap<V> {
    type V = Map<Seq<char>, V>;

    closed spec fn view(&self) -> Map<Seq<char>, V> {
        map_of(self.entries@)
    }
}

impl<V> StrMap<V> {
    /// The entries, in the order their keys first arrived.
    pub closed spec fn pairs(&self) -> Seq<(String, V)> {
        self.entries@
    }

    /// Well-formed: no key occurs twice.
    pub closed spec fn wf(&self) -> bool {
        keys_distinct(self.entries@)
    }

    /// A well-formed map holds finitely many keys.
    pub proof fn lemma_wf(&self)
        requires
            self.wf(),
        ensures
            self@.dom().finite(),
    {
        lemma_map_of_finite(self.entries@);
    }

    /// The map is the one that its entries stand for.
    pub proof fn lemma_view(&self)
        requires
            self.wf(),
        ensures
            keys_distinct(self.pairs()),
            self@ == map_of(self.pairs()),
    {
    }

    pub fn new() -> (m: Self)
        ensures
            m.wf(),
            m@ == Map::<Seq<char>, V>::empty(),
            m.pairs() == Seq::<(String, V)>::empty(),
    {
        let m = StrMap { entries: Vec::new() };
        assert(m@ =~= Map::<Seq<char>, V>::empty());
        m
    }

    /// The entries, in the order their keys first arrived.
    pub fn entries(&self) -> (r: &Vec<(String, V)>)
        ensures
            r@ == self.pairs(),
    {
        &self.entries
    }

    /// The map built by inserting the entries of `list` in turn: where a key
    /// occurs twice, the later value stays.
    pub fn from_list(list: Vec<(String, V)>) -> (m: Self)
        ensures
            m.wf(),
            m@ == map_from_list(list@),
    {
        let ghost whole = list@;
        let mut rest = list;
        let mut m = StrMap::new();
        let ghost mut n: int = 0;
        while rest.len() > 0
            invariant
                m.wf(),
                0 <= n <= whole.len(),
                rest@ == whole.subrange(n, whole.len() as int),
                m@ == map_from_list(whole.subrange(0, n)),
            decreases rest@.len(),
        {
            let (k, v) = rest.remove(0);
            proof {
                assert(whole.subrange(0, n + 1).drop_last() =~= whole.subrange(0, n));
                assert(whole.subrange(0, n + 1).last() == (k, v));
            }
            m.insert(k, v);
            proof {
                n = n + 1;
                assert(rest@ =~= whole.subrange(n, whole.len() as int));
            }
        }
        assert(whole.subrange(0, n) =~= whole);
        m
    }

    fn find(&self, k: &String) -> (r: Option<usize>)
        requires
            self.wf(),
        ensures
            match r {
                Some(i) => i < self.entries@.len() && self.entries@[i as int].0@ == k@,
                None => !self@.contains_key(k@),
            },
    {
        let mut i: usize = 0;
        while i < self.entries.len()
            invariant
                i <= self.entries@.len(),
                forall|j: int| 0 <= j < i ==> !key_at(self.entries@, k@, j),
            decreases self.entries@.len() - i,
        {
            if self.entries[i].0 == *k {
                return Some(i);
            }
            i = i + 1;
        }
        None
    }

    /// The value held for `k`, if any.
    pub fn get(&self, k: &String) -> (r: Option<&V>)
        requires
            self.wf(),
        ensures
            match r {
                Some(v) => self@.contains_key(k@) && *v == self@[k@],
                None => !self@.contains_key(k@),
            },
    {
        match self.find(k) {
            Some(i) => {
                proof {
                    lemma_map_of_at(self.entries@, i as int);
                }
                Some(&self.entries[i].1)
            },
            None => None,
        }
    }

    /// Holds `v` for `k`, in place of what `k` held before.
    pub fn insert(&mut self, k: String, v: V)
        requires
            old(self).wf(),
        ensures
            final(self).wf(),
            final(self)@ == old(self)@.insert(k@, v),
    {
        match self.find(&k) {
            Some(i) => {
                proof {
                    lemma_map_of_update(self.entries@, i as int, k, v);
                }
                self.entries.set(i, (k, v));
            },
            None => {
                proof {
                    lemma_map_of_push(self.entries@, k, v);
                }
                self.entries.push((k, v));
            },
        }
    }

    /// Drops `k`, and returns what it held.
    pub fn remove(&mut self, k: &String) -> (r: Option<V>)
        requires
            old(self).wf(),
        ensures
            final(self).wf(),
            final(self)@ == old(self)@.remove(k@),
            r == (if old(self)@.contains_key(k@) {
                Some(old(self)@[k@])
            } else {
                None::<V>
            }),
    {
        match self.find(k) {
            Some(i) => {
                proof {
                    lemma_map_of_at(self.entries@, i as int);
                    lemma_map_of_remove(self.entries@, i as int);
                }
                let (_, v) = self.entries.remove(i);
                Some(v)
            },
            None => {
                assert(self@.remove(k@) =~= self@);
                None
            },
        }
    }
}

} // verus!
