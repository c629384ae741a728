//! A map from text keys to values, kept as a list of distinct keys: the shape
//! of the durable store's JSON indexes and per-user documents.
use vstd::prelude::*;

verus! {

/// The map a list of pairs describes, a later pair winning over an earlier one.
pub open spec fn pairs_map<V>(s: Seq<(String, V)>) -> Map<Seq<char>, V>
    decreases s.len(),
{
    if s.len() == 0 {
        Map::empty()
    } else {
        pairs_map(s.drop_last()).insert(s.last().0@, s.last().1)
    }
}

/// No key occurs twice.
pub open spec fn distinct_keys<V>(s: Seq<(String, V)>) -> bool {
    forall|i: int, j: int| 0 <= i < j < s.len() ==> (#[trigger] s[i]).0@ != (#[trigger] s[j]).0@
}

pub struct KeyedList<V> {
    entries: Vec<(String, V)>,
}

proof fn lemma_pairs_map_dom<V>(s: Seq<(String, V)>, k: Seq<char>)
    ensures
        pairs_map(s).dom().contains(k) <==> exists|i: int| 0 <= i < s.len() && (#[trigger] s[i]).0@ == k,
    decreases s.len(),
{
    if s.len() > 0 {
        lemma_pairs_map_dom(s.drop_last(), k);
        if exists|i: int| 0 <= i < s.len() && (#[trigger] s[i]).0@ == k {
            let i = choose|i: int| 0 <= i < s.len() && (#[trigger] s[i]).0@ == k;
            if i < s.len() - 1 {
                assert(s.drop_last()[i] == s[i]);
            }
        }
        if exists|i: int| 0 <= i < s.drop_last().len() && (#[trigger] s.drop_last()[i]).0@ == k {
            let i = choose|i: int| 0 <= i < s.drop_last().len() && (#[trigger] s.drop_last()[i]).0@ == k;
            assert(s[i] == s.drop_last()[i]);
        }
    }
}

proof fn lemma_pairs_map_at<V>(s: Seq<(String, V)>, i: int)
    requires
        distinct_keys(s),
        0 <= i < s.len(),
    ensures
        pairs_map(s).dom().contains(s[i].0@),
        pairs_map(s)[s[i].0@] == s[i].1,
    decreases s.len(),
{
    if i < s.len() - 1 {
        assert(s.drop_last()[i] == s[i]);
        lemma_pairs_map_at(s.drop_last(), i);
        assert(s[i].0@ != s[s.len() - 1].0@);
    }
}

proof fn lemma_pairs_map_update<V>(s: Seq<(String, V)>, i: int, v: V)
    requires
        distinct_keys(s),
        0 <= i < s.len(),
    ensures
        pairs_map(s.update(i, (s[i].0, v))) == pairs_map(s).insert(s[i].0@, v),
    decreases s.len(),
{
    let t = s.update(i, (s[i].0, v));
    if i == s.len() - 1 {
        assert(t.drop_last() =~= s.drop_last());
        assert(pairs_map(t) =~= pairs_map(s).insert(s[i].0@, v));
    } else {
        assert(t.drop_last() =~= s.drop_last().update(i, (s[i].0, v)));
        assert(s.drop_last()[i] == s[i]);
        lemma_pairs_map_update(s.drop_last(), i, v);
        assert(s[i].0@ != s[s.len() - 1].0@);
        assert(pairs_map(t) =~= pairs_map(s).insert(s[i].0@, v));
    }
}

impl<V> KeyedList<V> {
    /// The map the list holds.
    pub closed spec fn view(&self) -> Map<Seq<char>, V> {
        pairs_map(self.entries@)
    }

    /// No key twice.
    pub closed spec fn wf(&self) -> bool {
        distinct_keys(self.entries@)
    }

    /// The pairs in their stored order.
    pub closed spec fn pairs(&self) -> Seq<(String, V)> {
        self.entries@
    }

    /// The empty map.
    pub fn new() -> (m: Self)
        ensures
            m.wf(),
            m.view() == Map::<Seq<char>, V>::empty(),
    {
        KeyedList { entries: Vec::new() }
    }

    fn find(&self, key: &str) -> (r: Option<usize>)
        ensures
            r matches Some(i) ==> i < self.entries@.len() && self.entries@[i as int].0@ == key@,
            r is None ==> forall|j: int|
                0 <= j < self.entries@.len() ==> (#[trigger] self.entries@[j]).0@ != key@,
    {
        let mut i: usize = 0;
        while i < self.entries.len()
            invariant
                i <= self.entries@.len(),
                forall|j: int| 0 <= j < i ==> (#[trigger] self.entries@[j]).0@ != key@,
            decreases self.entries.len() - i,
        {
            if self.entries[i].0.as_str().eq(key) {
                return Some(i);
            }
            i += 1;
        }
        None
    }

    /// The value stored under `key`, if any.
    pub fn get(&self, key: &str) -> (r: Option<&V>)
        requires
            self.wf(),
        ensures
            match r {
                Some(v) => self.view().dom().contains(key@) && *v == self.view()[key@],
                None => !self.view().dom().contains(key@),
            },
    {
        proof {
            lemma_pairs_map_dom(self.entries@, key@);
        }
        match self.find(key) {
            Some(i) => {
                proof {
                    lemma_pairs_map_at(self.entries@, i as int);
                }
                Some(&self.entries[i].1)
            },
            None => None,
        }
    }

    /// Whether `key` has a value.
    pub fn contains_key(&self, key: &str) -> (r: bool)
        ensures
            r == self.view().dom().contains(key@),
    {
        proof {
            lemma_pairs_map_dom(self.entries@, key@);
        }
        self.find(key).is_some()
    }

    /// Stores `value` under `key`, replacing what was there.
    pub fn insert(&mut self, key: String, value: V)
        requires
            old(self).wf(),
        ensures
            final(self).wf(),
            final(self).view() == old(self).view().insert(key@, value),
    {
        match self.find(key.as_str()) {
            Some(i) => {
                let ghost s = self.entries@;
                proof {
                    lemma_pairs_map_update(s, i as int, value);
                }
                let k = self.entries[i].0.clone();
                self.entries.set(i, (k, value));
                assert(self.entries@ =~= s.update(i as int, (s[i as int].0, value)));
            },
            None => {
                let ghost s = self.entries@;
                self.entries.push((key, value));
                assert(self.entries@.drop_last() =~= s);
            },
        }
    }

    /// The map read from pairs (a later pair replacing an earlier one with the same key).
    pub fn from_pairs(pairs: Vec<(String, V)>) -> (m: Self)
        ensures
            m.wf(),
            m.view() == pairs_map(pairs@),
    {
        let mut m = KeyedList::new();
        let mut rest = pairs;
        let ghost all = rest@;
        let n = rest.len();
        let mut i: usize = 0;
        while i < n
            invariant
                n == all.len(),
                i <= n,
                rest@ == all.skip(i as int),
                m.wf(),
                m.view() == pairs_map(all.take(i as int)),
            decreases n - i,
        {
            let p = rest.remove(0);
            assert(p == all[i as int]);
            assert(rest@ =~= all.skip(i + 1));
            assert(all.take(i + 1).drop_last() =~= all.take(i as int));
            m.insert(p.0, p.1);
            i += 1;
        }
        assert(all.take(n as int) =~= all);
        m
    }

    /// The pairs, each key once.
    pub fn into_pairs(self) -> (v: Vec<(String, V)>)
        requires
            self.wf(),
        ensures
            distinct_keys(v@),
            pairs_map(v@) == self.view(),
    {
        self.entries
    }
}

/// `KeyedList<String>` without the keys whose value is `value`.
pub open spec fn without_value(m: Map<Seq<char>, String>, value: Seq<char>) -> Map<Seq<char>, String> {
    Map::new(|k: Seq<char>| m.dom().contains(k) && m[k]@ != value, |k: Seq<char>| m[k])
}

pub open spec fn drop_value(s: Seq<(String, String)>, value: Seq<char>) -> Seq<(String, String)>
    decreases s.len(),
{
    if s.len() == 0 {
        s
    } else if s.last().1@ == value {
        drop_value(s.drop_last(), value)
    } else {
        drop_value(s.drop_last(), value).push(s.last())
    }
}

proof fn lemma_drop_value(s: Seq<(String, String)>, value: Seq<char>)
    requires
        distinct_keys(s),
    ensures
        distinct_keys(drop_value(s, value)),
        pairs_map(drop_value(s, value)) == without_value(pairs_map(s), value),
        forall|k: Seq<char>| #[trigger] pairs_map(drop_value(s, value)).dom().contains(k) ==> pairs_map(
            s,
        ).dom().contains(k),
    decreases s.len(),
{
    if s.len() == 0 {
        assert(without_value(pairs_map(s), value) =~= Map::<Seq<char>, String>::empty());
    } else {
        let d = s.drop_last();
        assert(distinct_keys(d)) by {
            assert forall|i: int, j: int| 0 <= i < j < d.len() implies (#[trigger] d[i]).0@ != (
            #[trigger] d[j]).0@ by {
                assert(d[i] == s[i] && d[j] == s[j]);
            }
        }
        lemma_drop_value(d, value);
        let last = s.last();
        assert(!pairs_map(d).dom().contains(last.0@)) by {
            lemma_pairs_map_dom(d, last.0@);
            if pairs_map(d).dom().contains(last.0@) {
                let i = choose|i: int| 0 <= i < d.len() && (#[trigger] d[i]).0@ == last.0@;
                assert(s[i] == d[i]);
            }
        }
        if last.1@ == value {
            assert(pairs_map(drop_value(s, value)) =~= without_value(pairs_map(s), value));
        } else {
            let r = drop_value(d, value);
            assert(distinct_keys(r.push(last))) by {
                assert forall|i: int, j: int| 0 <= i < j < r.push(last).len() implies (
                #[trigger] r.push(last)[i]).0@ != (#[trigger] r.push(last)[j]).0@ by {
                    if j == r.len() {
                        lemma_pairs_map_at(r, i);
                        assert(r.push(last)[i] == r[i]);
                    } else {
                        assert(r.push(last)[i] == r[i] && r.push(last)[j] == r[j]);
                    }
                }
            }
            assert(r.push(last).drop_last() =~= r);
            assert(pairs_map(drop_value(s, value)) =~= without_value(pairs_map(s), value));
        }
    }
}

/// Removes every key whose value is `value`.
pub fn remove_value(m: &mut KeyedList<String>, value: &str)
    requires
        old(m).wf(),
    ensures
        final(m).wf(),
        final(m).view() == without_value(old(m).view(), value@),
{
    let ghost s = m.entries@;
    proof {
        lemma_drop_value(s, value@);
    }
    let mut out: Vec<(String, String)> = Vec::new();
    let mut i: usize = 0;
    while i < m.entries.len()
        invariant
            s == m.entries@,
            i <= s.len(),
            out@ == drop_value(s.take(i as int), value@),
        decreases m.entries.len() - i,
    {
        assert(s.take(i + 1).drop_last() =~= s.take(i as int));
        if !m.entries[i].1.as_str().eq(value) {
            let k = m.entries[i].0.clone();
            let v = m.entries[i].1.clone();
            out.push((k, v));
        }
        i += 1;
    }
    assert(s.take(s.len() as int) =~= s);
    m.entries = out;
}

} // verus!
