//! The focus a tab remembers for each directory it has left.

use vstd::prelude::*;

verus! {

/// The first index at which `s` holds key `k`.
pub open spec fn memo_find(s: Seq<(Seq<char>, usize)>, k: Seq<char>) -> Option<nat>
    decreases s.len(),
{
    if s.len() == 0 {
        None
    } else {
        let f = memo_find(s.drop_last(), k);
        if f is Some {
            f
        } else if s.last().0 == k {
            Some((s.len() - 1) as nat)
        } else {
            None
        }
    }
}

/// The focus remembered for key `k`.
pub open spec fn memo_get(s: Seq<(Seq<char>, usize)>, k: Seq<char>) -> Option<usize> {
    match memo_find(s, k) {
        Some(i) => Some(s[i as int].1),
        None => None,
    }
}

/// `s` with `v` remembered for `k`: the entry for `k` updated in place, or a
/// new one added at the end.
pub open spec fn memo_put(s: Seq<(Seq<char>, usize)>, k: Seq<char>, v: usize) -> Seq<
    (Seq<char>, usize),
> {
    match memo_find(s, k) {
        Some(i) => s.update(i as int, (k, v)),
        None => s.push((k, v)),
    }
}

proof fn lemma_find(s: Seq<(Seq<char>, usize)>, k: Seq<char>)
    ensures
        memo_find(s, k) matches Some(i) ==> i < s.len() && s[i as int].0 == k && forall|j: int|
            0 <= j < i ==> s[j].0 != k,
        memo_find(s, k) is None ==> forall|j: int| 0 <= j < s.len() ==> s[j].0 != k,
    decreases s.len(),
{
    if s.len() > 0 {
        lemma_find(s.drop_last(), k);
        assert forall|j: int| 0 <= j < s.len() - 1 implies s.drop_last()[j] == s[j] by {}
    }
}

proof fn lemma_find_same_keys(s: Seq<(Seq<char>, usize)>, t: Seq<(Seq<char>, usize)>, k: Seq<char>)
    requires
        s.len() == t.len(),
        forall|j: int| 0 <= j < s.len() ==> s[j].0 == t[j].0,
    ensures
        memo_find(s, k) == memo_find(t, k),
    decreases s.len(),
{
    if s.len() > 0 {
        lemma_find_same_keys(s.drop_last(), t.drop_last(), k);
    }
}

/// After remembering `v` for `k`, `k` gives `v` and every other key gives
/// what it gave before.
pub proof fn lemma_get_put(s: Seq<(Seq<char>, usize)>, k: Seq<char>, v: usize, k2: Seq<char>)
    ensures
        memo_get(memo_put(s, k, v), k2) == if k2 == k {
            Some(v)
        } else {
            memo_get(s, k2)
        },
{
    lemma_find(s, k);
    lemma_find(s, k2);
    match memo_find(s, k) {
        Some(i) => {
            let t = s.update(i as int, (k, v));
            lemma_find_same_keys(s, t, k2);
        },
        None => {
            let t = s.push((k, v));
            assert(t.drop_last() =~= s);
        },
    }
}

/// No two entries have the same key.
pub open spec fn keys_unique(s: Seq<(Seq<char>, usize)>) -> bool {
    forall|i: int, j: int| 0 <= i < j < s.len() ==> #[trigger] s[i].0 != #[trigger] s[j].0
}

/// Remembering a focus keeps the keys unique.
pub proof fn lemma_put_keeps_keys_unique(s: Seq<(Seq<char>, usize)>, k: Seq<char>, v: usize)
    requires
        keys_unique(s),
    ensures
        keys_unique(memo_put(s, k, v)),
{
    lemma_find(s, k);
    let t = memo_put(s, k, v);
    assert forall|i: int, j: int| 0 <= i < j < t.len() implies #[trigger] t[i].0 != #[trigger] t[j].0 by {
        if j == s.len() {
            assert(t[i] == s[i]);
        } else {
            assert(s[i].0 != s[j].0);
        }
    }
}

pub open spec fn entries_view(entries: Seq<(String, usize)>) -> Seq<(Seq<char>, usize)> {
    entries.map_values(|e: (String, usize)| (e.0@, e.1))
}

/// A map from directory path to the focus last seen there: each path at
/// most once.
pub struct FocusMemory {
    entries: Vec<(String, usize)>,
}

impl View for FocusMemory {
    type V = Seq<(Seq<char>, usize)>;

    closed spec fn view(&self) -> Seq<(Seq<char>, usize)> {
        entries_view(self.entries@)
    }
}

impl FocusMemory {
    #[verifier::type_invariant]
    closed spec fn inv(&self) -> bool {
        keys_unique(self@)
    }

    proof fn lemma_view(&self)
        ensures
            self@.len() == self.entries@.len(),
            forall|i: int|
                0 <= i < self.entries@.len() ==> #[trigger] self@[i] == (
                    self.entries@[i].0@,
                    self.entries@[i].1,
                ),
    {
    }

    /// An empty memory.
    pub fn new() -> (r: FocusMemory)
        ensures
            r@ == Seq::<(Seq<char>, usize)>::empty(),
            keys_unique(r@),
    {
        let r = FocusMemory { entries: Vec::new() };
        assert(r@ =~= Seq::<(Seq<char>, usize)>::empty());
        r
    }

    fn find(&self, key: &String) -> (r: Option<usize>)
        ensures
            r is Some == memo_find(self@, key@) is Some,
            r is Some ==> r.unwrap() == memo_find(self@, key@).unwrap(),
            r is Some ==> r.unwrap() < self@.len(),
    {
        proof {
            self.lemma_view();
        }
        let mut i: usize = 0;
        while i < self.entries.len()
            invariant
                i <= self.entries@.len(),
                self@.len() == self.entries@.len(),
                memo_find(self@.take(i as int), key@) is None,
            decreases self.entries@.len() - i,
        {
            proof {
                assert(self@.take(i + 1).drop_last() =~= self@.take(i as int));
                assert(self@.take(i + 1).last() == (self.entries@[i as int].0@, self.entries@[i as int].1));
            }
            if self.entries[i].0 == *key {
                proof {
                    lemma_find(self@.take(i + 1), key@);
                    lemma_find(self@, key@);
                    assert forall|j: int| 0 <= j < i implies self@[j].0 != key@ by {
                        assert(self@.take(i as int)[j] == self@[j]);
                        lemma_find(self@.take(i as int), key@);
                    }
                    assert(self@[i as int].0 == key@);
                    assert(memo_find(self@, key@) == Some(i as nat));
                }
                return Some(i);
            }
            i = i + 1;
        }
        proof {
            assert(self@.take(i as int) =~= self@);
        }
        None
    }

    /// The focus remembered for `key`, if any.
    pub fn get(&self, key: &String) -> (r: Option<usize>)
        ensures
            r == memo_get(self@, key@),
    {
        proof {
            self.lemma_view();
        }
        match self.find(key) {
            Some(i) => Some(self.entries[i].1),
            None => None,
        }
    }

    /// Remembers `value` for `key`, replacing what was remembered for it.
    pub fn insert(&mut self, key: String, value: usize)
        ensures
            final(self)@ == memo_put(old(self)@, key@, value),
            keys_unique(final(self)@),
    {
        let ghost s0 = self@;
        proof {
            use_type_invariant(&*self);
            self.lemma_view();
            lemma_put_keeps_keys_unique(s0, key@, value);
        }
        match self.find(&key) {
            Some(i) => {
                let ghost k = key@;
                let mut entries: Vec<(String, usize)> = Vec::new();
                std::mem::swap(&mut self.entries, &mut entries);
                entries.set(i, (key, value));
                proof {
                    assert(entries_view(entries@) =~= s0.update(i as int, (k, value)));
                }
                self.entries = entries;
            },
            None => {
                let ghost k = key@;
                let mut entries: Vec<(String, usize)> = Vec::new();
                std::mem::swap(&mut self.entries, &mut entries);
                entries.push((key, value));
                proof {
                    assert(entries_view(entries@) =~= s0.push((k, value)));
                }
                self.entries = entries;
            },
        }
    }
}

} // verus!
