//! The balance book: a map from address to amount with an exact
//! `Map`-valued view, backed by an association vector with unique keys.

use vstd::prelude::*;

verus! {

use vstd::string::StringExecFns;

/// The map denoted by an association list: later entries win, though the
/// book keeps its keys unique so no entry ever shadows another.
pub open spec fn map_of(s: Seq<(String, u64)>) -> Map<Seq<char>, u64>
    decreases s.len(),
{
    if s.len() == 0 {
        Map::empty()
    } else {
        map_of(s.drop_last()).insert(s.last().0@, s.last().1)
    }
}

/// Balance of `k` in `m`, defaulting to zero.
pub open spec fn bal(m: Map<Seq<char>, u64>, k: Seq<char>) -> u64 {
    if m.contains_key(k) {
        m[k]
    } else {
        0
    }
}

/// Address-to-amount store. Every address not present holds zero.
#[derive(Debug)]
pub struct BalanceBook {
    pub entries: Vec<(String, u64)>,
}

impl Clone for BalanceBook {
    /// A clone denotes the same map and keeps well-formedness.
    fn clone(&self) -> (r: Self)
        ensures
            r.view() == self.view(),
            self.wf() ==> r.wf(),
            r.spec_len() == self.spec_len(),
    {
        let mut entries: Vec<(String, u64)> = Vec::new();
        let n = self.entries.len();
        let mut i: usize = 0;
        while i < n
            invariant
                i <= n,
                n == self.entries@.len(),
                entries@.len() == i,
                forall|j: int|
                    0 <= j < i ==> (#[trigger] entries@[j]).0@ == self.entries@[j].0@
                        && entries@[j].1 == self.entries@[j].1,
            decreases n - i,
        {
            entries.push((self.entries[i].0.clone(), self.entries[i].1));
            i = i + 1;
        }
        proof {
            lemma_map_of_congruent(entries@, self.entries@);
        }
        BalanceBook { entries }
    }
}

impl BalanceBook {
    /// Keys are pairwise distinct.
    pub open spec fn wf(&self) -> bool {
        forall|i: int, j: int|
            0 <= i < j < self.entries@.len() ==> self.entries@[i].0@ != self.entries@[j].0@
    }

    /// The map this book denotes.
    pub open spec fn view(&self) -> Map<Seq<char>, u64> {
        map_of(self.entries@)
    }

    /// Balance of `k`, defaulting to zero.
    pub open spec fn spec_balance(&self, k: Seq<char>) -> u64 {
        bal(self.view(), k)
    }

    /// An empty book.
    pub fn new() -> (r: BalanceBook)
        ensures
            r.wf(),
            r.view() == Map::<Seq<char>, u64>::empty(),
            r.spec_len() == 0,
    {
        BalanceBook { entries: Vec::new() }
    }

    /// Number of addresses holding an entry.
    pub open spec fn spec_len(&self) -> nat {
        self.entries@.len()
    }

    /// Number of addresses holding an entry.
    pub fn len(&self) -> (r: usize)
        ensures
            r == self.spec_len(),
    {
        self.entries.len()
    }

    /// The entry at a position, for iteration.
    pub fn entry_at(&self, i: usize) -> (r: (&String, u64))
        requires
            i < self.spec_len(),
            self.wf(),
        ensures
            r.0@ == self.entries@[i as int].0@,
            r.1 == self.entries@[i as int].1,
            self.spec_balance(r.0@) == r.1,
    {
        proof {
            lemma_map_of_index(self.entries@, i as int);
        }
        (&self.entries[i].0, self.entries[i].1)
    }

    /// Balance of `key`, zero when absent.
    pub fn get(&self, key: &str) -> (r: u64)
        requires
            self.wf(),
        ensures
            r == self.spec_balance(key@),
    {
        let key_owned = String::from_str(key);
        let n = self.entries.len();
        let mut i: usize = 0;
        while i < n
            invariant
                i <= n,
                n == self.entries@.len(),
                key_owned@ == key@,
                self.wf(),
                forall|j: int| 0 <= j < i ==> self.entries@[j].0@ != key@,
            decreases n - i,
        {
            if self.entries[i].0 == key_owned {
                proof {
                    lemma_map_of_index(self.entries@, i as int);
                }
                return self.entries[i].1;
            }
            i = i + 1;
        }
        proof {
            lemma_map_of_absent(self.entries@, key@);
        }
        0
    }

    /// Sets the balance of `key` to `value`.
    #[verifier::loop_isolation(false)]
    pub fn set(&mut self, key: &str, value: u64)
        requires
            old(self).wf(),
        ensures
            final(self).wf(),
            final(self).view() == old(self).view().insert(key@, value),
            final(self).spec_len() <= old(self).spec_len() + 1,
    {
        let key_owned = String::from_str(key);
        let n = self.entries.len();
        let mut i: usize = 0;
        while i < n
            invariant
                i <= n,
                n == self.entries@.len(),
                key_owned@ == key@,
                *self == *old(self),
                self.wf(),
                forall|j: int| 0 <= j < i ==> self.entries@[j].0@ != key@,
            decreases n - i,
        {
            if self.entries[i].0 == key_owned {
                let ghost pre = self.entries@;
                let ghost e = (key_owned, value);
                self.entries.set(i, (key_owned, value));
                proof {
                    assert(self.entries@ == pre.update(i as int, e));
                    lemma_map_of_update(pre, i as int, e);
                    assert(map_of(self.entries@) == map_of(pre).insert(e.0@, e.1));
                    assert(e.0@ == key@);
                    assert(map_of(self.entries@) == map_of(pre).insert(key@, value));
                    assert(forall|x: int, y: int|
                        0 <= x < y < self.entries@.len() ==> self.entries@[x].0@
                            != self.entries@[y].0@);
                }
                return ;
            }
            i = i + 1;
        }
        let ghost pre = self.entries@;
        let ghost e = (key_owned, value);
        self.entries.push((key_owned, value));
        proof {
            assert(self.entries@.drop_last() =~= pre);
            assert(self.entries@.last() == e);
            assert(map_of(self.entries@) == map_of(pre).insert(e.0@, e.1));
            assert(e.0@ == key@);
            assert(map_of(self.entries@) == map_of(pre).insert(key@, value));
            assert(forall|x: int, y: int|
                0 <= x < y < self.entries@.len() ==> self.entries@[x].0@ != self.entries@[y].0@);
        }
    }

    /// Adds `amount` to the balance of `key`.
    pub fn credit(&mut self, key: &str, amount: u64)
        requires
            old(self).wf(),
            old(self).spec_balance(key@) + amount <= u64::MAX,
        ensures
            final(self).wf(),
            final(self).view() == old(self).view().insert(
                key@,
                (old(self).spec_balance(key@) + amount) as u64,
            ),
            final(self).spec_len() <= old(self).spec_len() + 1,
    {
        let current = self.get(key);
        self.set(key, current + amount);
    }

    /// Removes `amount` from the balance of `key`.
    pub fn debit(&mut self, key: &str, amount: u64)
        requires
            old(self).wf(),
            amount <= old(self).spec_balance(key@),
        ensures
            final(self).wf(),
            final(self).view() == old(self).view().insert(
                key@,
                (old(self).spec_balance(key@) - amount) as u64,
            ),
            final(self).spec_len() <= old(self).spec_len() + 1,
    {
        let current = self.get(key);
        self.set(key, current - amount);
    }
}

/// Pointwise view-equal association lists denote the same map.
pub proof fn lemma_map_of_congruent(a: Seq<(String, u64)>, b: Seq<(String, u64)>)
    requires
        a.len() == b.len(),
        forall|i: int| 0 <= i < a.len() ==> (#[trigger] a[i]).0@ == b[i].0@ && a[i].1 == b[i].1,
    ensures
        map_of(a) == map_of(b),
    decreases a.len(),
{
    if a.len() > 0 {
        lemma_map_of_congruent(a.drop_last(), b.drop_last());
        assert(a.last().0@ == b.last().0@ && a.last().1 == b.last().1);
    }
}

/// In a well-formed association list, the entry at `i` gives the map value
/// of its key.
pub proof fn lemma_map_of_index(s: Seq<(String, u64)>, i: int)
    requires
        0 <= i < s.len(),
        forall|x: int, y: int| 0 <= x < y < s.len() ==> s[x].0@ != s[y].0@,
    ensures
        map_of(s).contains_key(s[i].0@),
        map_of(s)[s[i].0@] == s[i].1,
    decreases s.len(),
{
    if i == s.len() - 1 {
    } else {
        lemma_map_of_index(s.drop_last(), i);
    }
}

/// A key matching no entry is not in the map.
pub proof fn lemma_map_of_absent(s: Seq<(String, u64)>, k: Seq<char>)
    requires
        forall|j: int| 0 <= j < s.len() ==> s[j].0@ != k,
    ensures
        !map_of(s).contains_key(k),
    decreases s.len(),
{
    if s.len() > 0 {
        lemma_map_of_absent(s.drop_last(), k);
    }
}

/// Overwriting the unique entry holding a key updates the map at that key.
proof fn lemma_map_of_update(s: Seq<(String, u64)>, i: int, e: (String, u64))
    requires
        0 <= i < s.len(),
        forall|x: int, y: int| 0 <= x < y < s.len() ==> s[x].0@ != s[y].0@,
        s[i].0@ == e.0@,
    ensures
        map_of(s.update(i, e)) == map_of(s).insert(e.0@, e.1),
    decreases s.len(),
{
    let s2 = s.update(i, e);
    if i == s.len() - 1 {
        assert(s2.drop_last() =~= s.drop_last());
        assert(map_of(s2) =~= map_of(s).insert(e.0@, e.1));
    } else {
        lemma_map_of_update(s.drop_last(), i, e);
        assert(s2.drop_last() =~= s.drop_last().update(i, e));
        assert(s2.last() == s.last());
        assert(s2.last().0@ != e.0@);
        assert(map_of(s2) =~= map_of(s).insert(e.0@, e.1));
    }
}

} // verus!
