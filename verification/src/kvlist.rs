//! A small association list with string keys, the store behind the keyset,
//! theme and workflow managers: insertion order kept, keys unique, lookups
//! by character-for-character key equality.

use vstd::prelude::*;

verus! {

/// Index of the entry whose key reads `k`, or `-1` when there is none.
pub open spec fn find_key<T>(s: Seq<(String, T)>, k: Seq<char>) -> int
    decreases s.len(),
{
    if s.len() == 0 {
        -1
    } else if s[0].0@ == k {
        0
    } else {
        let r = find_key(s.drop_first(), k);
        if r < 0 {
            -1
        } else {
            1 + r
        }
    }
}

/// Whether some entry's key reads `k`.
pub open spec fn has_key<T>(s: Seq<(String, T)>, k: Seq<char>) -> bool {
    find_key(s, k) >= 0
}

pub proof fn lemma_find_key<T>(s: Seq<(String, T)>, k: Seq<char>)
    ensures
        has_key(s, k) ==> {
            &&& 0 <= find_key(s, k) < s.len()
            &&& s[find_key(s, k)].0@ == k
            &&& forall|j: int| 0 <= j < find_key(s, k) ==> s[j].0@ != k
        },
        !has_key(s, k) ==> forall|j: int| 0 <= j < s.len() ==> s[j].0@ != k,
    decreases s.len(),
{
    if s.len() > 0 && s[0].0@ != k {
        let t = s.drop_first();
        lemma_find_key(t, k);
        if has_key(t, k) {
            let r = find_key(t, k);
            assert(s[r + 1] == t[r]);
            assert forall|j: int| 0 <= j < r + 1 implies s[j].0@ != k by {
                if j >= 1 {
                    assert(s[j] == t[j - 1]);
                }
            }
        } else {
            assert forall|j: int| 0 <= j < s.len() implies s[j].0@ != k by {
                if j >= 1 {
                    assert(s[j] == t[j - 1]);
                }
            }
        }
    }
}

/// If some position's key reads `k`, the list has `k`.
pub proof fn lemma_has_entry_witness<T>(s: Seq<(String, T)>, k: Seq<char>, i: int)
    requires
        0 <= i < s.len(),
        s[i].0@ == k,
    ensures
        has_key(s, k),
    decreases s.len(),
{
    if s[0].0@ != k {
        lemma_has_entry_witness(s.drop_first(), k, i - 1);
    }
}

/// If `k` first occurs at `i`, that is where `find_key` points.
pub proof fn lemma_find_key_at<T>(s: Seq<(String, T)>, k: Seq<char>, i: int)
    requires
        0 <= i < s.len(),
        s[i].0@ == k,
        forall|j: int| 0 <= j < i ==> s[j].0@ != k,
    ensures
        find_key(s, k) == i,
    decreases s.len(),
{
    if s[0].0@ != k {
        lemma_find_key_at(s.drop_first(), k, i - 1);
    }
}

/// An insertion-ordered map from string keys to values.
pub struct KvList<T> {
    /// The entries, oldest first; keys unique.
    pub entries: Vec<(String, T)>,
}

impl<T> KvList<T> {
    /// Keys are unique, character for character.
    pub open spec fn wf(self) -> bool {
        forall|i: int, j: int|
            0 <= i < j < self.entries@.len() ==> self.entries@[i].0@ != self.entries@[j].0@
    }

    /// An empty list.
    pub fn new() -> (r: Self)
        ensures
            r.wf(),
            r.entries@.len() == 0,
    {
        KvList { entries: Vec::new() }
    }

    /// How many entries there are.
    pub fn len(&self) -> (r: usize)
        ensures
            r == self.entries@.len(),
    {
        self.entries.len()
    }

    /// Index of the entry for `name`, if it exists.
    fn index_of(&self, name: &str) -> (r: Option<usize>)
        ensures
            match r {
                Some(i) => i == find_key(self.entries@, name@),
                None => !has_key(self.entries@, name@),
            },
    {
        let mut i: usize = 0;
        while i < self.entries.len()
            invariant
                i <= self.entries@.len(),
                forall|j: int| 0 <= j < i ==> self.entries@[j].0@ != name@,
            decreases self.entries@.len() - i,
        {
            if crate::commands::str_eq(self.entries[i].0.as_str(), name) {
                proof {
                    lemma_find_key_at(self.entries@, name@, i as int);
                }
                return Some(i);
            }
            i = i + 1;
        }
        proof {
            lemma_find_key(self.entries@, name@);
            if has_key(self.entries@, name@) {
                assert(self.entries@[find_key(self.entries@, name@)].0@ == name@);
            }
        }
        None
    }

    /// The value stored under `name`, if any.
    pub fn get(&self, name: &str) -> (r: Option<&T>)
        ensures
            has_key(self.entries@, name@) ==> r == Some(
                &self.entries@[find_key(self.entries@, name@)].1,
            ),
            !has_key(self.entries@, name@) ==> r == None::<&T>,
    {
        match self.index_of(name) {
            Some(i) => {
                proof {
                    lemma_find_key(self.entries@, name@);
                }
                Some(&self.entries[i].1)
            },
            None => None,
        }
    }

    /// Whether `name` is present.
    pub fn contains(&self, name: &str) -> (r: bool)
        ensures
            r == has_key(self.entries@, name@),
    {
        match self.index_of(name) {
            Some(_) => true,
            None => false,
        }
    }

    /// Stores `value` under `key`: an existing entry is replaced in place,
    /// a new key goes to the end.
    pub fn insert(&mut self, key: String, value: T)
        requires
            old(self).wf(),
        ensures
            final(self).wf(),
            !has_key(old(self).entries@, key@) ==> final(self).entries@.len() == old(self).entries@.len() + 1 && final(self).entries@.drop_last() == old(self).entries@ && final(self).entries@.last().0@ == key@ && final(self).entries@.last().1 == value,
            has_key(old(self).entries@, key@) ==> {
                let i = find_key(old(self).entries@, key@);
                &&& final(self).entries@.len() == old(self).entries@.len()
                &&& forall|j: int|
                    0 <= j < old(self).entries@.len() && j != i ==> final(self).entries@[j] == old(self).entries@[j]
                &&& final(self).entries@[i].0@ == key@
                &&& final(self).entries@[i].1 == value
            },
    {
        match self.index_of(key.as_str()) {
            Some(i) => {
                proof {
                    lemma_find_key(old(self).entries@, key@);
                }
                let _ = self.entries.remove(i);
                self.entries.insert(i, (key, value));
                proof {
                    let iold = i as int;
                    assert(final(self).entries@ =~= old(self).entries@.update(
                        iold,
                        final(self).entries@[iold],
                    ));
                }
            },
            None => {
                self.entries.push((key, value));
                proof {
                    assert(final(self).entries@.drop_last() =~= old(self).entries@);
                    lemma_find_key(old(self).entries@, key@);
                }
            },
        }
    }

    /// All keys, in insertion order.
    pub fn keys(&self) -> (r: Vec<&String>)
        ensures
            r@.len() == self.entries@.len(),
            forall|j: int| 0 <= j < r@.len() ==> r@[j]@ == self.entries@[j].0@,
    {
        let mut r: Vec<&String> = Vec::new();
        let mut i: usize = 0;
        while i < self.entries.len()
            invariant
                i <= self.entries@.len(),
                r@.len() == i,
                forall|j: int| 0 <= j < i ==> r@[j]@ == self.entries@[j].0@,
            decreases self.entries@.len() - i,
        {
            r.push(&self.entries[i].0);
            i = i + 1;
        }
        r
    }
}

} // verus!
