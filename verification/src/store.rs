//! An address-keyed record store, viewed as a `Map` from address bytes to the
//! record's mathematical view.
//!
//! Records sit in a vector of (address, record) pairs with pairwise distinct
//! addresses; every operation's contract is stated over the map view.

use vstd::prelude::*;

verus! {

/// The address of the entry at position `i`.
pub open spec fn key_at<V>(s: Seq<(Vec<u8>, V)>, i: int) -> Seq<u8> {
    s[i].0@
}

/// No two entries share an address.
pub open spec fn unique_keys<V>(s: Seq<(Vec<u8>, V)>) -> bool {
    forall|i: int, j: int| 0 <= i < j < s.len() ==> key_at(s, i) != key_at(s, j)
}

/// Some entry carries the address `k`.
pub open spec fn has_key<V>(s: Seq<(Vec<u8>, V)>, k: Seq<u8>) -> bool {
    exists|i: int| 0 <= i < s.len() && #[trigger] key_at(s, i) == k
}

/// The map the entry sequence denotes; a later entry wins on a repeated
/// address, though a well-formed store never holds one.
pub open spec fn entries_map<V: View>(s: Seq<(Vec<u8>, V)>) -> Map<Seq<u8>, <V as View>::V>
    decreases s.len(),
{
    if s.len() == 0 {
        Map::empty()
    } else {
        entries_map(s.drop_last()).insert(s.last().0@, s.last().1@)
    }
}

/// The denoted map holds exactly the addresses the entries carry.
pub proof fn lemma_entries_map_contains<V: View>(s: Seq<(Vec<u8>, V)>, k: Seq<u8>)
    ensures
        entries_map(s).contains_key(k) <==> has_key(s, k),
    decreases s.len(),
{
    if s.len() > 0 {
        let dl = s.drop_last();
        lemma_entries_map_contains(dl, k);
        if s.last().0@ == k {
            assert(key_at(s, s.len() - 1) == k);
        } else {
            if has_key(dl, k) {
                let i = choose|i: int| 0 <= i < dl.len() && #[trigger] key_at(dl, i) == k;
                assert(key_at(s, i) == k);
            }
            if has_key(s, k) {
                let i = choose|i: int| 0 <= i < s.len() && #[trigger] key_at(s, i) == k;
                assert(i < s.len() - 1);
                assert(key_at(dl, i) == k);
            }
        }
    }
}

/// Dropping the last entry keeps the addresses pairwise distinct.
pub proof fn lemma_unique_keys_drop_last<V>(s: Seq<(Vec<u8>, V)>)
    requires
        unique_keys(s),
        s.len() > 0,
    ensures
        unique_keys(s.drop_last()),
{
    let dl = s.drop_last();
    assert forall|x: int, y: int| 0 <= x < y < dl.len() implies key_at(dl, x) != key_at(dl, y) by {
        assert(key_at(dl, x) == key_at(s, x));
        assert(key_at(dl, y) == key_at(s, y));
    }
}

/// In a store without repeated addresses, the denoted map sends each entry's
/// address to that entry's view.
pub proof fn lemma_entries_map_index<V: View>(s: Seq<(Vec<u8>, V)>, i: int)
    requires
        unique_keys(s),
        0 <= i < s.len(),
    ensures
        entries_map(s).contains_key(key_at(s, i)),
        entries_map(s)[key_at(s, i)] == s[i].1@,
    decreases s.len(),
{
    if i < s.len() - 1 {
        let dl = s.drop_last();
        lemma_unique_keys_drop_last(s);
        lemma_entries_map_index(dl, i);
        assert(key_at(dl, i) == key_at(s, i));
        assert(key_at(s, i) != key_at(s, s.len() - 1));
    }
}

/// Appending an entry denotes inserting its pair into the map.
pub proof fn lemma_entries_map_push<V: View>(s: Seq<(Vec<u8>, V)>, p: (Vec<u8>, V))
    ensures
        entries_map(s.push(p)) == entries_map(s).insert(p.0@, p.1@),
{
    assert(s.push(p).drop_last() =~= s);
    assert(s.push(p).last() == p);
}

/// Removing the entry at `i` denotes removing its address from the map, and
/// keeps the addresses pairwise distinct.
pub proof fn lemma_entries_map_remove<V: View>(s: Seq<(Vec<u8>, V)>, i: int)
    requires
        unique_keys(s),
        0 <= i < s.len(),
    ensures
        entries_map(s.remove(i)) == entries_map(s).remove(key_at(s, i)),
        unique_keys(s.remove(i)),
    decreases s.len(),
{
    let r = s.remove(i);
    assert forall|x: int, y: int| 0 <= x < y < r.len() implies key_at(r, x) != key_at(r, y) by {
        let x0 = if x < i { x } else { x + 1 };
        let y0 = if y < i { y } else { y + 1 };
        assert(key_at(r, x) == key_at(s, x0));
        assert(key_at(r, y) == key_at(s, y0));
    }
    if i == s.len() - 1 {
        assert(r =~= s.drop_last());
        lemma_entries_map_contains(s.drop_last(), key_at(s, i));
        if has_key(s.drop_last(), key_at(s, i)) {
            let j = choose|j: int|
                0 <= j < s.drop_last().len() && #[trigger] key_at(s.drop_last(), j) == key_at(s, i);
            assert(key_at(s, j) == key_at(s, i));
            assert(false);
        }
        assert(entries_map(s.drop_last()) =~= entries_map(s).remove(key_at(s, i)));
    } else {
        let dl = s.drop_last();
        lemma_unique_keys_drop_last(s);
        lemma_entries_map_remove(dl, i);
        assert(r.drop_last() =~= dl.remove(i));
        assert(r.last() == s.last());
        assert(key_at(dl, i) == key_at(s, i));
        assert(key_at(s, i) != key_at(s, s.len() - 1));
        assert(entries_map(r) == entries_map(dl).remove(key_at(s, i)).insert(s.last().0@, s.last().1@));
        assert(entries_map(dl).remove(key_at(s, i)).insert(s.last().0@, s.last().1@)
            =~= entries_map(dl).insert(s.last().0@, s.last().1@).remove(key_at(s, i)));
    }
}

/// `true` exactly when the two byte strings hold the same bytes.
pub fn bytes_eq(a: &Vec<u8>, b: &Vec<u8>) -> (r: bool)
    ensures
        r == (a@ == b@),
{
    if a.len() != b.len() {
        return false;
    }
    let mut i: usize = 0;
    while i < a.len()
        invariant
            a@.len() == b@.len(),
            i <= a@.len(),
            forall|j: int| 0 <= j < i ==> a@[j] == b@[j],
        decreases a@.len() - i,
    {
        if a[i] != b[i] {
            return false;
        }
        i += 1;
    }
    proof {
        assert(a@ =~= b@);
    }
    true
}

/// A fresh byte string holding the same bytes.
pub fn clone_bytes(v: &Vec<u8>) -> (r: Vec<u8>)
    ensures
        r@ == v@,
{
    let mut r: Vec<u8> = Vec::new();
    let mut i: usize = 0;
    while i < v.len()
        invariant
            i <= v@.len(),
            r@.len() == i,
            forall|j: int| 0 <= j < i ==> r@[j] == v@[j],
        decreases v@.len() - i,
    {
        r.push(v[i]);
        i += 1;
    }
    proof {
        assert(r@ =~= v@);
    }
    r
}

/// A record store keyed by address bytes.
pub struct Store<V> {
    pub entries: Vec<(Vec<u8>, V)>,
}

impl<V: View> View for Store<V> {
    type V = Map<Seq<u8>, <V as View>::V>;

    open spec fn view(&self) -> Map<Seq<u8>, <V as View>::V> {
        entries_map(self.entries@)
    }
}

impl<V: View> Store<V> {
    /// No two entries share an address.
    pub open spec fn wf(&self) -> bool {
        unique_keys(self.entries@)
    }

    /// An empty store.
    pub fn new() -> (s: Self)
        ensures
            s.wf(),
            s@ == Map::<Seq<u8>, <V as View>::V>::empty(),
    {
        Store { entries: Vec::new() }
    }

    /// The position of the entry at address `key`, if one is held.
    fn find(&self, key: &Vec<u8>) -> (r: Option<usize>)
        ensures
            match r {
                Some(i) => i < self.entries@.len() && key_at(self.entries@, i as int) == key@,
                None => !has_key(self.entries@, key@),
            },
    {
        let mut i: usize = 0;
        while i < self.entries.len()
            invariant
                i <= self.entries@.len(),
                forall|j: int| 0 <= j < i ==> key_at(self.entries@, j) != key@,
            decreases self.entries@.len() - i,
        {
            if bytes_eq(&self.entries[i].0, key) {
                return Some(i);
            }
            i += 1;
        }
        None
    }

    /// Whether a record is held at `key`.
    pub fn contains(&self, key: &Vec<u8>) -> (r: bool)
        ensures
            r == self@.contains_key(key@),
    {
        proof {
            lemma_entries_map_contains(self.entries@, key@);
        }
        match self.find(key) {
            Some(_) => true,
            None => false,
        }
    }

    /// The record at `key`, if one is held.
    pub fn get(&self, key: &Vec<u8>) -> (r: Option<&V>)
        requires
            self.wf(),
        ensures
            match r {
                Some(v) => self@.contains_key(key@) && v@ == self@[key@],
                None => !self@.contains_key(key@),
            },
    {
        proof {
            lemma_entries_map_contains(self.entries@, key@);
        }
        match self.find(key) {
            Some(i) => {
                proof {
                    lemma_entries_map_index(self.entries@, i as int);
                }
                Some(&self.entries[i].1)
            },
            None => None,
        }
    }

    /// Put a record at a free address.
    pub fn insert(&mut self, key: Vec<u8>, value: V)
        requires
            old(self).wf(),
            !old(self)@.contains_key(key@),
        ensures
            final(self).wf(),
            final(self)@ == old(self)@.insert(key@, value@),
    {
        proof {
            lemma_entries_map_contains(self.entries@, key@);
            lemma_entries_map_push(self.entries@, (key, value));
        }
        let ghost pre = self.entries@;
        self.entries.push((key, value));
        proof {
            assert forall|x: int, y: int|
                0 <= x < y < self.entries@.len() implies key_at(self.entries@, x) != key_at(
                self.entries@,
                y,
            ) by {
                if y < pre.len() {
                    assert(key_at(pre, x) != key_at(pre, y));
                } else {
                    assert(key_at(self.entries@, x) == key_at(pre, x));
                }
            }
        }
    }

    /// Take the record at an occupied address out.
    pub fn remove(&mut self, key: &Vec<u8>)
        requires
            old(self).wf(),
            old(self)@.contains_key(key@),
        ensures
            final(self).wf(),
            final(self)@ == old(self)@.remove(key@),
    {
        proof {
            lemma_entries_map_contains(self.entries@, key@);
        }
        let found = self.find(key);
        match found {
            Some(i) => {
                proof {
                    lemma_entries_map_remove(self.entries@, i as int);
                }
                self.entries.remove(i);
            },
            None => {
                proof {
                    assert(false);
                }
            },
        }
    }

    /// Replace the record at an occupied address.
    pub fn set(&mut self, key: &Vec<u8>, value: V)
        requires
            old(self).wf(),
            old(self)@.contains_key(key@),
        ensures
            final(self).wf(),
            final(self)@ == old(self)@.insert(key@, value@),
    {
        self.remove(key);
        let owned = clone_bytes(key);
        self.insert(owned, value);
        proof {
            assert(old(self)@.remove(key@).insert(key@, value@) =~= old(self)@.insert(
                key@,
                value@,
            ));
        }
    }
}

} // verus!
