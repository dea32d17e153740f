//! Small string-keyed collections with exact mathematical views: a set of
//! strings, a string-to-count table and a string-to-string table. Each keeps
//! its keys unique, so its length is the size of its view.

use vstd::prelude::*;

verus! {

/// Whether two strings hold the same characters.
pub fn text_eq(a: &str, b: &str) -> (r: bool)
    ensures
        r == (a@ == b@),
{
    a.to_owned() == b.to_owned()
}

/// A set of strings.
pub struct TextSet {
    items: Vec<String>,
}

impl TextSet {
    /// The members in insertion order.
    pub closed spec fn keys(&self) -> Seq<Seq<char>> {
        Seq::new(self.items@.len(), |i: int| self.items@[i]@)
    }

    /// No member is stored twice.
    pub closed spec fn wf(&self) -> bool {
        self.keys().no_duplicates()
    }
}

impl View for TextSet {
    type V = Set<Seq<char>>;

    closed spec fn view(&self) -> Set<Seq<char>> {
        self.keys().to_set()
    }
}

impl TextSet {
    /// The empty set.
    pub fn new() -> (s: TextSet)
        ensures
            s.wf(),
            s@ == Set::<Seq<char>>::empty(),
    {
        let s = TextSet { items: Vec::new() };
        assert(s.keys() =~= Seq::<Seq<char>>::empty());
        assert(s@ =~= Set::<Seq<char>>::empty());
        s
    }

    fn position(&self, x: &str) -> (r: Option<usize>)
        ensures
            match r {
                Some(i) => i < self.keys().len() && self.keys()[i as int] == x@,
                None => !self.keys().contains(x@),
            },
    {
        let mut i: usize = 0;
        while i < self.items.len()
            invariant
                i <= self.items@.len(),
                forall|j: int| 0 <= j < i ==> self.keys()[j] != x@,
            decreases self.items@.len() - i,
        {
            if text_eq(self.items[i].as_str(), x) {
                return Some(i);
            }
            i = i + 1;
        }
        None
    }

    /// Whether `x` is a member.
    pub fn contains(&self, x: &str) -> (b: bool)
        ensures
            b == self@.contains(x@),
    {
        let r = self.position(x);
        proof {
            if r is Some {
                assert(self@.contains(x@));
            }
        }
        r.is_some()
    }

    /// Adds `x`; returns whether it was not a member before.
    pub fn insert(&mut self, x: &str) -> (added: bool)
        requires
            old(self).wf(),
        ensures
            final(self).wf(),
            final(self)@ == old(self)@.insert(x@),
            added == !old(self)@.contains(x@),
    {
        let r = self.position(x);
        if r.is_some() {
            assert(old(self)@.contains(x@));
            assert(self@ =~= old(self)@.insert(x@));
            false
        } else {
            let ghost before = self.keys();
            self.items.push(x.to_owned());
            assert(self.keys() =~= before.push(x@));
            proof {
                lemma_push_contains(before, x@);
            }
            assert(self@ =~= old(self)@.insert(x@));
            true
        }
    }

    /// Number of members.
    pub fn len(&self) -> (n: usize)
        requires
            self.wf(),
        ensures
            n == self@.len(),
            self@.finite(),
    {
        proof {
            self.keys().unique_seq_to_set();
        }
        self.items.len()
    }

    /// Removes every member.
    pub fn clear(&mut self)
        ensures
            final(self).wf(),
            final(self)@ == Set::<Seq<char>>::empty(),
    {
        self.items.clear();
        assert(self.keys() =~= Seq::<Seq<char>>::empty());
        assert(self@ =~= Set::<Seq<char>>::empty());
    }
}

/// Members of a sequence after a push.
proof fn lemma_push_contains(s: Seq<Seq<char>>, x: Seq<char>)
    ensures
        forall|k: Seq<char>| #[trigger] s.push(x).contains(k) <==> (s.contains(k) || k == x),
{
    assert forall|k: Seq<char>| #[trigger] s.push(x).contains(k) implies (s.contains(k) || k == x) by {
        let i = choose|i: int| 0 <= i < s.push(x).len() && s.push(x)[i] == k;
        if i < s.len() {
            assert(s[i] == k);
        }
    }
    assert forall|k: Seq<char>| (s.contains(k) || k == x) implies #[trigger] s.push(x).contains(k) by {
        if k == x {
            assert(s.push(x)[s.len() as int] == x);
        } else {
            let i = choose|i: int| 0 <= i < s.len() && s[i] == k;
            assert(s.push(x)[i] == k);
        }
    }
}

/// In a sequence without duplicates, the index of the element at `i` is `i`.
proof fn lemma_index_of_unique(s: Seq<Seq<char>>, i: int)
    requires
        s.no_duplicates(),
        0 <= i < s.len(),
    ensures
        s.index_of(s[i]) == i,
{
    assert(s.contains(s[i]));
    let j = s.index_of(s[i]);
    assert(0 <= j < s.len() && s[j] == s[i]);
}

/// A table from strings to counters.
pub struct TextCounts {
    items: Vec<(String, u32)>,
}

impl TextCounts {
    /// The keys in insertion order.
    pub closed spec fn keys(&self) -> Seq<Seq<char>> {
        Seq::new(self.items@.len(), |i: int| self.items@[i].0@)
    }

    /// No key is stored twice.
    pub closed spec fn wf(&self) -> bool {
        self.keys().no_duplicates()
    }
}

impl View for TextCounts {
    type V = Map<Seq<char>, u32>;

    closed spec fn view(&self) -> Map<Seq<char>, u32> {
        Map::new(
            |k: Seq<char>| self.keys().contains(k),
            |k: Seq<char>| self.items@[self.keys().index_of(k)].1,
        )
    }
}

impl TextCounts {
    /// The empty table.
    pub fn new() -> (t: TextCounts)
        ensures
            t.wf(),
            t@ == Map::<Seq<char>, u32>::empty(),
    {
        let t = TextCounts { items: Vec::new() };
        assert(t@ =~= Map::<Seq<char>, u32>::empty());
        t
    }

    fn position(&self, x: &str) -> (r: Option<usize>)
        requires
            self.wf(),
        ensures
            match r {
                Some(i) => i < self.keys().len() && self.keys()[i as int] == x@
                    && self.keys().index_of(x@) == i,
                None => !self.keys().contains(x@),
            },
    {
        let mut i: usize = 0;
        while i < self.items.len()
            invariant
                self.wf(),
                i <= self.items@.len(),
                forall|j: int| 0 <= j < i ==> self.keys()[j] != x@,
            decreases self.items@.len() - i,
        {
            if text_eq(self.items[i].0.as_str(), x) {
                proof {
                    lemma_index_of_unique(self.keys(), i as int);
                }
                return Some(i);
            }
            i = i + 1;
        }
        None
    }

    /// The count stored for `x`.
    pub fn get(&self, x: &str) -> (r: Option<u32>)
        requires
            self.wf(),
        ensures
            match r {
                Some(n) => self@.contains_key(x@) && self@[x@] == n,
                None => !self@.contains_key(x@),
            },
    {
        match self.position(x) {
            Some(i) => Some(self.items[i].1),
            None => None,
        }
    }

    /// Adds one to the count of `x` (a missing key counts as zero).
    pub fn increment(&mut self, x: &str)
        requires
            old(self).wf(),
            old(self)@.contains_key(x@) ==> old(self)@[x@] < u32::MAX,
        ensures
            final(self).wf(),
            final(self)@ == old(self)@.insert(
                x@,
                (if old(self)@.contains_key(x@) {
                    old(self)@[x@] + 1
                } else {
                    1
                }) as u32,
            ),
    {
        match self.position(x) {
            Some(i) => {
                let ghost before = self.keys();
                let n = self.items[i].1;
                self.items[i].1 = n + 1;
                assert(self.keys() =~= before);
                assert(self@ =~= old(self)@.insert(x@, (n + 1) as u32));
            },
            None => {
                let ghost before = self.keys();
                self.items.push((x.to_owned(), 1));
                assert(self.keys() =~= before.push(x@));
                proof {
                    lemma_push_contains(before, x@);
                }
                proof {
                    assert forall|k: Seq<char>| #[trigger] before.contains(k) implies self.keys().index_of(k)
                        == before.index_of(k) by {
                        let j = before.index_of(k);
                        lemma_index_of_unique(before, j);
                        lemma_index_of_unique(self.keys(), j);
                    }
                    lemma_index_of_unique(self.keys(), before.len() as int);
                }
                assert(self@ =~= old(self)@.insert(x@, 1u32));
            },
        }
    }

    /// Number of keys.
    pub fn len(&self) -> (n: usize)
        requires
            self.wf(),
        ensures
            n == self@.dom().len(),
            n == self.keys().len(),
            self@.dom().finite(),
    {
        proof {
            self.keys().unique_seq_to_set();
            assert(self@.dom() =~= self.keys().to_set());
        }
        self.items.len()
    }

    /// The `i`-th key in insertion order and its count.
    pub fn entry_at(&self, i: usize) -> (r: (&String, u32))
        requires
            self.wf(),
            i < self.keys().len(),
        ensures
            r.0@ == self.keys()[i as int],
            self@.contains_key(r.0@),
            r.1 == self@[r.0@],
    {
        proof {
            lemma_index_of_unique(self.keys(), i as int);
        }
        (&self.items[i].0, self.items[i].1)
    }
}

/// A table from strings to strings.
pub struct TextMap {
    items: Vec<(String, String)>,
}

impl TextMap {
    /// The keys in insertion order.
    pub closed spec fn keys(&self) -> Seq<Seq<char>> {
        Seq::new(self.items@.len(), |i: int| self.items@[i].0@)
    }

    /// No key is stored twice.
    pub closed spec fn wf(&self) -> bool {
        self.keys().no_duplicates()
    }
}

impl View for TextMap {
    type V = Map<Seq<char>, Seq<char>>;

    closed spec fn view(&self) -> Map<Seq<char>, Seq<char>> {
        Map::new(
            |k: Seq<char>| self.keys().contains(k),
            |k: Seq<char>| self.items@[self.keys().index_of(k)].1@,
        )
    }
}

impl TextMap {
    /// The empty table.
    pub fn new() -> (t: TextMap)
        ensures
            t.wf(),
            t@ == Map::<Seq<char>, Seq<char>>::empty(),
    {
        let t = TextMap { items: Vec::new() };
        assert(t@ =~= Map::<Seq<char>, Seq<char>>::empty());
        t
    }

    fn position(&self, x: &str) -> (r: Option<usize>)
        requires
            self.wf(),
        ensures
            match r {
                Some(i) => i < self.keys().len() && self.keys()[i as int] == x@
                    && self.keys().index_of(x@) == i,
                None => !self.keys().contains(x@),
            },
    {
        let mut i: usize = 0;
        while i < self.items.len()
            invariant
                self.wf(),
                i <= self.items@.len(),
                forall|j: int| 0 <= j < i ==> self.keys()[j] != x@,
            decreases self.items@.len() - i,
        {
            if text_eq(self.items[i].0.as_str(), x) {
                proof {
                    lemma_index_of_unique(self.keys(), i as int);
                }
                return Some(i);
            }
            i = i + 1;
        }
        None
    }

    /// The value stored for `x`.
    pub fn get(&self, x: &str) -> (r: Option<&String>)
        requires
            self.wf(),
        ensures
            match r {
                Some(v) => self@.contains_key(x@) && self@[x@] == v@,
                None => !self@.contains_key(x@),
            },
    {
        match self.position(x) {
            Some(i) => Some(&self.items[i].1),
            None => None,
        }
    }

    /// Sets the value of `key`, replacing any earlier one.
    pub fn insert(&mut self, key: String, value: String)
        requires
            old(self).wf(),
        ensures
            final(self).wf(),
            final(self)@ == old(self)@.insert(key@, value@),
    {
        match self.position(key.as_str()) {
            Some(i) => {
                let ghost before = self.keys();
                self.items[i].1 = value;
                assert(self.keys() =~= before);
                assert(self@ =~= old(self)@.insert(key@, value@));
            },
            None => {
                let ghost before = self.keys();
                let ghost k = key@;
                let ghost v = value@;
                self.items.push((key, value));
                assert(self.keys() =~= before.push(k));
                proof {
                    lemma_push_contains(before, k);
                    assert forall|q: Seq<char>| #[trigger] before.contains(q) implies self.keys().index_of(q)
                        == before.index_of(q) by {
                        let j = before.index_of(q);
                        lemma_index_of_unique(before, j);
                        lemma_index_of_unique(self.keys(), j);
                    }
                    lemma_index_of_unique(self.keys(), before.len() as int);
                }
                assert(self@ =~= old(self)@.insert(k, v));
            },
        }
    }

    /// Number of keys.
    pub fn len(&self) -> (n: usize)
        requires
            self.wf(),
        ensures
            n == self@.dom().len(),
            self@.dom().finite(),
    {
        proof {
            self.keys().unique_seq_to_set();
            assert(self@.dom() =~= self.keys().to_set());
        }
        self.items.len()
    }
}

/// A table from strings to values of a copyable type.
pub struct TextTable<V> {
    items: Vec<(String, V)>,
}

impl<V: Copy> TextTable<V> {
    /// The keys in insertion order.
    pub closed spec fn keys(&self) -> Seq<Seq<char>> {
        Seq::new(self.items@.len(), |i: int| self.items@[i].0@)
    }

    /// No key is stored twice.
    pub closed spec fn wf(&self) -> bool {
        self.keys().no_duplicates()
    }

    /// The table as a map.
    pub closed spec fn map(&self) -> Map<Seq<char>, V> {
        Map::new(|k: Seq<char>| self.keys().contains(k), |k: Seq<char>| self.items@[self.keys().index_of(k)].1)
    }

    /// The empty table.
    pub fn new() -> (t: TextTable<V>)
        ensures
            t.wf(),
            t.map() == Map::<Seq<char>, V>::empty(),
    {
        let t = TextTable { items: Vec::new() };
        assert(t.map() =~= Map::<Seq<char>, V>::empty());
        t
    }

    fn position(&self, x: &str) -> (r: Option<usize>)
        requires
            self.wf(),
        ensures
            match r {
                Some(i) => i < self.keys().len() && self.keys()[i as int] == x@
                    && self.keys().index_of(x@) == i,
                None => !self.keys().contains(x@),
            },
    {
        let mut i: usize = 0;
        while i < self.items.len()
            invariant
                self.wf(),
                i <= self.items@.len(),
                forall|j: int| 0 <= j < i ==> self.keys()[j] != x@,
            decreases self.items@.len() - i,
        {
            if text_eq(self.items[i].0.as_str(), x) {
                proof {
                    lemma_index_of_unique(self.keys(), i as int);
                }
                return Some(i);
            }
            i = i + 1;
        }
        None
    }

    /// The value stored for `x`.
    pub fn get(&self, x: &str) -> (r: Option<V>)
        requires
            self.wf(),
        ensures
            match r {
                Some(v) => self.map().contains_key(x@) && self.map()[x@] == v,
                None => !self.map().contains_key(x@),
            },
    {
        match self.position(x) {
            Some(i) => Some(self.items[i].1),
            None => None,
        }
    }

    /// Sets the value of `key`, replacing any earlier one.
    pub fn insert(&mut self, key: &str, value: V)
        requires
            old(self).wf(),
        ensures
            final(self).wf(),
            final(self).map() == old(self).map().insert(key@, value),
    {
        match self.position(key) {
            Some(i) => {
                let ghost before = self.keys();
                self.items[i].1 = value;
                assert(self.keys() =~= before);
                assert(self.map() =~= old(self).map().insert(key@, value));
            },
            None => {
                let ghost before = self.keys();
                self.items.push((key.to_owned(), value));
                assert(self.keys() =~= before.push(key@));
                proof {
                    lemma_push_contains(before, key@);
                    assert forall|q: Seq<char>| #[trigger] before.contains(q) implies self.keys().index_of(q)
                        == before.index_of(q) by {
                        let j = before.index_of(q);
                        lemma_index_of_unique(before, j);
                        lemma_index_of_unique(self.keys(), j);
                    }
                    lemma_index_of_unique(self.keys(), before.len() as int);
                }
                assert(self.map() =~= old(self).map().insert(key@, value));
            },
        }
    }

    /// Number of keys.
    pub fn len(&self) -> (n: usize)
        requires
            self.wf(),
        ensures
            n == self.map().dom().len(),
            self.map().dom().finite(),
    {
        proof {
            self.keys().unique_seq_to_set();
            assert(self.map().dom() =~= self.keys().to_set());
        }
        self.items.len()
    }
}

} // verus!
