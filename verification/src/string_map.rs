//! A small string-to-string map with a mathematical view.
//!
//! The map keeps its entries in insertion order in a vector and never holds
//! a key twice. Every operation is stated over the `Map<Seq<char>, Seq<char>>`
//! that the entries stand for.
use vstd::prelude::*;
use vstd::std_specs::cmp::PartialEqSpecImpl;

verus! {

/// No two entries of `entries` share a key.
pub open spec fn distinct_keys(entries: Seq<(String, String)>) -> bool {
    forall|i: int, j: int|
        #![trigger entries[i], entries[j]]
        0 <= i < j < entries.len() ==> entries[i].0@ != entries[j].0@
}

/// Some entry of `entries` has the key `key`.
pub open spec fn has_key(entries: Seq<(String, String)>, key: Seq<char>) -> bool {
    exists|i: int| 0 <= i < entries.len() && (#[trigger] entries[i]).0@ == key
}

/// The position of an entry with the key `key`, where there is one.
pub open spec fn slot_of(entries: Seq<(String, String)>, key: Seq<char>) -> int {
    choose|i: int| 0 <= i < entries.len() && (#[trigger] entries[i]).0@ == key
}

/// The map that a list of entries stands for.
pub open spec fn entries_map(entries: Seq<(String, String)>) -> Map<Seq<char>, Seq<char>> {
    Map::new(
        |key: Seq<char>| has_key(entries, key),
        |key: Seq<char>| entries[slot_of(entries, key)].1@,
    )
}

/// An entry is found under its own key.
pub proof fn lemma_entry_is_mapped(entries: Seq<(String, String)>, i: int)
    requires
        distinct_keys(entries),
        0 <= i < entries.len(),
    ensures
        entries_map(entries).contains_key(entries[i].0@),
        entries_map(entries)[entries[i].0@] == entries[i].1@,
{
    let key = entries[i].0@;
    assert(has_key(entries, key));
    let j = slot_of(entries, key);
    assert(0 <= j < entries.len() && entries[j].0@ == key);
    assert(j == i);
}

/// Appending an entry under a fresh key inserts it.
pub proof fn lemma_push_inserts(entries: Seq<(String, String)>, entry: (String, String))
    requires
        distinct_keys(entries),
        !has_key(entries, entry.0@),
    ensures
        distinct_keys(entries.push(entry)),
        entries_map(entries.push(entry)) == entries_map(entries).insert(entry.0@, entry.1@),
{
    let longer = entries.push(entry);
    assert forall|i: int, j: int|
        #![trigger longer[i], longer[j]]
        0 <= i < j < longer.len() implies longer[i].0@ != longer[j].0@ by {
        if j < entries.len() {
            assert(longer[i] == entries[i] && longer[j] == entries[j]);
        } else {
            assert(longer[i] == entries[i]);
        }
    }
    let left = entries_map(longer);
    let right = entries_map(entries).insert(entry.0@, entry.1@);
    assert forall|key: Seq<char>| left.contains_key(key) <==> right.contains_key(key) by {
        if has_key(longer, key) {
            let i = slot_of(longer, key);
            if i < entries.len() {
                assert(entries[i] == longer[i]);
            }
        }
        if has_key(entries, key) {
            let i = slot_of(entries, key);
            assert(longer[i] == entries[i]);
        }
        if key == entry.0@ {
            assert(longer[entries.len() as int] == entry);
        }
    }
    assert forall|key: Seq<char>| left.contains_key(key) implies left[key] == right[key] by {
        let i = slot_of(longer, key);
        lemma_entry_is_mapped(longer, i);
        if i < entries.len() {
            assert(entries[i] == longer[i]);
            lemma_entry_is_mapped(entries, i);
        }
    }
    assert(left =~= right);
}

/// Taking an entry out removes its key and leaves the others.
pub proof fn lemma_remove_removes(entries: Seq<(String, String)>, i: int)
    requires
        distinct_keys(entries),
        0 <= i < entries.len(),
    ensures
        distinct_keys(entries.remove(i)),
        !has_key(entries.remove(i), entries[i].0@),
        entries_map(entries.remove(i)) == entries_map(entries).remove(entries[i].0@),
{
    let shorter = entries.remove(i);
    let gone = entries[i].0@;
    assert forall|a: int, b: int|
        #![trigger shorter[a], shorter[b]]
        0 <= a < b < shorter.len() implies shorter[a].0@ != shorter[b].0@ by {
        let a0 = if a < i { a } else { a + 1 };
        let b0 = if b < i { b } else { b + 1 };
        assert(shorter[a] == entries[a0] && shorter[b] == entries[b0]);
    }
    if has_key(shorter, gone) {
        let a = slot_of(shorter, gone);
        let a0 = if a < i { a } else { a + 1 };
        assert(shorter[a] == entries[a0]);
        assert(false);
    }
    let left = entries_map(shorter);
    let right = entries_map(entries).remove(gone);
    assert forall|key: Seq<char>| left.contains_key(key) <==> right.contains_key(key) by {
        if has_key(shorter, key) {
            let a = slot_of(shorter, key);
            let a0 = if a < i { a } else { a + 1 };
            assert(shorter[a] == entries[a0]);
        }
        if has_key(entries, key) && key != gone {
            let b = slot_of(entries, key);
            let a = if b < i { b } else { b - 1 };
            assert(shorter[a] == entries[b]);
        }
    }
    assert forall|key: Seq<char>| left.contains_key(key) implies left[key] == right[key] by {
        let a = slot_of(shorter, key);
        let a0 = if a < i { a } else { a + 1 };
        assert(shorter[a] == entries[a0]);
        lemma_entry_is_mapped(shorter, a);
        lemma_entry_is_mapped(entries, a0);
    }
    assert(left =~= right);
}

/// A list without a repeated key stands for a finite map with one key per
/// entry.
pub proof fn lemma_one_key_per_entry(entries: Seq<(String, String)>)
    requires
        distinct_keys(entries),
    ensures
        entries_map(entries).dom().finite(),
        entries_map(entries).len() == entries.len(),
    decreases entries.len(),
{
    if entries.len() == 0 {
        assert(entries_map(entries) =~= Map::<Seq<char>, Seq<char>>::empty());
    } else {
        let front = entries.drop_last();
        let last = entries.last();
        assert forall|i: int, j: int|
            #![trigger front[i], front[j]]
            0 <= i < j < front.len() implies front[i].0@ != front[j].0@ by {
            assert(front[i] == entries[i] && front[j] == entries[j]);
        }
        if has_key(front, last.0@) {
            let i = slot_of(front, last.0@);
            assert(front[i] == entries[i]);
            assert(entries[entries.len() - 1] == last);
        }
        lemma_one_key_per_entry(front);
        lemma_push_inserts(front, last);
        assert(front.push(last) =~= entries);
    }
}

/// The map that a list of pairs builds when each pair is stored in turn, so
/// that of two pairs with one key the later one stays.
pub open spec fn pairs_map(pairs: Seq<(String, String)>) -> Map<Seq<char>, Seq<char>>
    decreases pairs.len(),
{
    if pairs.len() == 0 {
        Map::empty()
    } else {
        pairs_map(pairs.drop_last()).insert(pairs.last().0@, pairs.last().1@)
    }
}

/// For a list without a repeated key both readings agree.
pub proof fn lemma_pairs_map_of_distinct(entries: Seq<(String, String)>)
    requires
        distinct_keys(entries),
    ensures
        pairs_map(entries) == entries_map(entries),
    decreases entries.len(),
{
    if entries.len() == 0 {
        assert(entries_map(entries) =~= Map::<Seq<char>, Seq<char>>::empty());
    } else {
        let front = entries.drop_last();
        let last = entries.last();
        assert forall|i: int, j: int|
            #![trigger front[i], front[j]]
            0 <= i < j < front.len() implies front[i].0@ != front[j].0@ by {
            assert(front[i] == entries[i] && front[j] == entries[j]);
        }
        if has_key(front, last.0@) {
            let i = slot_of(front, last.0@);
            assert(front[i] == entries[i]);
            assert(entries[entries.len() - 1] == last);
        }
        lemma_pairs_map_of_distinct(front);
        lemma_push_inserts(front, last);
        assert(front.push(last) =~= entries);
    }
}

/// Two lists that hold the same strings place by place stand for one map.
pub proof fn lemma_same_strings_same_map(a: Seq<(String, String)>, b: Seq<(String, String)>)
    requires
        distinct_keys(a),
        a.len() == b.len(),
        forall|j: int| 0 <= j < a.len() ==> (#[trigger] b[j]).0@ == a[j].0@ && b[j].1@ == a[j].1@,
    ensures
        distinct_keys(b),
        entries_map(b) == entries_map(a),
{
    assert forall|i: int, j: int|
        #![trigger b[i], b[j]]
        0 <= i < j < b.len() implies b[i].0@ != b[j].0@ by {
        assert(a[i].0@ != a[j].0@);
    }
    let left = entries_map(b);
    let right = entries_map(a);
    assert forall|key: Seq<char>| left.contains_key(key) <==> right.contains_key(key) by {
        if has_key(b, key) {
            let i = slot_of(b, key);
            assert(a[i].0@ == key);
        }
        if has_key(a, key) {
            let i = slot_of(a, key);
            assert(b[i].0@ == key);
        }
    }
    assert forall|key: Seq<char>| left.contains_key(key) implies left[key] == right[key] by {
        let i = slot_of(b, key);
        assert(a[i].0@ == key);
        lemma_entry_is_mapped(b, i);
        lemma_entry_is_mapped(a, i);
    }
    assert(left =~= right);
}

/// A map from strings to strings.
#[derive(Debug)]
pub struct StringMap {
    entries: Vec<(String, String)>,
}

impl View for StringMap {
    type V = Map<Seq<char>, Seq<char>>;

    closed spec fn view(&self) -> Map<Seq<char>, Seq<char>> {
        entries_map(self.entries@)
    }
}

impl StringMap {
    #[verifier::type_invariant]
    spec fn no_key_twice(self) -> bool {
        distinct_keys(self.entries@)
    }

    /// The empty map.
    pub fn new() -> (map: StringMap)
        ensures
            map@ == Map::<Seq<char>, Seq<char>>::empty(),
    {
        let map = StringMap { entries: Vec::new() };
        assert(map@ =~= Map::<Seq<char>, Seq<char>>::empty());
        map
    }

    /// The number of keys.
    pub fn len(&self) -> (n: usize)
        ensures
            self@.dom().finite(),
            n == self@.len(),
    {
        proof {
            use_type_invariant(self);
            lemma_one_key_per_entry(self.entries@);
        }
        self.entries.len()
    }

    /// Whether the map holds no key.
    pub fn is_empty(&self) -> (empty: bool)
        ensures
            empty == (self@ == Map::<Seq<char>, Seq<char>>::empty()),
    {
        proof {
            use_type_invariant(self);
            lemma_one_key_per_entry(self.entries@);
            if self.entries@.len() == 0 {
                assert(self@ =~= Map::<Seq<char>, Seq<char>>::empty());
            }
        }
        self.entries.len() == 0
    }

    /// The map built by storing each pair in turn.
    pub fn from_pairs(pairs: Vec<(String, String)>) -> (map: StringMap)
        ensures
            map@ == pairs_map(pairs@),
    {
        let mut map = StringMap::new();
        let mut i: usize = 0;
        while i < pairs.len()
            invariant
                i <= pairs@.len(),
                map@ == pairs_map(pairs@.take(i as int)),
            decreases pairs@.len() - i,
        {
            let key = pairs[i].0.clone();
            let value = pairs[i].1.clone();
            proof {
                let next = pairs@.take(i + 1);
                assert(next.drop_last() =~= pairs@.take(i as int));
                assert(next.last() == pairs@[i as int]);
            }
            map.insert(key, value);
            i += 1;
        }
        assert(pairs@.take(pairs@.len() as int) =~= pairs@);
        map
    }

    /// The entries, each key once, in the order in which the keys came in.
    pub fn to_pairs(&self) -> (pairs: Vec<(String, String)>)
        ensures
            distinct_keys(pairs@),
            pairs_map(pairs@) == self@,
    {
        let mut pairs: Vec<(String, String)> = Vec::new();
        let mut i: usize = 0;
        while i < self.entries.len()
            invariant
                i <= self.entries@.len(),
                pairs@.len() == i,
                forall|j: int|
                    0 <= j < i ==> (#[trigger] pairs@[j]).0@ == self.entries@[j].0@ && pairs@[j].1@
                        == self.entries@[j].1@,
            decreases self.entries@.len() - i,
        {
            let key = self.entries[i].0.clone();
            let value = self.entries[i].1.clone();
            pairs.push((key, value));
            i += 1;
        }
        proof {
            use_type_invariant(self);
            lemma_same_strings_same_map(self.entries@, pairs@);
            lemma_pairs_map_of_distinct(pairs@);
        }
        pairs
    }

    /// The position of the entry for `key`, if the map holds one.
    fn position(&self, key: &String) -> (found: Option<usize>)
        ensures
            match found {
                Some(i) => i < self.entries@.len() && self.entries@[i as int].0@ == key@,
                None => !has_key(self.entries@, key@),
            },
    {
        let mut i: usize = 0;
        while i < self.entries.len()
            invariant
                i <= self.entries@.len(),
                forall|j: int| 0 <= j < i ==> (#[trigger] self.entries@[j]).0@ != key@,
            decreases self.entries@.len() - i,
        {
            if self.entries[i].0 == *key {
                return Some(i);
            }
            i += 1;
        }
        None
    }

    /// Whether the map holds `key`.
    pub fn contains_key(&self, key: &str) -> (held: bool)
        ensures
            held == self@.contains_key(key@),
    {
        let owned = key.to_owned();
        self.position(&owned).is_some()
    }

    /// The value stored under `key`.
    pub fn get(&self, key: &str) -> (value: Option<&String>)
        ensures
            match value {
                Some(v) => self@.contains_key(key@) && v@ == self@[key@],
                None => !self@.contains_key(key@),
            },
    {
        let owned = key.to_owned();
        match self.position(&owned) {
            Some(i) => {
                proof {
                    use_type_invariant(self);
                    lemma_entry_is_mapped(self.entries@, i as int);
                }
                Some(&self.entries[i].1)
            },
            None => None,
        }
    }

    /// Takes `key` out of the map and returns the value it had.
    pub fn remove(&mut self, key: &str) -> (value: Option<String>)
        ensures
            final(self)@ == old(self)@.remove(key@),
            match value {
                Some(v) => old(self)@.contains_key(key@) && v@ == old(self)@[key@],
                None => !old(self)@.contains_key(key@),
            },
    {
        let owned = key.to_owned();
        match self.position(&owned) {
            Some(i) => {
                proof {
                    use_type_invariant(&*self);
                    lemma_entry_is_mapped(self.entries@, i as int);
                    lemma_remove_removes(self.entries@, i as int);
                }
                let mut entries: Vec<(String, String)> = Vec::new();
                core::mem::swap(&mut self.entries, &mut entries);
                let entry = entries.remove(i);
                self.entries = entries;
                Some(entry.1)
            },
            None => {
                assert(self@.remove(key@) =~= self@);
                None
            },
        }
    }

    /// Stores `value` under `key` and returns the value that `key` had before.
    pub fn insert(&mut self, key: String, value: String) -> (previous: Option<String>)
        ensures
            final(self)@ == old(self)@.insert(key@, value@),
            match previous {
                Some(v) => old(self)@.contains_key(key@) && v@ == old(self)@[key@],
                None => !old(self)@.contains_key(key@),
            },
    {
        let previous = self.remove(key.as_str());
        proof {
            use_type_invariant(&*self);
            if has_key(self.entries@, key@) {
                assert(self@.contains_key(key@));
            }
            lemma_push_inserts(self.entries@, (key, value));
            assert(old(self)@.remove(key@).insert(key@, value@) =~= old(self)@.insert(key@, value@));
        }
        let mut entries: Vec<(String, String)> = Vec::new();
        core::mem::swap(&mut self.entries, &mut entries);
        entries.push((key, value));
        self.entries = entries;
        previous
    }
}

impl Clone for StringMap {
    fn clone(&self) -> (copy: StringMap)
        ensures
            copy@ == self@,
    {
        let pairs = self.to_pairs();
        proof {
            lemma_pairs_map_of_distinct(pairs@);
        }
        StringMap { entries: pairs }
    }
}

impl PartialEq for StringMap {
    fn eq(&self, other: &StringMap) -> (same: bool) {
        let mut i: usize = 0;
        while i < self.entries.len()
            invariant
                i <= self.entries@.len(),
                forall|j: int|
                    0 <= j < i ==> other@.contains_key((#[trigger] self.entries@[j]).0@)
                        && other@[self.entries@[j].0@] == self.entries@[j].1@,
            decreases self.entries@.len() - i,
        {
            proof {
                use_type_invariant(self);
                lemma_entry_is_mapped(self.entries@, i as int);
            }
            match other.get(self.entries[i].0.as_str()) {
                Some(value) => {
                    if !(*value == self.entries[i].1) {
                        return false;
                    }
                },
                None => {
                    return false;
                },
            }
            i += 1;
        }
        let mut k: usize = 0;
        while k < other.entries.len()
            invariant
                k <= other.entries@.len(),
                forall|j: int| 0 <= j < k ==> self@.contains_key((#[trigger] other.entries@[j]).0@),
            decreases other.entries@.len() - k,
        {
            proof {
                use_type_invariant(other);
                lemma_entry_is_mapped(other.entries@, k as int);
            }
            if !self.contains_key(other.entries[k].0.as_str()) {
                return false;
            }
            k += 1;
        }
        proof {
            use_type_invariant(self);
            use_type_invariant(other);
            assert forall|key: Seq<char>| self@.contains_key(key) implies other@.contains_key(key)
                && other@[key] == self@[key] by {
                let j = slot_of(self.entries@, key);
                lemma_entry_is_mapped(self.entries@, j);
            }
            assert forall|key: Seq<char>| other@.contains_key(key) implies self@.contains_key(
                key,
            ) by {
                let j = slot_of(other.entries@, key);
                assert(other.entries@[j].0@ == key);
            }
            assert(self@ =~= other@);
        }
        true
    }
}

impl PartialEqSpecImpl for StringMap {
    open spec fn obeys_eq_spec() -> bool {
        true
    }

    open spec fn eq_spec(&self, other: &StringMap) -> bool {
        self@ == other@
    }
}

impl Eq for StringMap {

}

} // verus!
