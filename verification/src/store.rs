//! Records kept under an address.

use vstd::prelude::*;
use vstd::slice::*;
use vstd::string::*;
use vstd::utf8::{encode_utf8, encode_utf8_decode_utf8};

verus! {

spec fn distinct_keys<V>(entries: Seq<(String, V)>) -> bool {
    forall|i: int, j: int|
        0 <= i < j < entries.len() ==> (#[trigger] entries[i]).0@ != (#[trigger] entries[j]).0@
}

spec fn has_key<V>(entries: Seq<(String, V)>, key: Seq<char>) -> bool {
    exists|i: int| 0 <= i < entries.len() && (#[trigger] entries[i]).0@ == key
}

spec fn index_of<V>(entries: Seq<(String, V)>, key: Seq<char>) -> int {
    choose|i: int| 0 <= i < entries.len() && (#[trigger] entries[i]).0@ == key
}

spec fn as_map<V>(entries: Seq<(String, V)>) -> Map<Seq<char>, V> {
    Map::new(|k: Seq<char>| has_key(entries, k), |k: Seq<char>| entries[index_of(entries, k)].1)
}

proof fn lemma_index_unique<V>(entries: Seq<(String, V)>, i: int)
    requires
        distinct_keys(entries),
        0 <= i < entries.len(),
    ensures
        has_key(entries, entries[i].0@),
        index_of(entries, entries[i].0@) == i,
{
    let k = index_of(entries, entries[i].0@);
    if k < i {
        assert(entries[k].0@ != entries[i].0@);
    } else if i < k {
        assert(entries[i].0@ != entries[k].0@);
    }
}

proof fn lemma_push<V>(entries: Seq<(String, V)>, key: String, value: V)
    requires
        distinct_keys(entries),
        !has_key(entries, key@),
    ensures
        distinct_keys(entries.push((key, value))),
        as_map(entries.push((key, value))) == as_map(entries).insert(key@, value),
{
    let after = entries.push((key, value));
    let last = entries.len() as int;
    assert forall|a: int, b: int| 0 <= a < b < after.len() implies (#[trigger] after[a]).0@ != (
    #[trigger] after[b]).0@ by {
        assert(after[a] == entries[a]);
        if b < last {
            assert(after[b] == entries[b]);
        }
    }
    let want = as_map(entries).insert(key@, value);
    assert forall|k: Seq<char>| as_map(after).contains_key(k) == want.contains_key(k) by {
        if has_key(after, k) {
            let i = index_of(after, k);
            if i < last {
                assert(entries[i].0@ == k);
            }
        }
        if want.contains_key(k) {
            if k == key@ {
                assert(after[last].0@ == k);
            } else {
                let i = index_of(entries, k);
                assert(after[i].0@ == k);
            }
        }
    }
    assert forall|k: Seq<char>| as_map(after).contains_key(k) implies as_map(after)[k] == want[k] by {
        let i = index_of(after, k);
        lemma_index_unique(after, i);
        if i < last {
            assert(entries[i].0@ == k);
            lemma_index_unique(entries, i);
        }
    }
    assert(as_map(after) =~= want);
}

proof fn lemma_remove<V>(entries: Seq<(String, V)>, i: int)
    requires
        distinct_keys(entries),
        0 <= i < entries.len(),
    ensures
        distinct_keys(entries.remove(i)),
        as_map(entries.remove(i)) == as_map(entries).remove(entries[i].0@),
{
    let after = entries.remove(i);
    assert forall|a: int, b: int| 0 <= a < b < after.len() implies (#[trigger] after[a]).0@ != (
    #[trigger] after[b]).0@ by {
        let a0 = if a < i { a } else { a + 1 };
        let b0 = if b < i { b } else { b + 1 };
        assert(after[a] == entries[a0]);
        assert(after[b] == entries[b0]);
    }
    let want = as_map(entries).remove(entries[i].0@);
    assert forall|k: Seq<char>| as_map(after).contains_key(k) == want.contains_key(k) by {
        if has_key(after, k) {
            let a = index_of(after, k);
            let a0 = if a < i { a } else { a + 1 };
            assert(after[a] == entries[a0]);
            assert(entries[a0].0@ == k);
            if k == entries[i].0@ {
                lemma_index_unique(entries, i);
                lemma_index_unique(entries, a0);
            }
        }
        if want.contains_key(k) {
            let a0 = index_of(entries, k);
            let a = if a0 < i { a0 } else { a0 - 1 };
            assert(after[a] == entries[a0]);
        }
    }
    assert forall|k: Seq<char>| as_map(after).contains_key(k) implies as_map(after)[k] == want[k] by {
        let a = index_of(after, k);
        let a0 = if a < i { a } else { a + 1 };
        assert(after[a] == entries[a0]);
        lemma_index_unique(after, a);
        lemma_index_unique(entries, a0);
    }
    assert(as_map(after) =~= want);
}

proof fn lemma_size<V>(entries: Seq<(String, V)>)
    requires
        distinct_keys(entries),
    ensures
        as_map(entries).dom().finite(),
        as_map(entries).dom().len() == entries.len(),
    decreases entries.len(),
{
    if entries.len() == 0 {
        assert(as_map(entries).dom() =~= Set::<Seq<char>>::empty());
    } else {
        let front = entries.drop_last();
        let last = entries.last();
        assert(distinct_keys(front)) by {
            assert forall|i: int, j: int| 0 <= i < j < front.len() implies (#[trigger] front[i]).0@
                != (#[trigger] front[j]).0@ by {
                assert(front[i] == entries[i] && front[j] == entries[j]);
            }
        }
        assert(!has_key(front, last.0@)) by {
            if has_key(front, last.0@) {
                let i = index_of(front, last.0@);
                assert(front[i] == entries[i]);
                assert(entries[i].0@ != entries[entries.len() - 1].0@);
            }
        }
        lemma_size(front);
        lemma_push(front, last.0, last.1);
        assert(entries =~= front.push(last));
        assert(as_map(front).insert(last.0@, last.1).dom() =~= as_map(front).dom().insert(last.0@));
    }
}

/// Records of type `V`, at most one under each address.
#[derive(Clone, Debug, PartialEq, Eq)]
pub struct AddressMap<V> {
    entries: Vec<(String, V)>,
}

impl<V> View for AddressMap<V> {
    type V = Map<Seq<char>, V>;

    closed spec fn view(&self) -> Map<Seq<char>, V> {
        as_map(self.entries@)
    }
}

impl<V> AddressMap<V> {
    /// No address has two records.
    pub closed spec fn wf(&self) -> bool {
        distinct_keys(self.entries@)
    }

    /// No records.
    pub fn new() -> (r: AddressMap<V>)
        ensures
            r.wf(),
            r@ == Map::<Seq<char>, V>::empty(),
    {
        let r = AddressMap { entries: Vec::new() };
        assert(r@ =~= Map::<Seq<char>, V>::empty());
        r
    }

    /// The number of records.
    pub fn len(&self) -> (r: usize)
        requires
            self.wf(),
        ensures
            self@.dom().finite(),
            r == self@.dom().len(),
    {
        proof {
            lemma_size(self.entries@);
        }
        self.entries.len()
    }

    fn position(&self, key: &String) -> (r: Option<usize>)
        requires
            self.wf(),
        ensures
            match r {
                Some(i) => i < self.entries@.len() && self.entries@[i as int].0@ == key@
                    && self@.contains_key(key@) && self@[key@] == self.entries@[i as int].1,
                None => !self@.contains_key(key@),
            },
    {
        let mut i: usize = 0;
        while i < self.entries.len()
            invariant
                i <= self.entries.len(),
                self.wf(),
                forall|j: int| 0 <= j < i ==> (#[trigger] self.entries@[j]).0@ != key@,
            decreases self.entries.len() - i,
        {
            if self.entries[i].0 == *key {
                proof {
                    lemma_index_unique(self.entries@, i as int);
                }
                return Some(i);
            }
            i += 1;
        }
        None
    }

    /// Whether a record is kept under `key`.
    pub fn contains_key(&self, key: &String) -> (r: bool)
        requires
            self.wf(),
        ensures
            r == self@.contains_key(key@),
    {
        self.position(key).is_some()
    }

    /// The record kept under `key`.
    pub fn get(&self, key: &String) -> (r: Option<&V>)
        requires
            self.wf(),
        ensures
            match r {
                Some(v) => self@.contains_key(key@) && *v == self@[key@],
                None => !self@.contains_key(key@),
            },
    {
        match self.position(key) {
            Some(i) => Some(&self.entries[i].1),
            None => None,
        }
    }

    /// Takes the record kept under `key` out of the map.
    pub fn remove(&mut self, key: &String) -> (r: Option<V>)
        requires
            old(self).wf(),
        ensures
            final(self).wf(),
            final(self)@ == old(self)@.remove(key@),
            match r {
                Some(v) => old(self)@.contains_key(key@) && v == old(self)@[key@],
                None => !old(self)@.contains_key(key@),
            },
    {
        match self.position(key) {
            Some(i) => {
                proof {
                    lemma_remove(self.entries@, i as int);
                }
                let entry = self.entries.remove(i);
                Some(entry.1)
            },
            None => {
                assert(self@ =~= self@.remove(key@));
                None
            },
        }
    }

    /// Keeps `value` under `key`, in place of any record kept there before.
    pub fn insert(&mut self, key: String, value: V)
        requires
            old(self).wf(),
        ensures
            final(self).wf(),
            final(self)@ == old(self)@.insert(key@, value),
    {
        let _ = self.remove(&key);
        proof {
            assert(!self@.contains_key(key@));
            lemma_push(self.entries@, key, value);
            assert(old(self)@.remove(key@).insert(key@, value) =~= old(self)@.insert(key@, value));
        }
        self.entries.push((key, value));
    }
}

/// Whether `a` comes before `b` when both are compared byte by byte, the
/// shorter first where one begins the other.
pub open spec fn bytes_less(a: Seq<u8>, b: Seq<u8>) -> bool
    decreases a.len(),
{
    if b.len() == 0 {
        false
    } else if a.len() == 0 {
        true
    } else if a[0] != b[0] {
        a[0] < b[0]
    } else {
        bytes_less(a.drop_first(), b.drop_first())
    }
}

/// Nothing comes before itself.
pub proof fn lemma_bytes_less_irreflexive(a: Seq<u8>)
    ensures
        !bytes_less(a, a),
    decreases a.len(),
{
    if a.len() > 0 {
        lemma_bytes_less_irreflexive(a.drop_first());
    }
}

/// What comes before something that comes before a third comes before the
/// third.
pub proof fn lemma_bytes_less_transitive(a: Seq<u8>, b: Seq<u8>, c: Seq<u8>)
    requires
        bytes_less(a, b),
        bytes_less(b, c),
    ensures
        bytes_less(a, c),
    decreases a.len(),
{
    if a.len() > 0 && a[0] == b[0] && b[0] == c[0] {
        lemma_bytes_less_transitive(a.drop_first(), b.drop_first(), c.drop_first());
    }
}

/// Of two different byte strings one comes before the other.
pub proof fn lemma_bytes_less_total(a: Seq<u8>, b: Seq<u8>)
    requires
        a != b,
    ensures
        bytes_less(a, b) || bytes_less(b, a),
    decreases a.len(),
{
    if a.len() == 0 || b.len() == 0 {
        if a.len() == 0 && b.len() == 0 {
            assert(a =~= b);
        }
    } else if a[0] == b[0] {
        if a.drop_first() == b.drop_first() {
            assert(a =~= seq![a[0]] + a.drop_first());
            assert(b =~= seq![b[0]] + b.drop_first());
        }
        lemma_bytes_less_total(a.drop_first(), b.drop_first());
    }
}

/// Whether address `a` comes before address `b` in a listing: by the bytes
/// of the addresses, upwards or downwards.
pub open spec fn comes_before(a: Seq<char>, b: Seq<char>, ascending: bool) -> bool {
    if ascending {
        bytes_less(encode_utf8(a), encode_utf8(b))
    } else {
        bytes_less(encode_utf8(b), encode_utf8(a))
    }
}

/// Of two different addresses one comes before the other, never both, and
/// the order is transitive.
pub proof fn lemma_comes_before_is_an_order(a: Seq<char>, b: Seq<char>, c: Seq<char>, ascending: bool)
    ensures
        !comes_before(a, a, ascending),
        a != b ==> comes_before(a, b, ascending) || comes_before(b, a, ascending),
        !(comes_before(a, b, ascending) && comes_before(b, a, ascending)),
        comes_before(a, b, ascending) && comes_before(b, c, ascending) ==> comes_before(
            a,
            c,
            ascending,
        ),
{
    let x = encode_utf8(a);
    let y = encode_utf8(b);
    let z = encode_utf8(c);
    lemma_bytes_less_irreflexive(x);
    if a != b {
        encode_utf8_decode_utf8(a);
        encode_utf8_decode_utf8(b);
        lemma_bytes_less_total(x, y);
    }
    if bytes_less(x, y) && bytes_less(y, x) {
        lemma_bytes_less_transitive(x, y, x);
    }
    if comes_before(a, b, ascending) && comes_before(b, c, ascending) {
        if ascending {
            lemma_bytes_less_transitive(x, y, z);
        } else {
            lemma_bytes_less_transitive(z, y, x);
        }
    }
}

/// Whether `a` comes before `b` byte by byte.
pub fn less_bytes(a: &[u8], b: &[u8]) -> (r: bool)
    ensures
        r == bytes_less(a@, b@),
{
    let mut i: usize = 0;
    assert(a@.subrange(0, a@.len() as int) =~= a@);
    assert(b@.subrange(0, b@.len() as int) =~= b@);
    while i < a.len() && i < b.len()
        invariant
            i <= a@.len(),
            i <= b@.len(),
            bytes_less(a@, b@) == bytes_less(
                a@.subrange(i as int, a@.len() as int),
                b@.subrange(i as int, b@.len() as int),
            ),
        decreases a@.len() - i,
    {
        let ghost ra = a@.subrange(i as int, a@.len() as int);
        let ghost rb = b@.subrange(i as int, b@.len() as int);
        assert(ra[0] == a@[i as int] && rb[0] == b@[i as int]);
        if a[i] != b[i] {
            return a[i] < b[i];
        }
        assert(ra.drop_first() =~= a@.subrange(i + 1, a@.len() as int));
        assert(rb.drop_first() =~= b@.subrange(i + 1, b@.len() as int));
        i += 1;
    }
    i < b.len()
}

/// Whether `key` belongs to the listing that starts behind `start_after`.
pub open spec fn listed<V>(
    records: Map<Seq<char>, V>,
    start_after: Option<Seq<char>>,
    ascending: bool,
    key: Seq<char>,
) -> bool {
    records.contains_key(key) && match start_after {
        Some(cursor) => comes_before(cursor, key, ascending),
        None => true,
    }
}

/// Whether `keys` is the page of at most `limit` addresses that a listing
/// of `records` shows behind `start_after`: addresses of records behind the
/// cursor, in the order of the listing, and none left out that comes before
/// the last one shown.
pub open spec fn is_page<V>(
    records: Map<Seq<char>, V>,
    start_after: Option<Seq<char>>,
    ascending: bool,
    limit: nat,
    keys: Seq<Seq<char>>,
) -> bool {
    &&& keys.len() <= limit
    &&& forall|i: int|
        0 <= i < keys.len() ==> listed(records, start_after, ascending, #[trigger] keys[i])
    &&& forall|i: int, j: int|
        0 <= i < j < keys.len() ==> comes_before(#[trigger] keys[i], #[trigger] keys[j], ascending)
    &&& forall|k: Seq<char>| #[trigger]
        listed(records, start_after, ascending, k) && !keys.contains(k) ==> keys.len() == limit
            && (limit > 0 ==> comes_before(keys.last(), k, ascending))
}

impl<V> AddressMap<V> {
    /// The address that follows `cursor` in a listing, or opens it where
    /// there is no cursor, with its record.
    pub fn next_after(&self, cursor: &Option<String>, ascending: bool) -> (r: Option<(&String, &V)>)
        requires
            self.wf(),
        ensures
            match r {
                Some((key, value)) => {
                    &&& listed(self@, view_of(*cursor), ascending, key@)
                    &&& *value == self@[key@]
                    &&& forall|k: Seq<char>| #[trigger]
                        listed(self@, view_of(*cursor), ascending, k) && k != key@ ==> comes_before(
                            key@,
                            k,
                            ascending,
                        )
                },
                None => forall|k: Seq<char>|
                    !#[trigger] listed(self@, view_of(*cursor), ascending, k),
            },
    {
        let mut best: Option<usize> = None;
        let mut i: usize = 0;
        while i < self.entries.len()
            invariant
                i <= self.entries.len(),
                self.wf(),
                match best {
                    Some(m) => m < i && listed(
                        self@,
                        view_of(*cursor),
                        ascending,
                        self.entries@[m as int].0@,
                    ) && forall|j: int|
                        0 <= j < i && j != m && listed(
                            self@,
                            view_of(*cursor),
                            ascending,
                            (#[trigger] self.entries@[j]).0@,
                        ) ==> comes_before(
                            self.entries@[m as int].0@,
                            self.entries@[j].0@,
                            ascending,
                        ),
                    None => forall|j: int|
                        0 <= j < i ==> !listed(
                            self@,
                            view_of(*cursor),
                            ascending,
                            (#[trigger] self.entries@[j]).0@,
                        ),
                },
            decreases self.entries.len() - i,
        {
            let key = &self.entries[i].0;
            proof {
                lemma_index_unique(self.entries@, i as int);
            }
            let behind_cursor = match cursor {
                None => true,
                Some(c) => precedes(c, key, ascending),
            };
            if behind_cursor {
                match best {
                    None => {
                        best = Some(i);
                    },
                    Some(m) => {
                        proof {
                            lemma_index_unique(self.entries@, m as int);
                            lemma_comes_before_is_an_order(
                                key@,
                                self.entries@[m as int].0@,
                                key@,
                                ascending,
                            );
                        }
                        if precedes(key, &self.entries[m].0, ascending) {
                            proof {
                                assert forall|j: int|
                                    0 <= j < i + 1 && j != i && listed(
                                        self@,
                                        view_of(*cursor),
                                        ascending,
                                        (#[trigger] self.entries@[j]).0@,
                                    ) implies comes_before(
                                    key@,
                                    self.entries@[j].0@,
                                    ascending,
                                ) by {
                                    if j != m {
                                        lemma_comes_before_is_an_order(
                                            key@,
                                            self.entries@[m as int].0@,
                                            self.entries@[j].0@,
                                            ascending,
                                        );
                                    }
                                }
                            }
                            best = Some(i);
                        }
                    },
                }
            }
            i += 1;
        }
        match best {
            None => {
                proof {
                    assert forall|k: Seq<char>| !#[trigger] listed(
                        self@,
                        view_of(*cursor),
                        ascending,
                        k,
                    ) by {
                        if self@.contains_key(k) {
                            let j = index_of(self.entries@, k);
                            assert(self.entries@[j].0@ == k);
                        }
                    }
                }
                None
            },
            Some(m) => {
                proof {
                    lemma_index_unique(self.entries@, m as int);
                    assert forall|k: Seq<char>| #[trigger]
                        listed(self@, view_of(*cursor), ascending, k) && k
                            != self.entries@[m as int].0@ implies comes_before(
                        self.entries@[m as int].0@,
                        k,
                        ascending,
                    ) by {
                        let j = index_of(self.entries@, k);
                        assert(self.entries@[j].0@ == k);
                    }
                }
                Some((&self.entries[m].0, &self.entries[m].1))
            },
        }
    }
}

/// The address a cursor stands for.
pub open spec fn view_of(cursor: Option<String>) -> Option<Seq<char>> {
    match cursor {
        Some(c) => Some(c@),
        None => None,
    }
}

/// Whether address `a` comes before address `b` in a listing.
pub fn precedes(a: &String, b: &String, ascending: bool) -> (r: bool)
    ensures
        r == comes_before(a@, b@, ascending),
{
    if ascending {
        less_bytes(a.as_str().as_bytes(), b.as_str().as_bytes())
    } else {
        less_bytes(b.as_str().as_bytes(), a.as_str().as_bytes())
    }
}

} // verus!
