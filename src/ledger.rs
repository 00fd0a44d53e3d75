use vstd::prelude::*;

use crate::bytes::{compare_str, key_bytes, lemma_lex_asymmetric, lemma_lex_irreflexive, lemma_lex_transitive, lex_lt};

verus! {

/// Entries whose keys ascend strictly in the byte order of strings.
pub open spec fn sorted(s: Seq<(Seq<char>, u128)>) -> bool {
    forall|i: int, j: int|
        0 <= i < j < s.len() ==> lex_lt(key_bytes(#[trigger] s[i].0), key_bytes(#[trigger] s[j].0))
}

pub open spec fn has_key(s: Seq<(Seq<char>, u128)>, k: Seq<char>) -> bool {
    exists|i: int| 0 <= i < s.len() && (#[trigger] s[i]).0 == k
}

/// The map that a list of entries with distinct keys describes.
pub open spec fn to_map(s: Seq<(Seq<char>, u128)>) -> Map<Seq<char>, u128> {
    Map::new(
        |k: Seq<char>| has_key(s, k),
        |k: Seq<char>| value_of(s, k),
    )
}

/// The place of an entry whose key is `k`.
pub open spec fn index_of(s: Seq<(Seq<char>, u128)>, k: Seq<char>) -> int {
    choose|i: int| 0 <= i < s.len() && (#[trigger] s[i]).0 == k
}

/// The value of an entry whose key is `k`.
pub open spec fn value_of(s: Seq<(Seq<char>, u128)>, k: Seq<char>) -> u128 {
    s[index_of(s, k)].1
}

/// The sum of the entries' values.
pub open spec fn seq_total(s: Seq<(Seq<char>, u128)>) -> int
    decreases s.len(),
{
    if s.len() == 0 {
        0
    } else {
        seq_total(s.drop_last()) + s.last().1
    }
}

/// Whether `key` comes strictly after the cursor `start` (every key does
/// when there is none).
pub open spec fn after(key: Seq<char>, start: Option<Seq<char>>) -> bool {
    match start {
        None => true,
        Some(s) => lex_lt(key_bytes(s), key_bytes(key)),
    }
}

/// The page of `s` that starts at entry `k`: every entry before `k` comes
/// up to `start`, every entry from `k` on after it, and `page` holds the
/// first `limit` of the latter.
pub open spec fn page_from(s: Seq<(Seq<char>, u128)>, start: Option<Seq<char>>, limit: int, page: Seq<(Seq<char>, u128)>, k: int) -> bool {
    &&& 0 <= k <= s.len()
    &&& forall|j: int| 0 <= j < k ==> !after(#[trigger] s[j].0, start)
    &&& forall|j: int| k <= j < s.len() ==> after(#[trigger] s[j].0, start)
    &&& page == s.subrange(k, if k + limit < s.len() { k + limit } else { s.len() as int })
}

/// A page of `s`: the first `limit` entries whose keys come after `start`.
pub open spec fn is_page(s: Seq<(Seq<char>, u128)>, start: Option<Seq<char>>, limit: int, page: Seq<(Seq<char>, u128)>) -> bool {
    exists|k: int| #[trigger] page_from(s, start, limit, page, k)
}

pub proof fn lemma_sorted_unique(s: Seq<(Seq<char>, u128)>, i: int, j: int)
    requires
        sorted(s),
        0 <= i < s.len(),
        0 <= j < s.len(),
        s[i].0 == s[j].0,
    ensures
        i == j,
{
    lemma_lex_irreflexive(key_bytes(s[i].0));
    if i < j {
        assert(lex_lt(key_bytes(s[i].0), key_bytes(s[j].0)));
    } else if j < i {
        assert(lex_lt(key_bytes(s[j].0), key_bytes(s[i].0)));
    }
}

pub proof fn lemma_to_map_index(s: Seq<(Seq<char>, u128)>, i: int)
    requires
        sorted(s),
        0 <= i < s.len(),
    ensures
        to_map(s).contains_key(s[i].0),
        to_map(s)[s[i].0] == s[i].1,
{
    let k = s[i].0;
    assert(has_key(s, k));
    let c = index_of(s, k);
    lemma_sorted_unique(s, i, c);
}

proof fn lemma_seq_total_insert(s: Seq<(Seq<char>, u128)>, i: int, e: (Seq<char>, u128))
    requires
        0 <= i <= s.len(),
    ensures
        seq_total(s.insert(i, e)) == seq_total(s) + e.1,
    decreases s.len(),
{
    if i == s.len() {
        assert(s.insert(i, e).drop_last() =~= s);
    } else {
        assert(s.insert(i, e).drop_last() =~= s.drop_last().insert(i, e));
        lemma_seq_total_insert(s.drop_last(), i, e);
    }
}

proof fn lemma_seq_total_remove(s: Seq<(Seq<char>, u128)>, i: int)
    requires
        0 <= i < s.len(),
    ensures
        seq_total(s.remove(i)) == seq_total(s) - s[i].1,
{
    assert(s.remove(i).insert(i, s[i]) =~= s);
    lemma_seq_total_insert(s.remove(i), i, s[i]);
}

proof fn lemma_seq_total_update(s: Seq<(Seq<char>, u128)>, i: int, e: (Seq<char>, u128))
    requires
        0 <= i < s.len(),
    ensures
        seq_total(s.update(i, e)) == seq_total(s) - s[i].1 + e.1,
{
    lemma_seq_total_remove(s, i);
    lemma_seq_total_insert(s.remove(i), i, e);
    assert(s.remove(i).insert(i, e) =~= s.update(i, e));
}

pub proof fn lemma_seq_total_ge(s: Seq<(Seq<char>, u128)>, i: int)
    requires
        0 <= i < s.len(),
    ensures
        seq_total(s) >= s[i].1,
        seq_total(s) >= 0,
    decreases s.len(),
{
    lemma_seq_total_nonneg(s.drop_last());
    if i < s.len() - 1 {
        lemma_seq_total_ge(s.drop_last(), i);
    }
}

pub proof fn lemma_seq_total_nonneg(s: Seq<(Seq<char>, u128)>)
    ensures
        seq_total(s) >= 0,
    decreases s.len(),
{
    if s.len() > 0 {
        lemma_seq_total_nonneg(s.drop_last());
    }
}

/// An ordered map from addresses to amounts, kept as a list of entries in
/// ascending byte order of the addresses.
pub struct AddressMap {
    entries: Vec<(String, u128)>,
}

impl AddressMap {
    /// The entries, in ascending order of their addresses.
    pub closed spec fn spec_entries(&self) -> Seq<(Seq<char>, u128)> {
        self.entries@.map_values(|e: (String, u128)| (e.0@, e.1))
    }

    pub open spec fn wf(&self) -> bool {
        sorted(self.spec_entries())
    }

    pub open spec fn view(&self) -> Map<Seq<char>, u128> {
        to_map(self.spec_entries())
    }

    /// The sum of all amounts.
    pub open spec fn total(&self) -> int {
        seq_total(self.spec_entries())
    }

    /// No amount exceeds the sum of all amounts, which is never negative.
    pub proof fn lemma_total_bounds(&self, k: Seq<char>)
        requires
            self.wf(),
        ensures
            self.total() >= 0,
            self@.contains_key(k) ==> self@[k] <= self.total(),
    {
        let s = self.spec_entries();
        lemma_seq_total_nonneg(s);
        if self@.contains_key(k) {
            let i = choose|i: int| 0 <= i < s.len() && (#[trigger] s[i]).0 == k;
            lemma_to_map_index(s, i);
            lemma_seq_total_ge(s, i);
        }
    }

    pub fn new() -> (r: AddressMap)
        ensures
            r.wf(),
            r@ == Map::<Seq<char>, u128>::empty(),
            r.total() == 0,
            r.spec_entries().len() == 0,
    {
        let r = AddressMap { entries: Vec::new() };
        assert(r.spec_entries() =~= Seq::<(Seq<char>, u128)>::empty());
        assert(r@ =~= Map::<Seq<char>, u128>::empty());
        r
    }

    /// The number of entries.
    pub fn len(&self) -> (r: usize)
        requires
            self.wf(),
        ensures
            r == self@.dom().len(),
            r == self.spec_entries().len(),
    {
        proof {
            self.lemma_dom_len();
        }
        self.entries.len()
    }

    proof fn lemma_dom_len(&self)
        requires
            self.wf(),
        ensures
            self@.dom().len() == self.spec_entries().len(),
            self@.dom().finite(),
    {
        let s = self.spec_entries();
        let keys = s.map_values(|e: (Seq<char>, u128)| e.0);
        assert forall|i: int, j: int| 0 <= i < keys.len() && 0 <= j < keys.len() && i != j implies keys[i] != keys[j] by {
            if keys[i] == keys[j] {
                lemma_sorted_unique(s, i, j);
            }
        }
        keys.unique_seq_to_set();
        assert(keys.to_set() =~= self@.dom()) by {
            assert forall|k: Seq<char>| keys.to_set().contains(k) <==> self@.dom().contains(k) by {
                if self@.dom().contains(k) {
                    let i = choose|i: int| 0 <= i < s.len() && (#[trigger] s[i]).0 == k;
                    assert(keys[i] == k);
                }
                if keys.to_set().contains(k) {
                    let i = choose|i: int| 0 <= i < keys.len() && keys[i] == k;
                    assert(s[i].0 == k);
                }
            }
        }
    }

    /// Where `addr` stands: `Ok(i)` if entry `i` holds it, else `Err(i)`, the
    /// place where it would go to keep the order.
    fn find(&self, addr: &str) -> (r: Result<usize, usize>)
        requires
            self.wf(),
        ensures
            r matches Ok(i) ==> i < self.spec_entries().len() && self.spec_entries()[i as int].0 == addr@,
            r matches Err(p) ==> p <= self.spec_entries().len() && (forall|j: int|
                0 <= j < p ==> lex_lt(key_bytes(#[trigger] self.spec_entries()[j].0), key_bytes(addr@))) && (forall|j: int|
                p <= j < self.spec_entries().len() ==> lex_lt(key_bytes(addr@), key_bytes(#[trigger] self.spec_entries()[j].0))),
    {
        let ghost s = self.spec_entries();
        let mut i: usize = 0;
        while i < self.entries.len()
            invariant
                s == self.spec_entries(),
                sorted(s),
                s.len() == self.entries@.len(),
                i <= s.len(),
                forall|j: int| 0 <= j < i ==> lex_lt(key_bytes(#[trigger] s[j].0), key_bytes(addr@)),
            decreases s.len() - i,
        {
            let c = compare_str(self.entries[i].0.as_str(), addr);
            assert(s[i as int].0 == self.entries@[i as int].0@);
            if c == 0 {
                return Ok(i);
            }
            if c > 0 {
                proof {
                    assert forall|j: int| i <= j < s.len() implies lex_lt(key_bytes(addr@), key_bytes(#[trigger] s[j].0)) by {
                        if j > i {
                            lemma_lex_transitive(key_bytes(addr@), key_bytes(s[i as int].0), key_bytes(s[j].0));
                        }
                    }
                }
                return Err(i);
            }
            i = i + 1;
        }
        Err(i)
    }

    /// The amount held for `addr`, if any.
    pub fn get(&self, addr: &str) -> (r: Option<u128>)
        requires
            self.wf(),
        ensures
            r == (if self@.contains_key(addr@) {
                Some(self@[addr@])
            } else {
                None::<u128>
            }),
    {
        match self.find(addr) {
            Ok(i) => {
                proof {
                    lemma_to_map_index(self.spec_entries(), i as int);
                }
                Some(self.entries[i].1)
            },
            Err(p) => {
                proof {
                    let s = self.spec_entries();
                    if has_key(s, addr@) {
                        let j = choose|j: int| 0 <= j < s.len() && (#[trigger] s[j]).0 == addr@;
                        lemma_lex_irreflexive(key_bytes(addr@));
                    }
                }
                None
            },
        }
    }

    proof fn lemma_map_after_insert(s: Seq<(Seq<char>, u128)>, p: int, e: (Seq<char>, u128))
        requires
            sorted(s),
            sorted(s.insert(p, e)),
            0 <= p <= s.len(),
            !has_key(s, e.0),
        ensures
            to_map(s.insert(p, e)) =~= to_map(s).insert(e.0, e.1),
    {
        let t = s.insert(p, e);
        lemma_to_map_index(t, p);
        assert forall|k: Seq<char>| #[trigger] to_map(t).contains_key(k) <==> to_map(s).insert(e.0, e.1).contains_key(k) by {
            if has_key(s, k) {
                let i = choose|i: int| 0 <= i < s.len() && (#[trigger] s[i]).0 == k;
                if i < p {
                    assert(t[i] == s[i]);
                } else {
                    assert(t[i + 1] == s[i]);
                }
            }
            if has_key(t, k) && k != e.0 {
                let i = choose|i: int| 0 <= i < t.len() && (#[trigger] t[i]).0 == k;
                if i < p {
                    assert(s[i] == t[i]);
                } else {
                    assert(s[i - 1] == t[i]);
                }
            }
        }
        assert forall|k: Seq<char>| #[trigger] to_map(t).contains_key(k) && k != e.0 implies to_map(t)[k] == to_map(s)[k] by {
            let i = choose|i: int| 0 <= i < t.len() && (#[trigger] t[i]).0 == k;
            lemma_to_map_index(t, i);
            if i < p {
                assert(s[i] == t[i]);
                lemma_to_map_index(s, i);
            } else {
                assert(s[i - 1] == t[i]);
                lemma_to_map_index(s, i - 1);
            }
        }
    }

    proof fn lemma_map_after_update(s: Seq<(Seq<char>, u128)>, i: int, v: u128)
        requires
            sorted(s),
            0 <= i < s.len(),
        ensures
            sorted(s.update(i, (s[i].0, v))),
            to_map(s.update(i, (s[i].0, v))) =~= to_map(s).insert(s[i].0, v),
    {
        let t = s.update(i, (s[i].0, v));
        assert(sorted(t)) by {
            assert forall|a: int, b: int| 0 <= a < b < t.len() implies lex_lt(key_bytes(#[trigger] t[a].0), key_bytes(#[trigger] t[b].0)) by {
                assert(t[a].0 == s[a].0 && t[b].0 == s[b].0);
            }
        }
        lemma_to_map_index(t, i);
        assert forall|k: Seq<char>| #[trigger] to_map(t).contains_key(k) <==> to_map(s).contains_key(k) by {
            if has_key(s, k) {
                let j = choose|j: int| 0 <= j < s.len() && (#[trigger] s[j]).0 == k;
                assert(t[j].0 == k);
            }
            if has_key(t, k) {
                let j = choose|j: int| 0 <= j < t.len() && (#[trigger] t[j]).0 == k;
                assert(s[j].0 == k);
            }
        }
        assert forall|k: Seq<char>| #[trigger] to_map(t).contains_key(k) && k != s[i].0 implies to_map(t)[k] == to_map(s)[k] by {
            let j = choose|j: int| 0 <= j < t.len() && (#[trigger] t[j]).0 == k;
            lemma_to_map_index(t, j);
            lemma_to_map_index(s, j);
        }
    }

    proof fn lemma_map_after_remove(s: Seq<(Seq<char>, u128)>, i: int)
        requires
            sorted(s),
            0 <= i < s.len(),
        ensures
            sorted(s.remove(i)),
            to_map(s.remove(i)) =~= to_map(s).remove(s[i].0),
    {
        let t = s.remove(i);
        assert(sorted(t)) by {
            assert forall|a: int, b: int| 0 <= a < b < t.len() implies lex_lt(key_bytes(#[trigger] t[a].0), key_bytes(#[trigger] t[b].0)) by {
                let a0 = if a < i { a } else { a + 1 };
                let b0 = if b < i { b } else { b + 1 };
                assert(t[a] == s[a0] && t[b] == s[b0]);
            }
        }
        assert forall|k: Seq<char>| #[trigger] to_map(t).contains_key(k) <==> to_map(s).remove(s[i].0).contains_key(k) by {
            if has_key(s, k) && k != s[i].0 {
                let j = choose|j: int| 0 <= j < s.len() && (#[trigger] s[j]).0 == k;
                if j < i {
                    assert(t[j] == s[j]);
                } else {
                    assert(t[j - 1] == s[j]);
                }
            }
            if has_key(t, k) {
                let j = choose|j: int| 0 <= j < t.len() && (#[trigger] t[j]).0 == k;
                let j0 = if j < i { j } else { j + 1 };
                assert(s[j0] == t[j]);
                if k == s[i].0 {
                    lemma_sorted_unique(s, i, j0);
                }
            }
        }
        assert forall|k: Seq<char>| #[trigger] to_map(t).contains_key(k) implies to_map(t)[k] == to_map(s)[k] by {
            let j = choose|j: int| 0 <= j < t.len() && (#[trigger] t[j]).0 == k;
            let j0 = if j < i { j } else { j + 1 };
            assert(s[j0] == t[j]);
            lemma_to_map_index(t, j);
            lemma_to_map_index(s, j0);
        }
    }

    /// Sets the amount held for `addr`, adding an entry if there is none.
    pub fn set(&mut self, addr: String, amount: u128)
        requires
            old(self).wf(),
        ensures
            final(self).wf(),
            final(self)@ == old(self)@.insert(addr@, amount),
            final(self).total() == old(self).total() - (if old(self)@.contains_key(addr@) {
                old(self)@[addr@] as int
            } else {
                0
            }) + amount,
    {
        let ghost s = self.spec_entries();
        match self.find(addr.as_str()) {
            Ok(i) => {
                proof {
                    Self::lemma_map_after_update(s, i as int, amount);
                    lemma_seq_total_update(s, i as int, (s[i as int].0, amount));
                    lemma_to_map_index(s, i as int);
                }
                self.entries.set(i, (addr, amount));
                assert(self.spec_entries() =~= s.update(i as int, (s[i as int].0, amount)));
            },
            Err(p) => {
                let ghost e = (addr@, amount);
                proof {
                    if has_key(s, addr@) {
                        let j = choose|j: int| 0 <= j < s.len() && (#[trigger] s[j]).0 == addr@;
                        lemma_lex_irreflexive(key_bytes(addr@));
                    }
                    let t = s.insert(p as int, e);
                    assert forall|a: int, b: int| 0 <= a < b < t.len() implies lex_lt(key_bytes(#[trigger] t[a].0), key_bytes(#[trigger] t[b].0)) by {
                        if a < p && b < p {
                            assert(t[a] == s[a] && t[b] == s[b]);
                        } else if a < p && b == p {
                            assert(t[a] == s[a]);
                        } else if a < p {
                            assert(t[a] == s[a] && t[b] == s[b - 1]);
                            lemma_lex_transitive(key_bytes(s[a].0), key_bytes(addr@), key_bytes(s[b - 1].0));
                        } else if a == p {
                            assert(t[b] == s[b - 1]);
                        } else {
                            assert(t[a] == s[a - 1] && t[b] == s[b - 1]);
                        }
                    }
                    Self::lemma_map_after_insert(s, p as int, e);
                    lemma_seq_total_insert(s, p as int, e);
                }
                self.entries.insert(p, (addr, amount));
                assert(self.spec_entries() =~= s.insert(p as int, e));
            },
        }
    }

    /// Removes the entry of `addr`, handing back its amount if there was one.
    pub fn remove(&mut self, addr: &str) -> (r: Option<u128>)
        requires
            old(self).wf(),
        ensures
            final(self).wf(),
            final(self)@ == old(self)@.remove(addr@),
            r == (if old(self)@.contains_key(addr@) {
                Some(old(self)@[addr@])
            } else {
                None::<u128>
            }),
            final(self).total() == old(self).total() - (if old(self)@.contains_key(addr@) {
                old(self)@[addr@] as int
            } else {
                0
            }),
    {
        let ghost s = self.spec_entries();
        match self.find(addr) {
            Ok(i) => {
                proof {
                    Self::lemma_map_after_remove(s, i as int);
                    lemma_seq_total_remove(s, i as int);
                    lemma_to_map_index(s, i as int);
                }
                let (_, amount) = self.entries.remove(i);
                assert(self.spec_entries() =~= s.remove(i as int));
                Some(amount)
            },
            Err(p) => {
                proof {
                    if has_key(s, addr@) {
                        let j = choose|j: int| 0 <= j < s.len() && (#[trigger] s[j]).0 == addr@;
                        lemma_lex_irreflexive(key_bytes(addr@));
                    }
                    assert(self@ =~= self@.remove(addr@));
                }
                None
            },
        }
    }

    /// At most `limit` entries, in ascending order, whose addresses come
    /// strictly after `start_after` (from the first entry when there is none).
    pub fn page(&self, start_after: Option<&str>, limit: usize) -> (r: Vec<(String, u128)>)
        requires
            self.wf(),
        ensures
            is_page(
                self.spec_entries(),
                match start_after {
                    Some(s) => Some(s@),
                    None => None,
                },
                limit as int,
                r@.map_values(|e: (String, u128)| (e.0@, e.1)),
            ),
    {
        let ghost s = self.spec_entries();
        let ghost start = match start_after {
            Some(x) => Some(x@),
            None => None,
        };
        let n = self.entries.len();
        let mut k: usize = 0;
        if let Some(sa) = start_after {
            while k < n
                invariant
                    s == self.spec_entries(),
                    sorted(s),
                    n == s.len(),
                    k <= n,
                    start == Some(sa@),
                    forall|j: int| 0 <= j < k ==> !after(#[trigger] s[j].0, start),
                ensures
                    k <= n,
                    forall|j: int| 0 <= j < k ==> !after(#[trigger] s[j].0, start),
                    k < n ==> after(s[k as int].0, start),
                decreases n - k,
            {
                assert(s[k as int].0 == self.entries@[k as int].0@);
                let c = compare_str(self.entries[k].0.as_str(), sa);
                if c > 0 {
                    break;
                }
                proof {
                    lemma_lex_asymmetric(key_bytes(sa@), key_bytes(s[k as int].0));
                    if c == 0 {
                        lemma_lex_irreflexive(key_bytes(sa@));
                    }
                }
                k = k + 1;
            }
        }
        proof {
            assert forall|j: int| k <= j < s.len() implies after(#[trigger] s[j].0, start) by {
                if let Some(x) = start {
                    if j > k {
                        lemma_lex_transitive(key_bytes(x), key_bytes(s[k as int].0), key_bytes(s[j].0));
                    }
                }
            }
        }
        let end = if limit < n - k {
            k + limit
        } else {
            n
        };
        let mut out: Vec<(String, u128)> = Vec::new();
        let mut i = k;
        while i < end
            invariant
                s == self.spec_entries(),
                n == s.len(),
                k <= i <= end <= n,
                out@.len() == i - k,
                forall|j: int| 0 <= j < out@.len() ==> (#[trigger] out@[j]).0@ == s[k + j].0 && out@[j].1 == s[k + j].1,
            decreases end - i,
        {
            assert(s[i as int] == (self.entries@[i as int].0@, self.entries@[i as int].1));
            let key = self.entries[i].0.clone();
            out.push((key, self.entries[i].1));
            i = i + 1;
        }
        assert(out@.map_values(|e: (String, u128)| (e.0@, e.1)) =~= s.subrange(k as int, end as int));
        assert(page_from(s, start, limit as int, out@.map_values(|e: (String, u128)| (e.0@, e.1)), k as int));
        out
    }
}

} // verus!
