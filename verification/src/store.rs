//! Sparse key-value stores backing the token ledger.
//!
//! Both map types read an absent key as zero, matching the ledger convention
//! that an account that never appeared holds a zero balance and a zero
//! allowance. Writing a key replaces its entry outright.

use vstd::prelude::*;

verus! {

/// Sum of the values held by a sequence of (key, value) entries.
pub open spec fn sum_of_values(entries: Seq<(u64, u64)>) -> int
    decreases entries.len(),
{
    if entries.len() == 0 {
        0
    } else {
        entries[0].1 + sum_of_values(entries.drop_first())
    }
}

/// Value of the first entry holding `key`, or zero where none does.
pub open spec fn value_of(entries: Seq<(u64, u64)>, key: u64) -> u64
    decreases entries.len(),
{
    if entries.len() == 0 {
        0u64
    } else if entries[0].0 == key {
        entries[0].1
    } else {
        value_of(entries.drop_first(), key)
    }
}

/// Each key is held by at most one entry.
pub open spec fn unique_keys(entries: Seq<(u64, u64)>) -> bool {
    forall|p: int, q: int|
        0 <= p < q < entries.len() ==> (#[trigger] entries[p]).0 != (#[trigger] entries[q]).0
}

/// A sparse map from `u64` keys to `u64` values.
pub struct SparseMap {
    entries: Vec<(u64, u64)>,
}

impl SparseMap {
    pub closed spec fn wf(self) -> bool {
        unique_keys(self.entries@)
    }

    /// The value read for `key`: zero where no entry holds the key.
    pub closed spec fn spec_get(self, key: u64) -> u64 {
        value_of(self.entries@, key)
    }

    /// The sum of all stored values.
    pub closed spec fn total(self) -> int {
        sum_of_values(self.entries@)
    }

    pub fn new() -> (r: SparseMap)
        ensures
            r.wf(),
            r.total() == 0,
            forall|k: u64| r.spec_get(k) == 0,
    {
        SparseMap { entries: Vec::new() }
    }

    /// Index of the first entry holding `key`, if any.
    fn index_of(&self, key: u64) -> (r: Option<usize>)
        ensures
            match r {
                Some(i) => {
                    &&& i < self.entries@.len()
                    &&& self.entries@[i as int].0 == key
                    &&& forall|p: int| 0 <= p < i ==> self.entries@[p].0 != key
                },
                None => forall|p: int| 0 <= p < self.entries@.len() ==> self.entries@[p].0 != key,
            },
    {
        let n = self.entries.len();
        let mut i: usize = 0;
        while i < n
            invariant
                i <= n,
                n == self.entries@.len(),
                forall|p: int| 0 <= p < i ==> self.entries@[p].0 != key,
            decreases n - i,
        {
            if self.entries[i].0 == key {
                return Some(i);
            }
            i = i + 1;
        }
        None
    }

    pub fn get(&self, key: u64) -> (r: u64)
        ensures
            r == self.spec_get(key),
    {
        match self.index_of(key) {
            Some(i) => {
                proof {
                    lemma_value_of_found(self.entries@, i as int, key);
                }
                self.entries[i].1
            }
            None => {
                proof {
                    lemma_value_of_absent(self.entries@, key);
                }
                0
            }
        }
    }

    pub fn insert(&mut self, key: u64, value: u64)
        requires
            old(self).wf(),
        ensures
            final(self).wf(),
            final(self).spec_get(key) == value,
            forall|k: u64| k != key ==> final(self).spec_get(k) == old(self).spec_get(k),
            final(self).total() == old(self).total() - old(self).spec_get(key) + value,
    {
        match self.index_of(key) {
            Some(i) => {
                proof {
                    lemma_value_of_found(self.entries@, i as int, key);
                    lemma_update_entry(self.entries@, i as int, key, value);
                    let s2 = self.entries@.update(i as int, (key, value));
                    assert forall|p: int, q: int| 0 <= p < q < s2.len() implies (#[trigger] s2[p]).0
                        != (#[trigger] s2[q]).0 by {
                        assert(s2[p].0 == self.entries@[p].0);
                        assert(s2[q].0 == self.entries@[q].0);
                    }
                }
                self.entries[i] = (key, value);
            }
            None => {
                proof {
                    lemma_value_of_absent(self.entries@, key);
                    lemma_push_entry(self.entries@, key, value);
                    let s2 = self.entries@.push((key, value));
                    assert forall|p: int, q: int| 0 <= p < q < s2.len() implies (#[trigger] s2[p]).0
                        != (#[trigger] s2[q]).0 by {
                        if q == self.entries@.len() {
                            assert(s2[p].0 == self.entries@[p].0);
                        } else {
                            assert(s2[p].0 == self.entries@[p].0);
                            assert(s2[q].0 == self.entries@[q].0);
                        }
                    }
                }
                self.entries.push((key, value));
            }
        }
    }
}

/// Value of the first entry holding the pair (`owner`, `spender`), or zero
/// where none does.
pub open spec fn pair_value_of(entries: Seq<(u64, u64, u64)>, owner: u64, spender: u64) -> u64
    decreases entries.len(),
{
    if entries.len() == 0 {
        0u64
    } else if entries[0].0 == owner && entries[0].1 == spender {
        entries[0].2
    } else {
        pair_value_of(entries.drop_first(), owner, spender)
    }
}

/// Each (owner, spender) pair is held by at most one entry.
pub open spec fn unique_pairs(entries: Seq<(u64, u64, u64)>) -> bool {
    forall|p: int, q: int|
        0 <= p < q < entries.len() ==> ((#[trigger] entries[p]).0 != (#[trigger] entries[q]).0
            || entries[p].1 != entries[q].1)
}

/// A sparse map from (`u64`, `u64`) key pairs to `u64` values.
pub struct SparsePairMap {
    entries: Vec<(u64, u64, u64)>,
}

impl SparsePairMap {
    pub closed spec fn wf(self) -> bool {
        unique_pairs(self.entries@)
    }

    /// The value read for the pair: zero where no entry holds it.
    pub closed spec fn spec_get(self, owner: u64, spender: u64) -> u64 {
        pair_value_of(self.entries@, owner, spender)
    }

    pub fn new() -> (r: SparsePairMap)
        ensures
            r.wf(),
            forall|o: u64, s: u64| r.spec_get(o, s) == 0,
    {
        SparsePairMap { entries: Vec::new() }
    }

    /// Index of the first entry holding the pair, if any.
    fn index_of(&self, owner: u64, spender: u64) -> (r: Option<usize>)
        ensures
            match r {
                Some(i) => {
                    &&& i < self.entries@.len()
                    &&& self.entries@[i as int].0 == owner
                    &&& self.entries@[i as int].1 == spender
                    &&& forall|p: int|
                        0 <= p < i ==> (self.entries@[p].0 != owner || self.entries@[p].1
                            != spender)
                },
                None => forall|p: int|
                    0 <= p < self.entries@.len() ==> (self.entries@[p].0 != owner
                        || self.entries@[p].1 != spender),
            },
    {
        let n = self.entries.len();
        let mut i: usize = 0;
        while i < n
            invariant
                i <= n,
                n == self.entries@.len(),
                forall|p: int|
                    0 <= p < i ==> (self.entries@[p].0 != owner || self.entries@[p].1 != spender),
            decreases n - i,
        {
            if self.entries[i].0 == owner && self.entries[i].1 == spender {
                return Some(i);
            }
            i = i + 1;
        }
        None
    }

    pub fn get(&self, owner: u64, spender: u64) -> (r: u64)
        ensures
            r == self.spec_get(owner, spender),
    {
        match self.index_of(owner, spender) {
            Some(i) => {
                proof {
                    lemma_pair_value_of_found(self.entries@, i as int, owner, spender);
                }
                self.entries[i].2
            }
            None => {
                proof {
                    lemma_pair_value_of_absent(self.entries@, owner, spender);
                }
                0
            }
        }
    }

    pub fn insert(&mut self, owner: u64, spender: u64, value: u64)
        requires
            old(self).wf(),
        ensures
            final(self).wf(),
            final(self).spec_get(owner, spender) == value,
            forall|o: u64, s: u64|
                !(o == owner && s == spender) ==> final(self).spec_get(o, s) == old(self).spec_get(
                    o,
                    s,
                ),
    {
        match self.index_of(owner, spender) {
            Some(i) => {
                proof {
                    lemma_pair_update_entry(self.entries@, i as int, owner, spender, value);
                    let s2 = self.entries@.update(i as int, (owner, spender, value));
                    assert forall|p: int, q: int| 0 <= p < q < s2.len() implies ((#[trigger] s2[p]).0
                        != (#[trigger] s2[q]).0 || s2[p].1 != s2[q].1) by {
                        assert(s2[p].0 == self.entries@[p].0 && s2[p].1 == self.entries@[p].1);
                        assert(s2[q].0 == self.entries@[q].0 && s2[q].1 == self.entries@[q].1);
                    }
                }
                self.entries[i] = (owner, spender, value);
            }
            None => {
                proof {
                    lemma_pair_value_of_absent(self.entries@, owner, spender);
                    lemma_pair_push_entry(self.entries@, owner, spender, value);
                    let s2 = self.entries@.push((owner, spender, value));
                    assert forall|p: int, q: int| 0 <= p < q < s2.len() implies ((#[trigger] s2[p]).0
                        != (#[trigger] s2[q]).0 || s2[p].1 != s2[q].1) by {
                        assert(s2[p].0 == self.entries@[p].0 && s2[p].1 == self.entries@[p].1);
                        if q < self.entries@.len() {
                            assert(s2[q].0 == self.entries@[q].0 && s2[q].1 == self.entries@[q].1);
                        }
                    }
                }
                self.entries.push((owner, spender, value));
            }
        }
    }
}

proof fn lemma_pair_value_of_found(entries: Seq<(u64, u64, u64)>, i: int, owner: u64, spender: u64)
    requires
        0 <= i < entries.len(),
        entries[i].0 == owner,
        entries[i].1 == spender,
        forall|p: int| 0 <= p < i ==> (entries[p].0 != owner || entries[p].1 != spender),
    ensures
        pair_value_of(entries, owner, spender) == entries[i].2,
    decreases i,
{
    if i > 0 {
        lemma_pair_value_of_found(entries.drop_first(), i - 1, owner, spender);
    }
}

proof fn lemma_pair_value_of_absent(entries: Seq<(u64, u64, u64)>, owner: u64, spender: u64)
    requires
        forall|p: int|
            0 <= p < entries.len() ==> (entries[p].0 != owner || entries[p].1 != spender),
    ensures
        pair_value_of(entries, owner, spender) == 0,
    decreases entries.len(),
{
    if entries.len() > 0 {
        lemma_pair_value_of_absent(entries.drop_first(), owner, spender);
    }
}

proof fn lemma_pair_update_entry(
    entries: Seq<(u64, u64, u64)>,
    i: int,
    owner: u64,
    spender: u64,
    value: u64,
)
    requires
        0 <= i < entries.len(),
        entries[i].0 == owner,
        entries[i].1 == spender,
        unique_pairs(entries),
    ensures
        pair_value_of(entries.update(i, (owner, spender, value)), owner, spender) == value,
        forall|o: u64, s: u64|
            !(o == owner && s == spender) ==> pair_value_of(
                entries.update(i, (owner, spender, value)),
                o,
                s,
            ) == pair_value_of(entries, o, s),
    decreases i,
{
    let s2 = entries.update(i, (owner, spender, value));
    if i == 0 {
        assert(s2.drop_first() =~= entries.drop_first());
    } else {
        assert(entries[0].0 != owner || entries[0].1 != spender);
        assert(unique_pairs(entries.drop_first()));
        assert(s2.drop_first() =~= entries.drop_first().update(i - 1, (owner, spender, value)));
        lemma_pair_update_entry(entries.drop_first(), i - 1, owner, spender, value);
        assert forall|o: u64, s: u64| !(o == owner && s == spender) implies pair_value_of(s2, o, s)
            == pair_value_of(entries, o, s) by {
            if !(entries[0].0 == o && entries[0].1 == s) {
                assert(pair_value_of(s2.drop_first(), o, s) == pair_value_of(
                    entries.drop_first(),
                    o,
                    s,
                ));
            }
        }
    }
}

proof fn lemma_pair_push_entry(entries: Seq<(u64, u64, u64)>, owner: u64, spender: u64, value: u64)
    requires
        forall|p: int|
            0 <= p < entries.len() ==> (entries[p].0 != owner || entries[p].1 != spender),
    ensures
        pair_value_of(entries.push((owner, spender, value)), owner, spender) == value,
        forall|o: u64, s: u64|
            !(o == owner && s == spender) ==> pair_value_of(
                entries.push((owner, spender, value)),
                o,
                s,
            ) == pair_value_of(entries, o, s),
    decreases entries.len(),
{
    let s2 = entries.push((owner, spender, value));
    if entries.len() == 0 {
        assert(s2.drop_first() =~= entries);
    } else {
        lemma_pair_push_entry(entries.drop_first(), owner, spender, value);
        assert(s2.drop_first() =~= entries.drop_first().push((owner, spender, value)));
        assert forall|o: u64, s: u64| !(o == owner && s == spender) implies pair_value_of(s2, o, s)
            == pair_value_of(entries, o, s) by {
            if !(entries[0].0 == o && entries[0].1 == s) {
                assert(pair_value_of(s2.drop_first(), o, s) == pair_value_of(
                    entries.drop_first(),
                    o,
                    s,
                ));
            }
        }
    }
}

/// Any single value is bounded by the sum of all values, and the sum is
/// never negative.
pub proof fn lemma_get_le_total(m: SparseMap, key: u64)
    ensures
        0 <= m.total(),
        m.spec_get(key) <= m.total(),
{
    lemma_value_le_sum(m.entries@, key);
}

proof fn lemma_value_le_sum(entries: Seq<(u64, u64)>, key: u64)
    ensures
        0 <= sum_of_values(entries),
        value_of(entries, key) <= sum_of_values(entries),
    decreases entries.len(),
{
    if entries.len() > 0 {
        lemma_value_le_sum(entries.drop_first(), key);
    }
}

proof fn lemma_value_of_found(entries: Seq<(u64, u64)>, i: int, key: u64)
    requires
        0 <= i < entries.len(),
        entries[i].0 == key,
        forall|p: int| 0 <= p < i ==> entries[p].0 != key,
    ensures
        value_of(entries, key) == entries[i].1,
    decreases i,
{
    if i > 0 {
        lemma_value_of_found(entries.drop_first(), i - 1, key);
    }
}

proof fn lemma_value_of_absent(entries: Seq<(u64, u64)>, key: u64)
    requires
        forall|p: int| 0 <= p < entries.len() ==> entries[p].0 != key,
    ensures
        value_of(entries, key) == 0,
    decreases entries.len(),
{
    if entries.len() > 0 {
        lemma_value_of_absent(entries.drop_first(), key);
    }
}

proof fn lemma_update_entry(entries: Seq<(u64, u64)>, i: int, key: u64, value: u64)
    requires
        0 <= i < entries.len(),
        entries[i].0 == key,
        unique_keys(entries),
    ensures
        value_of(entries.update(i, (key, value)), key) == value,
        forall|k: u64|
            k != key ==> value_of(entries.update(i, (key, value)), k) == value_of(entries, k),
        sum_of_values(entries.update(i, (key, value))) == sum_of_values(entries) - entries[i].1
            + value,
    decreases i,
{
    let s2 = entries.update(i, (key, value));
    if i == 0 {
        assert(s2.drop_first() =~= entries.drop_first());
    } else {
        assert(entries[0].0 != key);
        assert(unique_keys(entries.drop_first()));
        assert(s2.drop_first() =~= entries.drop_first().update(i - 1, (key, value)));
        lemma_update_entry(entries.drop_first(), i - 1, key, value);
        assert forall|k: u64| k != key implies value_of(s2, k) == value_of(entries, k) by {
            if entries[0].0 != k {
                assert(value_of(s2.drop_first(), k) == value_of(entries.drop_first(), k));
            }
        }
    }
}

proof fn lemma_push_entry(entries: Seq<(u64, u64)>, key: u64, value: u64)
    requires
        forall|p: int| 0 <= p < entries.len() ==> entries[p].0 != key,
    ensures
        value_of(entries.push((key, value)), key) == value,
        forall|k: u64| k != key ==> value_of(entries.push((key, value)), k) == value_of(entries, k),
        sum_of_values(entries.push((key, value))) == sum_of_values(entries) + value,
    decreases entries.len(),
{
    let s2 = entries.push((key, value));
    if entries.len() == 0 {
        assert(s2.drop_first() =~= entries);
    } else {
        lemma_push_entry(entries.drop_first(), key, value);
        assert(s2.drop_first() =~= entries.drop_first().push((key, value)));
        assert(sum_of_values(s2) == entries[0].1 + sum_of_values(s2.drop_first()));
        assert(sum_of_values(s2.drop_first()) == sum_of_values(entries.drop_first()) + value);
        assert forall|k: u64| k != key implies value_of(s2, k) == value_of(entries, k) by {
            if entries[0].0 != k {
                assert(value_of(s2.drop_first(), k) == value_of(entries.drop_first(), k));
            }
        }
    }
}

} // verus!
