//! The ancestor filter: selectors' counting Bloom filter over the hashes of
//! the elements on the path from the root to the element being styled. It is
//! used to reject selectors fast: it may say an ancestor is there when it is
//! not, but never the reverse.

use vstd::prelude::*;

verus! {

/// The number of counters in the filter.
pub const BLOOM_SLOTS: usize = 4096;

/// The first counter that a hash falls in: its low twelve bits.
pub open spec fn slot1(h: u32) -> int {
    (h & 0xfff) as int
}

/// The second counter that a hash falls in: its next twelve bits.
pub open spec fn slot2(h: u32) -> int {
    ((h >> 12u32) & 0xfff) as int
}

proof fn lemma_slots_in_range(h: u32)
    ensures
        0 <= slot1(h) < BLOOM_SLOTS,
        0 <= slot2(h) < BLOOM_SLOTS,
{
    assert((h & 0xfff) < 4096) by (bit_vector);
    assert(((h >> 12u32) & 0xfff) < 4096) by (bit_vector);
}

/// Counter `i` after one step up or down; a counter that reached 255 stays
/// there.
pub open spec fn adjusted(c: Seq<u8>, i: int, increment: bool) -> Seq<u8> {
    if c[i] == 0xff {
        c
    } else if increment {
        c.update(i, (c[i] + 1) as u8)
    } else {
        c.update(i, (c[i] - 1) as u8)
    }
}

/// The counters that selectors' Bloom filter holds, one per slot.
pub uninterp spec fn bloom_counters(f: CountingFilter) -> Seq<u8>;

/// selectors' counting Bloom filter with byte counters.
#[verifier::external_body]
pub struct CountingFilter {
    inner: selectors::bloom::BloomFilter,
}

impl CountingFilter {
    /// Relies on selectors' `CountingBloomFilter::new`: every counter starts
    /// at zero.
    #[verifier::external_body]
    fn new() -> (r: Self)
        ensures
            bloom_counters(r) == Seq::new(BLOOM_SLOTS as nat, |i: int| 0u8),
    {
        CountingFilter { inner: selectors::bloom::BloomFilter::new() }
    }

    /// Relies on selectors' `CountingBloomFilter::insert_hash`: it steps up
    /// the hash's first counter, then its second, each unless it is at 255.
    #[verifier::external_body]
    fn insert_hash(&mut self, hash: u32)
        ensures
            bloom_counters(*final(self)) == adjusted(
                adjusted(bloom_counters(*old(self)), slot1(hash), true),
                slot2(hash),
                true,
            ),
    {
        self.inner.insert_hash(hash)
    }

    /// Relies on selectors' `CountingBloomFilter::remove_hash`: it steps
    /// down the hash's first counter, then its second, each unless it is at
    /// 255; a counter at zero must not be stepped down.
    #[verifier::external_body]
    fn remove_hash(&mut self, hash: u32)
        requires
            bloom_counters(*old(self))[slot1(hash)] != 0,
            adjusted(bloom_counters(*old(self)), slot1(hash), false)[slot2(hash)] != 0,
        ensures
            bloom_counters(*final(self)) == adjusted(
                adjusted(bloom_counters(*old(self)), slot1(hash), false),
                slot2(hash),
                false,
            ),
    {
        self.inner.remove_hash(hash)
    }

    /// Relies on selectors' `CountingBloomFilter::might_contain_hash`: true
    /// exactly when neither of the hash's counters is zero.
    #[verifier::external_body]
    fn might_contain_hash(&self, hash: u32) -> (r: bool)
        ensures
            r == (bloom_counters(*self)[slot1(hash)] != 0 && bloom_counters(*self)[slot2(hash)]
                != 0),
    {
        self.inner.might_contain_hash(hash)
    }

    /// Relies on selectors' `CountingBloomFilter::clear`: every counter goes
    /// back to zero.
    #[verifier::external_body]
    fn clear(&mut self)
        ensures
            bloom_counters(*final(self)) == Seq::new(BLOOM_SLOTS as nat, |i: int| 0u8),
    {
        self.inner.clear()
    }
}

/// How many times the hashes in `s` fall in counter `i`, counting both of
/// each hash's counters.
pub open spec fn count_in_slot(s: Seq<u32>, i: int) -> nat
    decreases s.len(),
{
    if s.len() == 0 {
        0
    } else {
        count_in_slot(s.drop_last(), i) + (if slot1(s.last()) == i {
            1nat
        } else {
            0nat
        }) + (if slot2(s.last()) == i {
            1nat
        } else {
            0nat
        })
    }
}

proof fn lemma_count_push(s: Seq<u32>, h: u32, i: int)
    ensures
        count_in_slot(s.push(h), i) == count_in_slot(s, i) + (if slot1(h) == i {
            1nat
        } else {
            0nat
        }) + (if slot2(h) == i {
            1nat
        } else {
            0nat
        }),
{
    assert(s.push(h).drop_last() =~= s);
}

proof fn lemma_member_counted(s: Seq<u32>, h: u32)
    requires
        s.contains(h),
    ensures
        count_in_slot(s, slot1(h)) > 0,
        count_in_slot(s, slot2(h)) > 0,
    decreases s.len(),
{
    if s.last() != h {
        let k = choose|k: int| 0 <= k < s.len() && s[k] == h;
        assert(s.drop_last()[k] == h);
        lemma_member_counted(s.drop_last(), h);
    }
}

/// The filter over the current ancestor path. Its view is the sequence of
/// pushed hashes, root first.
pub struct StyleBloom {
    filter: CountingFilter,
    pushed: Vec<u32>,
}

impl View for StyleBloom {
    type V = Seq<u32>;

    closed spec fn view(&self) -> Seq<u32> {
        self.pushed@
    }
}

impl StyleBloom {
    /// The filter's counters.
    pub closed spec fn counters(&self) -> Seq<u8> {
        bloom_counters(self.filter)
    }

    /// Every counter below 255 holds the number of times the pushed hashes
    /// fall in it.
    pub closed spec fn wf(&self) -> bool {
        &&& self.counters().len() == BLOOM_SLOTS
        &&& forall|i: int|
            0 <= i < BLOOM_SLOTS ==> #[trigger] self.counters()[i] == 0xff || self.counters()[i]
                == count_in_slot(self.pushed@, i)
    }

    /// An empty filter.
    pub fn new() -> (r: Self)
        ensures
            r.wf(),
            r@ == Seq::<u32>::empty(),
            forall|i: int| 0 <= i < BLOOM_SLOTS ==> #[trigger] r.counters()[i] == 0,
    {
        StyleBloom { filter: CountingFilter::new(), pushed: Vec::new() }
    }

    /// The number of hashes on the path.
    pub fn depth(&self) -> (r: usize)
        ensures
            r == self@.len(),
    {
        self.pushed.len()
    }

    /// Adds the hash of the element being descended into.
    pub fn push(&mut self, hash: u32)
        requires
            old(self).wf(),
        ensures
            final(self).wf(),
            final(self)@ == old(self)@.push(hash),
    {
        proof {
            lemma_slots_in_range(hash);
        }
        let ghost before = self.pushed@;
        self.filter.insert_hash(hash);
        self.pushed.push(hash);
        proof {
            assert forall|i: int| 0 <= i < BLOOM_SLOTS implies #[trigger] self.counters()[i] == 0xff
                || self.counters()[i] == count_in_slot(self.pushed@, i) by {
                lemma_count_push(before, hash, i);
            }
        }
    }

    /// Removes the hash of the element being returned from, and hands it
    /// back; `None` on an empty path.
    pub fn pop(&mut self) -> (r: Option<u32>)
        requires
            old(self).wf(),
        ensures
            final(self).wf(),
            old(self)@.len() == 0 ==> r is None && final(self)@ == old(self)@,
            old(self)@.len() > 0 ==> r == Some(old(self)@.last()) && final(self)@
                == old(self)@.drop_last(),
    {
        match self.pushed.pop() {
            None => None,
            Some(hash) => {
                let ghost rest = self.pushed@;
                let ghost c = self.counters();
                proof {
                    lemma_slots_in_range(hash);
                    assert(old(self).pushed@ =~= rest.push(hash));
                    lemma_count_push(rest, hash, slot1(hash));
                    lemma_count_push(rest, hash, slot2(hash));
                }
                self.filter.remove_hash(hash);
                proof {
                    assert forall|i: int| 0 <= i < BLOOM_SLOTS implies #[trigger] self.counters()[i]
                        == 0xff || self.counters()[i] == count_in_slot(self.pushed@, i) by {
                        lemma_count_push(rest, hash, i);
                    }
                }
                Some(hash)
            },
        }
    }

    /// Empties the filter.
    pub fn clear(&mut self)
        ensures
            final(self).wf(),
            final(self)@ == Seq::<u32>::empty(),
            forall|i: int| 0 <= i < BLOOM_SLOTS ==> #[trigger] final(self).counters()[i] == 0,
    {
        self.filter.clear();
        self.pushed.clear();
    }

    /// Whether `hash` may be on the path: neither of its counters is zero. A
    /// hash on the path is always reported; while its counters are below
    /// 255, a hash is reported exactly when pushed hashes fall in both of
    /// them.
    pub fn might_contain(&self, hash: u32) -> (r: bool)
        requires
            self.wf(),
        ensures
            r == (self.counters()[slot1(hash)] != 0 && self.counters()[slot2(hash)] != 0),
            self@.contains(hash) ==> r,
            self.counters()[slot1(hash)] != 0xff && self.counters()[slot2(hash)] != 0xff ==> r == (
            count_in_slot(self@, slot1(hash)) > 0 && count_in_slot(self@, slot2(hash)) > 0),
    {
        proof {
            lemma_slots_in_range(hash);
            if self@.contains(hash) {
                lemma_member_counted(self.pushed@, hash);
            }
        }
        self.filter.might_contain_hash(hash)
    }
}

/// The path after pushing each hash of `p`, in order.
pub open spec fn push_all(s: Seq<u32>, p: Seq<u32>) -> Seq<u32>
    decreases p.len(),
{
    if p.len() == 0 {
        s
    } else {
        push_all(s, p.drop_last()).push(p.last())
    }
}

/// The path after `n` pops.
pub open spec fn pop_n(s: Seq<u32>, n: nat) -> Seq<u32>
    decreases n,
{
    if n == 0 || s.len() == 0 {
        s
    } else {
        pop_n(s.drop_last(), (n - 1) as nat)
    }
}

proof fn lemma_push_all_len(s: Seq<u32>, p: Seq<u32>)
    ensures
        push_all(s, p).len() == s.len() + p.len(),
        push_all(s, p).subrange(0, s.len() as int) == s,
    decreases p.len(),
{
    if p.len() > 0 {
        lemma_push_all_len(s, p.drop_last());
        assert(push_all(s, p).subrange(0, s.len() as int) =~= push_all(s, p.drop_last()).subrange(
            0,
            s.len() as int,
        ));
    }
}

proof fn lemma_pop_prefix(t: Seq<u32>, k: nat)
    requires
        k <= t.len(),
    ensures
        pop_n(t, k) == t.subrange(0, t.len() - k),
    decreases k,
{
    if k == 0 {
        assert(t.subrange(0, t.len() as int) =~= t);
    } else {
        lemma_pop_prefix(t.drop_last(), (k - 1) as nat);
        assert(t.drop_last().subrange(0, t.drop_last().len() - (k - 1)) =~= t.subrange(
            0,
            t.len() - k,
        ));
    }
}

/// Pushing the hashes of any path in order and then popping as many times
/// leaves the filter's path as it was: nothing of the pushed path remains.
pub proof fn lemma_push_pop_nesting(s: Seq<u32>, p: Seq<u32>)
    ensures
        pop_n(push_all(s, p), p.len()) == s,
{
    lemma_push_all_len(s, p);
    lemma_pop_prefix(push_all(s, p), p.len());
}

} // verus!
