//! Interning of matched rule chains: equal chains of declaration blocks are
//! resolved to one and the same rule node.

use crate::cascade::StrongRuleNode;
use vstd::prelude::*;

verus! {

/// A per-worker table of the rule chains seen so far. Its view is the
/// chains, in the order they were first seen; a chain's position is the id
/// of its rule node.
pub struct RuleCache {
    chains: Vec<Vec<u64>>,
}

impl View for RuleCache {
    type V = Seq<Seq<u64>>;

    closed spec fn view(&self) -> Seq<Seq<u64>> {
        self.chains@.map_values(|c: Vec<u64>| c@)
    }
}

/// Whether two chains hold the same blocks in the same order.
fn same_chain(a: &Vec<u64>, b: &Vec<u64>) -> (r: bool)
    ensures
        r == (a@ == b@),
{
    if a.len() != b.len() {
        return false;
    }
    let mut i: usize = 0;
    while i < a.len()
        invariant
            a@.len() == b@.len(),
            i <= a@.len(),
            forall|j: int| 0 <= j < i ==> a@[j] == b@[j],
        decreases a@.len() - i,
    {
        if a[i] != b[i] {
            return false;
        }
        i = i + 1;
    }
    assert(a@ =~= b@);
    true
}

impl RuleCache {
    /// No chain is held twice.
    pub closed spec fn wf(&self) -> bool {
        forall|i: int, j: int|
            0 <= i < j < self@.len() ==> #[trigger] self@[i] != #[trigger] self@[j]
    }

    /// An empty table.
    pub fn new() -> (r: Self)
        ensures
            r.wf(),
            r@ == Seq::<Seq<u64>>::empty(),
    {
        let r = RuleCache { chains: Vec::new() };
        assert(r@ =~= Seq::<Seq<u64>>::empty());
        r
    }

    /// The number of distinct chains seen.
    pub fn len(&self) -> (r: usize)
        ensures
            r == self@.len(),
    {
        self.chains.len()
    }

    /// The rule node for `chain`: the one already given to an equal chain,
    /// or a new one, after all others, when the chain was not seen before.
    pub fn intern(&mut self, chain: &Vec<u64>) -> (r: StrongRuleNode)
        requires
            old(self).wf(),
            old(self)@.len() < u64::MAX,
        ensures
            final(self).wf(),
            old(self)@.contains(chain@) ==> final(self)@ == old(self)@,
            !old(self)@.contains(chain@) ==> final(self)@ == old(self)@.push(chain@),
            r.id < final(self)@.len(),
            final(self)@[r.id as int] == chain@,
    {
        let mut i: usize = 0;
        while i < self.chains.len()
            invariant
                i <= self@.len(),
                self@.len() == self.chains@.len(),
                self@ == old(self)@,
                self.wf(),
                forall|j: int| 0 <= j < i ==> self@[j] != chain@,
            decreases self@.len() - i,
        {
            if same_chain(&self.chains[i], chain) {
                assert(self@[i as int] == self.chains@[i as int]@);
                assert(old(self)@.contains(chain@));
                return StrongRuleNode { id: i as u64 };
            }
            i = i + 1;
        }
        let ghost before = self@;
        assert(!before.contains(chain@));
        self.chains.push(chain.clone());
        proof {
            assert(self@ =~= before.push(chain@));
        }
        StrongRuleNode { id: i as u64 }
    }
}

/// Interning equal chains gives the same rule node, and different chains
/// different ones: within one table, ids and chains correspond one to one.
pub proof fn lemma_interning_is_one_to_one(c: RuleCache, i: int, j: int)
    requires
        c.wf(),
        0 <= i < c@.len(),
        0 <= j < c@.len(),
    ensures
        (c@[i] == c@[j]) == (i == j),
{
}

} // verus!
