//! The style sharing cache: the styles a worker computed for recent
//! elements, kept so that a later sibling that looks the same can take one
//! over instead of matching selectors again.

use crate::cascade::StrongRuleNode;
use vstd::prelude::*;

verus! {

/// The number of entries the cache keeps.
pub const SHARING_CACHE_SIZE: usize = 31;

/// What an element is compared on for sharing: its tag, a digest of its
/// attributes, and its parent. Elements with equal keys look the same to
/// selector matching.
#[derive(Clone, Copy, Debug, PartialEq, Eq, Structural)]
pub struct SharingKey {
    pub local_name: u64,
    pub attributes: u64,
    pub parent: u64,
}

/// A style computed earlier: the rules it came from and the style itself.
#[derive(Clone, Copy, Debug, PartialEq, Eq, Structural)]
pub struct CachedStyle {
    pub rules: StrongRuleNode,
    pub style: u64,
}

/// The most recent style cached under `key` in `s` (oldest entry first).
pub open spec fn latest_for_key(s: Seq<(SharingKey, CachedStyle)>, key: SharingKey) -> Option<
    CachedStyle,
>
    decreases s.len(),
{
    if s.len() == 0 {
        None
    } else if s.last().0 == key {
        Some(s.last().1)
    } else {
        latest_for_key(s.drop_last(), key)
    }
}

/// The most recent style cached with the rules `rules` in `s`.
pub open spec fn latest_for_rules(s: Seq<(SharingKey, CachedStyle)>, rules: StrongRuleNode) -> Option<
    CachedStyle,
>
    decreases s.len(),
{
    if s.len() == 0 {
        None
    } else if s.last().1.rules == rules {
        Some(s.last().1)
    } else {
        latest_for_rules(s.drop_last(), rules)
    }
}

/// The entries after caching `style` under `key`: the oldest entry goes
/// when the cache is full.
pub open spec fn inserted(
    s: Seq<(SharingKey, CachedStyle)>,
    key: SharingKey,
    style: CachedStyle,
) -> Seq<(SharingKey, CachedStyle)> {
    if s.len() >= SHARING_CACHE_SIZE {
        s.drop_first().push((key, style))
    } else {
        s.push((key, style))
    }
}

/// A per-worker cache of recently computed styles. Its view is the entries,
/// oldest first.
pub struct StyleSharingCache {
    entries: Vec<(SharingKey, CachedStyle)>,
}

impl View for StyleSharingCache {
    type V = Seq<(SharingKey, CachedStyle)>;

    closed spec fn view(&self) -> Seq<(SharingKey, CachedStyle)> {
        self.entries@
    }
}

impl StyleSharingCache {
    /// An empty cache.
    pub fn new() -> (r: Self)
        ensures
            r@ == Seq::<(SharingKey, CachedStyle)>::empty(),
    {
        StyleSharingCache { entries: Vec::new() }
    }

    /// The number of cached entries.
    pub fn len(&self) -> (r: usize)
        ensures
            r == self@.len(),
    {
        self.entries.len()
    }

    /// Caches `style` for an element with key `key`.
    pub fn insert(&mut self, key: SharingKey, style: CachedStyle)
        requires
            old(self)@.len() <= SHARING_CACHE_SIZE,
        ensures
            final(self)@ == inserted(old(self)@, key, style),
            final(self)@.len() <= SHARING_CACHE_SIZE,
    {
        if self.entries.len() >= SHARING_CACHE_SIZE {
            self.entries.remove(0);
        }
        self.entries.push((key, style));
        proof {
            if old(self)@.len() >= SHARING_CACHE_SIZE {
                assert(self@ =~= old(self)@.drop_first().push((key, style)));
            }
        }
    }

    /// The most recent style cached for an element with key `key`.
    pub fn lookup(&self, key: SharingKey) -> (r: Option<CachedStyle>)
        ensures
            r == latest_for_key(self@, key),
    {
        let mut i: usize = self.entries.len();
        assert(self@.subrange(0, i as int) =~= self@);
        while i > 0
            invariant
                i <= self@.len(),
                latest_for_key(self@, key) == latest_for_key(self@.subrange(0, i as int), key),
            decreases i,
        {
            let entry = self.entries[i - 1];
            let ghost prefix = self@.subrange(0, i as int);
            if entry.0 == key {
                return Some(entry.1);
            }
            assert(prefix.drop_last() =~= self@.subrange(0, i - 1));
            i = i - 1;
        }
        None
    }

    /// The most recent style cached with the rules `rules`.
    pub fn lookup_by_rules(&self, rules: StrongRuleNode) -> (r: Option<CachedStyle>)
        ensures
            r == latest_for_rules(self@, rules),
    {
        let mut i: usize = self.entries.len();
        assert(self@.subrange(0, i as int) =~= self@);
        while i > 0
            invariant
                i <= self@.len(),
                latest_for_rules(self@, rules) == latest_for_rules(self@.subrange(0, i as int), rules),
            decreases i,
        {
            let entry = self.entries[i - 1];
            let ghost prefix = self@.subrange(0, i as int);
            if entry.1.rules == rules {
                return Some(entry.1);
            }
            assert(prefix.drop_last() =~= self@.subrange(0, i - 1));
            i = i - 1;
        }
        None
    }

    /// Forgets every entry.
    pub fn clear(&mut self)
        ensures
            final(self)@ == Seq::<(SharingKey, CachedStyle)>::empty(),
    {
        self.entries.clear();
    }
}

proof fn lemma_latest_found(s: Seq<(SharingKey, CachedStyle)>, key: SharingKey)
    requires
        latest_for_key(s, key) is Some,
    ensures
        exists|j: int| 0 <= j < s.len() && s[j].0 == key && s[j].1 == latest_for_key(s, key)->0,
    decreases s.len(),
{
    if s.last().0 != key {
        lemma_latest_found(s.drop_last(), key);
        let j = choose|j: int|
            0 <= j < s.drop_last().len() && s.drop_last()[j].0 == key && s.drop_last()[j].1
                == latest_for_key(s.drop_last(), key)->0;
        assert(s[j] == s.drop_last()[j]);
    }
}

proof fn lemma_absent_after_drop_first(s: Seq<(SharingKey, CachedStyle)>, key: SharingKey)
    requires
        s.len() > 0,
        latest_for_key(s, key) is None,
    ensures
        latest_for_key(s.drop_first(), key) is None,
    decreases s.len(),
{
    if s.len() > 1 {
        assert(s.drop_first().drop_last() =~= s.drop_last().drop_first());
        lemma_absent_after_drop_first(s.drop_last(), key);
    }
}

/// A hit is only ever reported for an element whose key equals the key a
/// style was cached under: an element that differs from every cached one,
/// even in its attributes alone, never shares. And an element that looks
/// the same as the one just cached is a hit, on the style just cached.
pub proof fn lemma_sharing_hits(
    s: Seq<(SharingKey, CachedStyle)>,
    key: SharingKey,
    style: CachedStyle,
    other: SharingKey,
)
    requires
        other != key,
        latest_for_key(s, other) is None,
    ensures
        latest_for_key(inserted(s, key, style), key) == Some(style),
        latest_for_key(inserted(s, key, style), other) is None,
        forall|k: SharingKey|
            #![trigger latest_for_key(s, k)]
            latest_for_key(s, k) is Some ==> exists|j: int|
                0 <= j < s.len() && s[j].0 == k && s[j].1 == latest_for_key(s, k)->0,
{
    let t = inserted(s, key, style);
    if s.len() >= SHARING_CACHE_SIZE {
        lemma_absent_after_drop_first(s, other);
        assert(t.drop_last() =~= s.drop_first());
    } else {
        assert(t.drop_last() =~= s);
    }
    assert forall|k: SharingKey|
        #![trigger latest_for_key(s, k)]
        latest_for_key(s, k) is Some implies exists|j: int|
            0 <= j < s.len() && s[j].0 == k && s[j].1 == latest_for_key(s, k)->0 by {
        lemma_latest_found(s, k);
    }
}

} // verus!
