//! The contexts of a traversal pass: the one shared read-only by all
//! workers, the one each worker owns, and the options they are configured
//! with.

use crate::bloom::StyleBloom;
use crate::cascade::StrongRuleNode;
use crate::rule_cache::RuleCache;
use crate::sharing::{latest_for_key, latest_for_rules, CachedStyle, SharingKey, StyleSharingCache, SHARING_CACHE_SIZE};
use crate::stack_limit::{StackLimitChecker, DEFAULT_STACK_BUDGET};
use crate::statistics::PerThreadTraversalStatistics;
use crate::tasks::{SequentialTask, SequentialTaskList, TElement};
use app_units::Au;
use euclid::default::Size2D;
use selectors::context::{QuirksMode, SelectorCaches};
use vstd::prelude::*;
use vstd::string::*;

verus! {

/// The number of elements that must be traversed for a pass to count as
/// large, unless configured otherwise.
pub const DEFAULT_STATISTICS_THRESHOLD: usize = 50;

/// Global options for the style system.
#[derive(Clone, Copy, Debug, PartialEq, Eq, Structural)]
pub struct StyleSystemOptions {
    /// Whether the style sharing cache is disabled.
    pub disable_style_sharing_cache: bool,
    /// Whether statistics about the style system should be dumped.
    pub dump_style_statistics: bool,
    /// The minimum number of elements that must be traversed to trigger a
    /// dump of style statistics.
    pub style_statistics_threshold: usize,
}

impl Default for StyleSystemOptions {
    fn default() -> (r: Self)
        ensures
            !r.disable_style_sharing_cache,
            !r.dump_style_statistics,
            r.style_statistics_threshold == DEFAULT_STATISTICS_THRESHOLD,
    {
        StyleSystemOptions {
            disable_style_sharing_cache: false,
            dump_style_statistics: false,
            style_statistics_threshold: DEFAULT_STATISTICS_THRESHOLD,
        }
    }
}

/// Whether the bytes are all ASCII digits.
pub open spec fn all_digits(b: Seq<u8>) -> bool {
    forall|i: int| 0 <= i < b.len() ==> 48 <= #[trigger] b[i] <= 57
}

/// The number that a string of ASCII digits writes in decimal.
pub open spec fn digits_value(b: Seq<u8>) -> nat
    decreases b.len(),
{
    if b.len() == 0 {
        0
    } else {
        digits_value(b.drop_last()) * 10 + (b.last() - 48) as nat
    }
}

/// The `usize` that `b` writes: an optional `+` and at least one ASCII
/// digit, of a value that fits.
pub open spec fn usize_text_value(b: Seq<u8>) -> Option<usize> {
    let d = if b.len() > 0 && b[0] == 43 {
        b.drop_first()
    } else {
        b
    };
    if d.len() > 0 && all_digits(d) && digits_value(d) <= usize::MAX {
        Some(digits_value(d) as usize)
    } else {
        None
    }
}

proof fn lemma_digits_value_grows(d: Seq<u8>, j: int)
    requires
        all_digits(d),
        0 <= j <= d.len(),
    ensures
        digits_value(d.subrange(0, j)) <= digits_value(d),
    decreases d.len() - j,
{
    if j < d.len() {
        lemma_digits_value_grows(d, j + 1);
        assert(d.subrange(0, j + 1).drop_last() =~= d.subrange(0, j));
    } else {
        assert(d.subrange(0, j) =~= d);
    }
}

proof fn lemma_overflow_stays(d: Seq<u8>, j: int)
    requires
        0 <= j <= d.len(),
        digits_value(d.subrange(0, j)) > usize::MAX,
    ensures
        all_digits(d) ==> digits_value(d) > usize::MAX,
{
    if all_digits(d) {
        lemma_digits_value_grows(d, j);
    }
}

/// Reads a `usize` written in decimal, as an optional `+` followed by ASCII
/// digits; `None` when the text is not of that form or the value does not
/// fit.
pub fn parse_usize(text: &str) -> (r: Option<usize>)
    ensures
        r == usize_text_value(text.spec_bytes()),
{
    let b = text.as_bytes();
    let ghost bs = b@;
    let start: usize = if b.len() > 0 && b[0] == 43 { 1 } else { 0 };
    let ghost d = if bs.len() > 0 && bs[0] == 43 { bs.drop_first() } else { bs };
    assert(d =~= bs.subrange(start as int, bs.len() as int));
    if b.len() == start {
        return None;
    }
    let mut acc: usize = 0;
    let mut i: usize = start;
    while i < b.len()
        invariant
            start <= i <= b@.len(),
            b@ == bs,
            bs == text.spec_bytes(),
            d == (if bs.len() > 0 && bs[0] == 43 { bs.drop_first() } else { bs }),
            d =~= bs.subrange(start as int, bs.len() as int),
            d.len() > 0,
            all_digits(d.subrange(0, i - start)),
            acc == digits_value(d.subrange(0, i - start)),
        decreases b@.len() - i,
    {
        let c = b[i];
        if c < 48 || c > 57 {
            assert(d[i - start] == c);
            assert(!all_digits(d));
            return None;
        }
        let ghost k = i - start;
        assert(d[k] == c);
        assert(d.subrange(0, k + 1).drop_last() =~= d.subrange(0, k));
        assert(d.subrange(0, k + 1).last() == c);
        assert(digits_value(d.subrange(0, k + 1)) == acc * 10 + (c - 48));
        match acc.checked_mul(10) {
            None => {
                proof {
                    assert(all_digits(d.subrange(0, k + 1)));
                    lemma_overflow_stays(d, k + 1);
                }
                return None;
            },
            Some(m) => match m.checked_add((c - 48) as usize) {
                None => {
                    proof {
                        assert(all_digits(d.subrange(0, k + 1)));
                        lemma_overflow_stays(d, k + 1);
                    }
                    return None;
                },
                Some(next) => {
                    acc = next;
                },
            },
        }
        i = i + 1;
    }
    assert(d.subrange(0, d.len() as int) =~= d);
    Some(acc)
}

/// Whether an environment flag is set: present and not empty.
pub fn env_flag(value: Option<&str>) -> (r: bool)
    ensures
        r == (value is Some && value->0@.len() > 0),
{
    match value {
        Some(s) => !s.is_empty(),
        None => false,
    }
}

/// Why options could not be read from the environment.
#[derive(Clone, Copy, Debug, PartialEq, Eq, Structural)]
pub enum OptionsError {
    /// The statistics threshold is not a decimal `usize`.
    MalformedStatisticsThreshold,
}

impl StyleSystemOptions {
    /// Options from the values of the environment variables that configure
    /// them: the two flags are set when their variable is present and not
    /// empty; the threshold is the default unless its variable is present,
    /// and an error when that variable does not hold a decimal `usize`.
    pub fn from_env_values(
        disable_style_sharing_cache: Option<&str>,
        dump_style_statistics: Option<&str>,
        style_statistics_threshold: Option<&str>,
    ) -> (r: Result<Self, OptionsError>)
        ensures
            match style_statistics_threshold {
                None => r == Ok::<Self, OptionsError>(
                    StyleSystemOptions {
                        disable_style_sharing_cache: disable_style_sharing_cache is Some
                            && disable_style_sharing_cache->0@.len() > 0,
                        dump_style_statistics: dump_style_statistics is Some
                            && dump_style_statistics->0@.len() > 0,
                        style_statistics_threshold: DEFAULT_STATISTICS_THRESHOLD,
                    },
                ),
                Some(t) => match usize_text_value(t.spec_bytes()) {
                    None => r == Err::<Self, OptionsError>(OptionsError::MalformedStatisticsThreshold),
                    Some(n) => r == Ok::<Self, OptionsError>(
                        StyleSystemOptions {
                            disable_style_sharing_cache: disable_style_sharing_cache is Some
                                && disable_style_sharing_cache->0@.len() > 0,
                            dump_style_statistics: dump_style_statistics is Some
                                && dump_style_statistics->0@.len() > 0,
                            style_statistics_threshold: n,
                        },
                    ),
                },
            },
    {
        let threshold = match style_statistics_threshold {
            None => DEFAULT_STATISTICS_THRESHOLD,
            Some(t) => match parse_usize(t) {
                None => return Err(OptionsError::MalformedStatisticsThreshold),
                Some(n) => n,
            },
        };
        Ok(StyleSystemOptions {
            disable_style_sharing_cache: env_flag(disable_style_sharing_cache),
            dump_style_statistics: env_flag(dump_style_statistics),
            style_statistics_threshold: threshold,
        })
    }
}

/// Flags that control how a pass traverses the tree, as a bit set.
#[derive(Clone, Copy, Debug, PartialEq, Eq, Structural)]
pub struct TraversalFlags {
    pub bits: u32,
}

/// The index of parsed style rules that a pass styles against, as far as the
/// contexts consult it: the device it styles for and its size.
pub struct Stylist {
    /// The viewport size of the device, in app units.
    pub viewport_size: Size2D<Au>,
    /// The quirks mode of the document.
    pub quirks_mode: QuirksMode,
    /// The device pixel ratio, as the bits of a 32-bit IEEE 754 number.
    pub device_pixel_ratio_bits: u32,
    /// The number of selectors.
    pub num_selectors: usize,
    /// The number of selectors that are checked again on revalidation.
    pub num_revalidation_selectors: usize,
    /// The number of state and attribute dependencies.
    pub num_invalidations: usize,
    /// The number of declarations.
    pub num_declarations: usize,
    /// The number of times the index was rebuilt.
    pub num_rebuilds: usize,
}

/// The context shared by all worker threads of one traversal pass. Nothing
/// mutates it while the pass runs.
pub struct SharedStyleContext<'a> {
    /// The style rule index.
    pub stylist: &'a Stylist,
    /// Whether visited styles are enabled.
    pub visited_styles_enabled: bool,
    /// Configuration options.
    pub options: StyleSystemOptions,
    /// The time at which all animations of the pass are sampled, in
    /// microseconds.
    pub current_time_for_animations: u64,
    /// Flags controlling how the tree is traversed.
    pub traversal_flags: TraversalFlags,
}

impl<'a> SharedStyleContext<'a> {
    /// The viewport size to use for viewport units.
    pub fn viewport_size(&self) -> (r: Size2D<Au>)
        ensures
            r == self.stylist.viewport_size,
    {
        self.stylist.viewport_size
    }

    /// The device pixel ratio, as the bits of a 32-bit IEEE 754 number.
    pub fn device_pixel_ratio_bits(&self) -> (r: u32)
        ensures
            r == self.stylist.device_pixel_ratio_bits,
    {
        self.stylist.device_pixel_ratio_bits
    }

    /// The quirks mode of the document.
    pub fn quirks_mode(&self) -> (r: QuirksMode)
        ensures
            r == self.stylist.quirks_mode,
    {
        self.stylist.quirks_mode
    }
}

/// The context that one worker thread owns during a pass and mutates
/// without locking. The task queue comes after the sharing cache and the
/// ancestor filter: those are released before the queued tasks run, since a
/// task may style elements with a fresh context of its own. `finish` does
/// both; dropping the context without it loses the queued tasks.
#[must_use]
pub struct ThreadLocalStyleContext<E: TElement> {
    /// A cache to share styles among siblings.
    pub sharing_cache: StyleSharingCache,
    /// The interned rule chains.
    pub rule_cache: RuleCache,
    /// The filter over the current ancestor path.
    pub bloom_filter: StyleBloom,
    /// Tasks to run on the driving thread once the pass is over.
    pub tasks: SequentialTaskList<E>,
    /// Statistics about the traversal.
    pub statistics: PerThreadTraversalStatistics,
    /// The guard against recursing too deep on deep trees.
    pub stack_limit_checker: StackLimitChecker,
    /// Caches for expensive selector matches.
    pub selector_caches: SelectorCaches,
}

impl<E: TElement> ThreadLocalStyleContext<E> {
    /// The caches are consistent and the sharing cache within its size.
    pub open spec fn wf(&self) -> bool {
        &&& self.bloom_filter.wf()
        &&& self.rule_cache.wf()
        &&& self.sharing_cache@.len() <= SHARING_CACHE_SIZE
    }

    /// A context with empty caches, an empty task queue and zero counters,
    /// whose stack guard allows the default budget below `current_sp`, the
    /// approximate current stack address of the worker.
    pub fn new(current_sp: usize) -> (r: Self)
        requires
            DEFAULT_STACK_BUDGET <= current_sp,
        ensures
            r.wf(),
            r.sharing_cache@.len() == 0,
            r.rule_cache@.len() == 0,
            r.bloom_filter@.len() == 0,
            r.tasks@.len() == 0,
            r.statistics == PerThreadTraversalStatistics::spec_zero(),
            r.stack_limit_checker.limit() == current_sp - DEFAULT_STACK_BUDGET,
    {
        ThreadLocalStyleContext {
            sharing_cache: StyleSharingCache::new(),
            rule_cache: RuleCache::new(),
            bloom_filter: StyleBloom::new(),
            tasks: SequentialTaskList::new(),
            statistics: PerThreadTraversalStatistics::new(),
            stack_limit_checker: StackLimitChecker::new(current_sp, DEFAULT_STACK_BUDGET),
            selector_caches: SelectorCaches::default(),
        }
    }

    /// Looks for a style that an element with key `key` can share, unless
    /// sharing is disabled, and counts a hit.
    pub fn share_style(&mut self, shared: &SharedStyleContext, key: SharingKey) -> (r: Option<
        CachedStyle,
    >)
        requires
            old(self).statistics.styles_shared < u32::MAX,
        ensures
            r == if shared.options.disable_style_sharing_cache {
                None
            } else {
                latest_for_key(old(self).sharing_cache@, key)
            },
            final(self).statistics == (PerThreadTraversalStatistics {
                styles_shared: if r is Some {
                    (old(self).statistics.styles_shared + 1) as u32
                } else {
                    old(self).statistics.styles_shared
                },
                ..old(self).statistics
            }),
            final(self).sharing_cache@ == old(self).sharing_cache@,
            final(self).rule_cache@ == old(self).rule_cache@,
            final(self).bloom_filter@ == old(self).bloom_filter@,
            final(self).tasks@ == old(self).tasks@,
            final(self).wf() == old(self).wf(),
    {
        if shared.options.disable_style_sharing_cache {
            return None;
        }
        let r = self.sharing_cache.lookup(key);
        if r.is_some() {
            self.statistics.styles_shared = self.statistics.styles_shared + 1;
        }
        r
    }

    /// Looks for a cached style computed from the rules `rules`, unless
    /// sharing is disabled, and counts a reuse.
    pub fn reuse_style(&mut self, shared: &SharedStyleContext, rules: StrongRuleNode) -> (r: Option<
        CachedStyle,
    >)
        requires
            old(self).statistics.styles_reused < u32::MAX,
        ensures
            r == if shared.options.disable_style_sharing_cache {
                None
            } else {
                latest_for_rules(old(self).sharing_cache@, rules)
            },
            final(self).statistics == (PerThreadTraversalStatistics {
                styles_reused: if r is Some {
                    (old(self).statistics.styles_reused + 1) as u32
                } else {
                    old(self).statistics.styles_reused
                },
                ..old(self).statistics
            }),
            final(self).sharing_cache@ == old(self).sharing_cache@,
            final(self).rule_cache@ == old(self).rule_cache@,
            final(self).bloom_filter@ == old(self).bloom_filter@,
            final(self).tasks@ == old(self).tasks@,
            final(self).wf() == old(self).wf(),
    {
        if shared.options.disable_style_sharing_cache {
            return None;
        }
        let r = self.sharing_cache.lookup_by_rules(rules);
        if r.is_some() {
            self.statistics.styles_reused = self.statistics.styles_reused + 1;
        }
        r
    }

    /// Queues a task for the driving thread.
    pub fn defer(&mut self, task: SequentialTask<E>)
        ensures
            final(self).tasks@ == old(self).tasks@.push(task),
            final(self).statistics == old(self).statistics,
            final(self).sharing_cache@ == old(self).sharing_cache@,
            final(self).rule_cache@ == old(self).rule_cache@,
            final(self).bloom_filter@ == old(self).bloom_filter@,
            final(self).wf() == old(self).wf(),
    {
        self.tasks.push(task);
    }

    /// Ends the worker's part in the pass: releases the caches, then runs
    /// the queued tasks in order, and hands back the worker's statistics.
    pub fn finish(self) -> (r: PerThreadTraversalStatistics)
        ensures
            r == self.statistics,
    {
        let ThreadLocalStyleContext {
            sharing_cache,
            rule_cache,
            bloom_filter,
            tasks,
            statistics,
            stack_limit_checker: _,
            selector_caches,
        } = self;
        let mut tasks = tasks;
        {
            let _released = (sharing_cache, rule_cache, bloom_filter, selector_caches);
        }
        tasks.run_all();
        statistics
    }
}

/// The context that the code styling one element works with: the pass's
/// shared context and the worker's own.
pub struct StyleContext<'a, E: TElement> {
    /// The shared style context.
    pub shared: &'a SharedStyleContext<'a>,
    /// The worker's thread-local style context.
    pub thread_local: &'a mut ThreadLocalStyleContext<E>,
}

} // verus!
