use app_units::Au;
use euclid::default::Size2D;
use std::cell::RefCell;
use std::rc::Rc;
use std::sync::Arc;
use std::time::Duration;
use style::bloom::StyleBloom;
use style::context::{env_flag, parse_usize, DEFAULT_STATISTICS_THRESHOLD};
use style::rule_cache::RuleCache;
use style::sharing::{StyleSharingCache, SHARING_CACHE_SIZE};
use style::stack_limit::{StackLimitChecker, DEFAULT_STACK_BUDGET};
use style::statistics::PerThreadTraversalStatistics;
use style::tasks::{with_deferred_tasks, CSS_ANIMATIONS, CSS_TRANSITIONS};
use style::{
    CachedStyle, ComputedValues, OptionsError, QuirksMode, SequentialTask, SequentialTaskList,
    SharedStyleContext, SharingKey, StrongRuleNode, StyleContext, StyleSystemOptions, Stylist,
    TElement, ThreadLocalStyleContext, TraversalFlags, TraversalStatistics, UpdateAnimationsTasks,
};

fn stylist() -> Stylist {
    Stylist {
        viewport_size: Size2D::new(Au(48000), Au(36000)),
        quirks_mode: QuirksMode::LimitedQuirks,
        device_pixel_ratio_bits: 2.0f32.to_bits(),
        num_selectors: 120,
        num_revalidation_selectors: 7,
        num_invalidations: 33,
        num_declarations: 410,
        num_rebuilds: 2,
    }
}

fn shared(stylist: &Stylist, options: StyleSystemOptions) -> SharedStyleContext<'_> {
    SharedStyleContext {
        stylist,
        visited_styles_enabled: true,
        options,
        current_time_for_animations: 0,
        traversal_flags: TraversalFlags { bits: 0 },
    }
}

fn counters(a: u32, b: u32, c: u32, d: u32, e: u32) -> PerThreadTraversalStatistics {
    PerThreadTraversalStatistics {
        elements_traversed: a,
        elements_styled: b,
        elements_matched: c,
        styles_shared: d,
        styles_reused: e,
    }
}

#[derive(Clone)]
struct Recorder {
    name: char,
    log: Rc<RefCell<Vec<(char, u8)>>>,
}

impl TElement for Recorder {
    fn update_animations(&self, _before: Option<Arc<ComputedValues>>, tasks: UpdateAnimationsTasks) {
        self.log.borrow_mut().push((self.name, tasks.bits));
    }
}

fn task(name: char, log: &Rc<RefCell<Vec<(char, u8)>>>) -> SequentialTask<Recorder> {
    SequentialTask::update_animations(
        Recorder { name, log: log.clone() },
        None,
        UpdateAnimationsTasks { bits: CSS_ANIMATIONS },
    )
}

#[test]
fn guard_not_exceeded_right_after_creation() {
    let g = StackLimitChecker::new(1_000_000, 4096);
    assert!(!g.limit_exceeded(1_000_000));
    assert!(!g.limit_exceeded(1_000_000 - 4095));
}

#[test]
fn guard_exceeded_once_budget_is_used() {
    let g = StackLimitChecker::new(1_000_000, 4096);
    assert!(g.limit_exceeded(1_000_000 - 4096));
    assert!(g.limit_exceeded(1_000_000 - 10_000));
}

#[test]
fn guard_with_zero_budget_is_exceeded_at_once() {
    let g = StackLimitChecker::new(500, 0);
    assert!(g.limit_exceeded(500));
}

#[test]
fn guard_consistency_check() {
    let sp: usize = 0x7fff_0000;
    let g = StackLimitChecker::new(sp, DEFAULT_STACK_BUDGET);
    assert!(g.is_consistent(sp));
    assert!(g.is_consistent(sp - DEFAULT_STACK_BUDGET));
    assert!(!g.is_consistent(sp - DEFAULT_STACK_BUDGET - 168 * 1024));
    assert!(!g.is_consistent(sp + 20 * 1024));
    let low = StackLimitChecker::new(DEFAULT_STACK_BUDGET, DEFAULT_STACK_BUDGET);
    assert!(low.is_consistent(DEFAULT_STACK_BUDGET));
    assert!(!low.is_consistent(DEFAULT_STACK_BUDGET + 200 * 1024));
}

#[test]
fn filter_push_then_pop_restores_path() {
    let mut f = StyleBloom::new();
    f.push(7);
    let path = [11u32, 4096 + 11, 99, 11];
    for h in path {
        f.push(h);
    }
    assert_eq!(f.depth(), 5);
    assert!(f.might_contain(99));
    for h in path.iter().rev() {
        assert_eq!(f.pop(), Some(*h));
    }
    assert_eq!(f.depth(), 1);
    assert!(f.might_contain(7));
    assert!(!f.might_contain(99));
    assert!(!f.might_contain(11));
    assert!(!f.might_contain(4096 + 11));
}

#[test]
fn filter_reports_every_ancestor() {
    let mut f = StyleBloom::new();
    for h in [1u32, 2, 3, 4096 * 3 + 2] {
        f.push(h);
    }
    for h in [1u32, 2, 3, 4096 * 3 + 2] {
        assert!(f.might_contain(h));
    }
    assert!(!f.might_contain(5));
}

#[test]
fn filter_pop_on_empty_path() {
    let mut f = StyleBloom::new();
    assert_eq!(f.pop(), None);
    assert_eq!(f.depth(), 0);
}

#[test]
fn filter_clear_empties_it() {
    let mut f = StyleBloom::new();
    f.push(3);
    f.push(9);
    f.clear();
    assert_eq!(f.depth(), 0);
    assert!(!f.might_contain(3));
    assert!(!f.might_contain(9));
}

fn key(attributes: u64) -> SharingKey {
    SharingKey { local_name: 1, attributes, parent: 40 }
}

fn cached(rules: u64, style: u64) -> CachedStyle {
    CachedStyle { rules: StrongRuleNode { id: rules }, style }
}

#[test]
fn identical_siblings_share() {
    let mut cache = StyleSharingCache::new();
    assert_eq!(cache.lookup(key(5)), None);
    cache.insert(key(5), cached(1, 100));
    assert_eq!(cache.lookup(key(5)), Some(cached(1, 100)));
}

#[test]
fn siblings_with_other_attributes_do_not_share() {
    let mut cache = StyleSharingCache::new();
    cache.insert(key(5), cached(1, 100));
    assert_eq!(cache.lookup(key(6)), None);
    assert_eq!(cache.lookup(SharingKey { local_name: 2, attributes: 5, parent: 40 }), None);
}

#[test]
fn sharing_cache_keeps_latest_and_evicts_oldest() {
    let mut cache = StyleSharingCache::new();
    cache.insert(key(5), cached(1, 100));
    cache.insert(key(5), cached(2, 200));
    assert_eq!(cache.lookup(key(5)), Some(cached(2, 200)));
    let mut c = StyleSharingCache::new();
    for i in 0..(SHARING_CACHE_SIZE as u64 + 1) {
        c.insert(key(i), cached(i, i));
    }
    assert_eq!(c.len(), SHARING_CACHE_SIZE);
    assert_eq!(c.lookup(key(0)), None);
    assert_eq!(c.lookup(key(1)), Some(cached(1, 1)));
    assert_eq!(c.lookup_by_rules(StrongRuleNode { id: 31 }), Some(cached(31, 31)));
    assert_eq!(c.lookup_by_rules(StrongRuleNode { id: 0 }), None);
    c.clear();
    assert_eq!(c.len(), 0);
}

#[test]
fn interning_deduplicates_chains() {
    let mut rc = RuleCache::new();
    let a = rc.intern(&vec![1, 2, 3]);
    let b = rc.intern(&vec![1, 2]);
    let c = rc.intern(&vec![1, 2, 3]);
    let d = rc.intern(&vec![]);
    assert_eq!(a, c);
    assert_ne!(a, b);
    assert_eq!(a, StrongRuleNode { id: 0 });
    assert_eq!(b, StrongRuleNode { id: 1 });
    assert_eq!(d, StrongRuleNode { id: 2 });
    assert_eq!(rc.len(), 3);
}

#[test]
fn merging_counters_in_any_order() {
    let t1 = counters(10, 5, 4, 1, 0);
    let t2 = counters(20, 1, 1, 7, 3);
    let t3 = counters(3, 3, 3, 3, 3);
    let orders = [[t1, t2, t3], [t1, t3, t2], [t2, t1, t3], [t2, t3, t1], [t3, t1, t2], [t3, t2, t1]];
    for order in orders {
        let mut total = PerThreadTraversalStatistics::new();
        for t in order {
            total.add_assign(&t);
        }
        assert_eq!(total, counters(33, 9, 8, 11, 6));
    }
}

#[test]
fn large_traversal_boundary() {
    let s = stylist();
    let ctx = shared(&s, StyleSystemOptions::default());
    assert_eq!(ctx.options.style_statistics_threshold, 50);
    let at = TraversalStatistics::new(counters(50, 0, 0, 0, 0), &ctx, true, Duration::from_millis(1));
    assert!(at.is_large);
    let below = TraversalStatistics::new(counters(49, 0, 0, 0, 0), &ctx, true, Duration::from_millis(1));
    assert!(!below.is_large);
}

#[test]
fn statistics_take_stylist_counts() {
    let s = stylist();
    let ctx = shared(&s, StyleSystemOptions::default());
    let st = TraversalStatistics::new(counters(1, 2, 3, 4, 5), &ctx, false, Duration::from_millis(7));
    assert_eq!(st.selectors, 120);
    assert_eq!(st.revalidation_selectors, 7);
    assert_eq!(st.dependency_selectors, 33);
    assert_eq!(st.declarations, 410);
    assert_eq!(st.stylist_rebuilds, 2);
    assert_eq!(st.traversal_time, Duration::from_millis(7));
    assert!(!st.is_parallel);
}

#[test]
fn perf_report_format() {
    let s = stylist();
    let ctx = shared(&s, StyleSystemOptions::default());
    let st = TraversalStatistics::new(counters(1200, 300, 250, 40, 9), &ctx, true, Duration::from_millis(7));
    let expected = "[PERF] perf block start\n\
[PERF],traversal,parallel\n\
[PERF],elements_traversed,1200\n\
[PERF],elements_styled,300\n\
[PERF],elements_matched,250\n\
[PERF],styles_shared,40\n\
[PERF],styles_reused,9\n\
[PERF],selectors,120\n\
[PERF],revalidation_selectors,7\n\
[PERF],dependency_selectors,33\n\
[PERF],declarations,410\n\
[PERF],stylist_rebuilds,2\n\
[PERF],traversal_time_ms,7\n\
[PERF] perf block end\n";
    assert_eq!(st.perf_report("7"), expected);
    let seq = TraversalStatistics::new(counters(0, 0, 0, 0, 0), &ctx, false, Duration::from_millis(0));
    assert!(seq.perf_report("0").contains("[PERF],traversal,sequential\n[PERF],elements_traversed,0\n"));
}

#[test]
fn deferred_tasks_run_in_order_once() {
    let log = Rc::new(RefCell::new(Vec::new()));
    let mut list = SequentialTaskList::new();
    list.push(task('A', &log));
    list.push(task('B', &log));
    list.push(task('C', &log));
    assert_eq!(list.len(), 3);
    assert!(log.borrow().is_empty());
    list.run_all();
    assert!(list.is_empty());
    list.run_all();
    let names: Vec<char> = log.borrow().iter().map(|e| e.0).collect();
    assert_eq!(names, vec!['A', 'B', 'C']);
}

#[test]
fn deferred_tasks_run_at_scope_end() {
    let log = Rc::new(RefCell::new(Vec::new()));
    let r = with_deferred_tasks(|q: &mut SequentialTaskList<Recorder>| {
        q.push(task('A', &log));
        q.push(task('B', &log));
        if q.len() == 2 {
            q.push(task('C', &log));
            return 3;
        }
        0
    });
    assert_eq!(r, 3);
    let names: Vec<char> = log.borrow().iter().map(|e| e.0).collect();
    assert_eq!(names, vec!['A', 'B', 'C']);
}

#[test]
fn take_all_hands_tasks_out_in_order() {
    let log = Rc::new(RefCell::new(Vec::new()));
    let mut list = SequentialTaskList::new();
    list.push(task('A', &log));
    list.push(SequentialTask::update_animations(
        Recorder { name: 'B', log: log.clone() },
        None,
        UpdateAnimationsTasks { bits: CSS_TRANSITIONS },
    ));
    let taken = list.take_all();
    assert!(list.is_empty());
    assert_eq!(taken.len(), 2);
    for t in taken {
        t.execute();
    }
    assert_eq!(*log.borrow(), vec![('A', CSS_ANIMATIONS), ('B', CSS_TRANSITIONS)]);
}

#[test]
fn thread_local_context_starts_empty() {
    let sp: usize = 0x7fff_0000;
    let tl: ThreadLocalStyleContext<Recorder> = ThreadLocalStyleContext::new(sp);
    assert_eq!(tl.sharing_cache.len(), 0);
    assert_eq!(tl.rule_cache.len(), 0);
    assert_eq!(tl.bloom_filter.depth(), 0);
    assert!(tl.tasks.is_empty());
    assert_eq!(tl.statistics, PerThreadTraversalStatistics::default());
    assert!(!tl.stack_limit_checker.limit_exceeded(sp));
    assert!(tl.stack_limit_checker.limit_exceeded(sp - DEFAULT_STACK_BUDGET));
}

#[test]
fn thread_local_sharing_counts_hits() {
    let s = stylist();
    let ctx = shared(&s, StyleSystemOptions::default());
    let mut tl: ThreadLocalStyleContext<Recorder> = ThreadLocalStyleContext::new(0x7fff_0000);
    assert_eq!(tl.share_style(&ctx, key(1)), None);
    tl.sharing_cache.insert(key(1), cached(3, 30));
    assert_eq!(tl.share_style(&ctx, key(2)), None);
    assert_eq!(tl.share_style(&ctx, key(1)), Some(cached(3, 30)));
    assert_eq!(tl.reuse_style(&ctx, StrongRuleNode { id: 3 }), Some(cached(3, 30)));
    assert_eq!(tl.reuse_style(&ctx, StrongRuleNode { id: 4 }), None);
    assert_eq!(tl.statistics.styles_shared, 1);
    assert_eq!(tl.statistics.styles_reused, 1);
}

#[test]
fn thread_local_sharing_can_be_disabled() {
    let s = stylist();
    let options = StyleSystemOptions { disable_style_sharing_cache: true, ..StyleSystemOptions::default() };
    let ctx = shared(&s, options);
    let mut tl: ThreadLocalStyleContext<Recorder> = ThreadLocalStyleContext::new(0x7fff_0000);
    tl.sharing_cache.insert(key(1), cached(3, 30));
    assert_eq!(tl.share_style(&ctx, key(1)), None);
    assert_eq!(tl.reuse_style(&ctx, StrongRuleNode { id: 3 }), None);
    assert_eq!(tl.statistics.styles_shared, 0);
}

#[test]
fn finishing_a_worker_runs_its_tasks() {
    let log = Rc::new(RefCell::new(Vec::new()));
    let s = stylist();
    let ctx = shared(&s, StyleSystemOptions::default());
    let mut tl: ThreadLocalStyleContext<Recorder> = ThreadLocalStyleContext::new(0x7fff_0000);
    {
        let sc = StyleContext { shared: &ctx, thread_local: &mut tl };
        sc.thread_local.defer(task('A', &log));
        sc.thread_local.defer(task('B', &log));
        sc.thread_local.statistics.elements_traversed = 2;
        assert!(log.borrow().is_empty());
    }
    let stats = tl.finish();
    assert_eq!(stats.elements_traversed, 2);
    let names: Vec<char> = log.borrow().iter().map(|e| e.0).collect();
    assert_eq!(names, vec!['A', 'B']);
}

#[test]
fn shared_context_queries() {
    let s = stylist();
    let ctx = shared(&s, StyleSystemOptions::default());
    assert_eq!(ctx.viewport_size(), Size2D::new(Au(48000), Au(36000)));
    assert_eq!(ctx.quirks_mode(), QuirksMode::LimitedQuirks);
    assert_eq!(f32::from_bits(ctx.device_pixel_ratio_bits()), 2.0);
}

#[test]
fn default_options() {
    let o = StyleSystemOptions::default();
    assert!(!o.disable_style_sharing_cache);
    assert!(!o.dump_style_statistics);
    assert_eq!(o.style_statistics_threshold, DEFAULT_STATISTICS_THRESHOLD);
}

#[test]
fn options_from_environment_values() {
    let o = StyleSystemOptions::from_env_values(Some("1"), Some(""), None).unwrap();
    assert!(o.disable_style_sharing_cache);
    assert!(!o.dump_style_statistics);
    assert_eq!(o.style_statistics_threshold, 50);
    let o = StyleSystemOptions::from_env_values(None, Some("yes"), Some("1000")).unwrap();
    assert!(!o.disable_style_sharing_cache);
    assert!(o.dump_style_statistics);
    assert_eq!(o.style_statistics_threshold, 1000);
    assert_eq!(
        StyleSystemOptions::from_env_values(None, None, Some("ten")),
        Err(OptionsError::MalformedStatisticsThreshold)
    );
}

#[test]
fn env_flags() {
    assert!(env_flag(Some("0")));
    assert!(!env_flag(Some("")));
    assert!(!env_flag(None));
}

#[test]
fn parsing_thresholds() {
    assert_eq!(parse_usize("0"), Some(0));
    assert_eq!(parse_usize("50"), Some(50));
    assert_eq!(parse_usize("+12"), Some(12));
    assert_eq!(parse_usize("007"), Some(7));
    assert_eq!(parse_usize(""), None);
    assert_eq!(parse_usize("+"), None);
    assert_eq!(parse_usize("-1"), None);
    assert_eq!(parse_usize("1 "), None);
    assert_eq!(parse_usize("12a"), None);
    let max = usize::MAX.to_string();
    assert_eq!(parse_usize(&max), Some(usize::MAX));
    assert_eq!(parse_usize(&format!("{}0", max)), None);
    assert_eq!(parse_usize("18446744073709551616"), "18446744073709551616".parse::<usize>().ok());
}

#[test]
fn worker_filter_nests_with_descent() {
    let mut tl: ThreadLocalStyleContext<Recorder> = ThreadLocalStyleContext::new(0x7fff_0000);
    let path = [0x0012_3456u32, 0x0065_4321, 0x0000_0001, 0x00ab_cdef];
    for h in path {
        tl.bloom_filter.push(h);
        assert!(tl.bloom_filter.might_contain(h));
    }
    for h in path.iter().rev() {
        assert_eq!(tl.bloom_filter.pop(), Some(*h));
    }
    assert_eq!(tl.bloom_filter.depth(), 0);
    for h in path {
        assert!(!tl.bloom_filter.might_contain(h));
    }
}

#[test]
fn filter_saturated_counter_stays_set() {
    let mut f = StyleBloom::new();
    for _ in 0..300 {
        f.push(5);
    }
    assert!(f.might_contain(5));
    for _ in 0..300 {
        assert_eq!(f.pop(), Some(5));
    }
    assert_eq!(f.depth(), 0);
    assert!(f.might_contain(5));
    f.clear();
    assert!(!f.might_contain(5));
}

#[test]
fn filter_uses_both_hash_halves() {
    let mut f = StyleBloom::new();
    f.push(0x0000_1007);
    assert!(f.might_contain(0x0000_1007));
    assert!(!f.might_contain(0x0000_2007));
    assert!(!f.might_contain(0x0000_1008));
}
