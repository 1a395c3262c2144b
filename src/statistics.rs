//! Counters gathered by each worker during a pass, their sum over all
//! workers, and the report rendered from it.

use crate::context::SharedStyleContext;
use core::time::Duration;
use vstd::prelude::*;
use vstd::string::*;

verus! {

/// Statistics gathered by one worker during the traversal. The workers'
/// statistics are summed field by field once the workers are done.
#[derive(Clone, Copy, Debug, Default, PartialEq, Eq, Structural)]
pub struct PerThreadTraversalStatistics {
    /// The number of elements traversed.
    pub elements_traversed: u32,
    /// The number of elements that were styled for the first time.
    pub elements_styled: u32,
    /// The number of elements for which selectors were matched.
    pub elements_matched: u32,
    /// The number of hits in the style sharing cache.
    pub styles_shared: u32,
    /// The number of styles reused by comparing rule nodes.
    pub styles_reused: u32,
}

/// The field-wise sum of two sets of counters fits in the counters.
pub open spec fn can_merge(a: PerThreadTraversalStatistics, b: PerThreadTraversalStatistics) -> bool {
    &&& a.elements_traversed + b.elements_traversed <= u32::MAX
    &&& a.elements_styled + b.elements_styled <= u32::MAX
    &&& a.elements_matched + b.elements_matched <= u32::MAX
    &&& a.styles_shared + b.styles_shared <= u32::MAX
    &&& a.styles_reused + b.styles_reused <= u32::MAX
}

/// The field-wise sum of two sets of counters.
pub open spec fn merged(
    a: PerThreadTraversalStatistics,
    b: PerThreadTraversalStatistics,
) -> PerThreadTraversalStatistics {
    PerThreadTraversalStatistics {
        elements_traversed: (a.elements_traversed + b.elements_traversed) as u32,
        elements_styled: (a.elements_styled + b.elements_styled) as u32,
        elements_matched: (a.elements_matched + b.elements_matched) as u32,
        styles_shared: (a.styles_shared + b.styles_shared) as u32,
        styles_reused: (a.styles_reused + b.styles_reused) as u32,
    }
}

impl PerThreadTraversalStatistics {
    /// All counters at zero.
    pub open spec fn spec_zero() -> Self {
        PerThreadTraversalStatistics {
            elements_traversed: 0,
            elements_styled: 0,
            elements_matched: 0,
            styles_shared: 0,
            styles_reused: 0,
        }
    }

    /// All counters at zero.
    pub fn new() -> (r: Self)
        ensures
            r == Self::spec_zero(),
    {
        PerThreadTraversalStatistics {
            elements_traversed: 0,
            elements_styled: 0,
            elements_matched: 0,
            styles_shared: 0,
            styles_reused: 0,
        }
    }

    /// Adds the counters of `other` to these, field by field.
    pub fn add_assign(&mut self, other: &PerThreadTraversalStatistics)
        requires
            can_merge(*old(self), *other),
        ensures
            *final(self) == merged(*old(self), *other),
    {
        self.elements_traversed = self.elements_traversed + other.elements_traversed;
        self.elements_styled = self.elements_styled + other.elements_styled;
        self.elements_matched = self.elements_matched + other.elements_matched;
        self.styles_shared = self.styles_shared + other.styles_shared;
        self.styles_reused = self.styles_reused + other.styles_reused;
    }
}

/// Merging the counters of three workers gives the same sum in every order.
pub proof fn lemma_merge_order_irrelevant(
    t1: PerThreadTraversalStatistics,
    t2: PerThreadTraversalStatistics,
    t3: PerThreadTraversalStatistics,
)
    requires
        can_merge(t1, t2),
        can_merge(merged(t1, t2), t3),
    ensures
        can_merge(t1, t3) && can_merge(merged(t1, t3), t2),
        can_merge(t2, t1) && can_merge(merged(t2, t1), t3),
        can_merge(t2, t3) && can_merge(merged(t2, t3), t1),
        can_merge(t3, t1) && can_merge(merged(t3, t1), t2),
        can_merge(t3, t2) && can_merge(merged(t3, t2), t1),
        merged(merged(t1, t2), t3) == merged(merged(t1, t3), t2),
        merged(merged(t1, t2), t3) == merged(merged(t2, t1), t3),
        merged(merged(t1, t2), t3) == merged(merged(t2, t3), t1),
        merged(merged(t1, t2), t3) == merged(merged(t3, t1), t2),
        merged(merged(t1, t2), t3) == merged(merged(t3, t2), t1),
{
}

/// Statistics gathered during the traversal, together with facts about the
/// pass taken from the style rule index.
pub struct TraversalStatistics {
    /// The sum of all workers' statistics.
    pub aggregated: PerThreadTraversalStatistics,
    /// The number of selectors in the stylist.
    pub selectors: u32,
    /// The number of revalidation selectors.
    pub revalidation_selectors: u32,
    /// The number of state and attribute dependencies.
    pub dependency_selectors: u32,
    /// The number of declarations in the stylist.
    pub declarations: u32,
    /// The number of times the stylist was rebuilt.
    pub stylist_rebuilds: u32,
    /// Time spent in the traversal.
    pub traversal_time: Duration,
    /// Whether this was a parallel traversal.
    pub is_parallel: bool,
    /// Whether this was a large traversal.
    pub is_large: bool,
}

impl TraversalStatistics {
    /// Completes the statistics of a pass: the summed counters, the counts of
    /// the shared context's stylist, the time the pass took, and whether the
    /// pass was large by the shared context's threshold.
    pub fn new(
        aggregated: PerThreadTraversalStatistics,
        shared: &SharedStyleContext,
        parallel: bool,
        traversal_time: Duration,
    ) -> (r: TraversalStatistics)
        ensures
            r.aggregated == aggregated,
            r.selectors == shared.stylist.num_selectors as u32,
            r.revalidation_selectors == shared.stylist.num_revalidation_selectors as u32,
            r.dependency_selectors == shared.stylist.num_invalidations as u32,
            r.declarations == shared.stylist.num_declarations as u32,
            r.stylist_rebuilds == shared.stylist.num_rebuilds as u32,
            r.traversal_time == traversal_time,
            r.is_parallel == parallel,
            r.is_large == (aggregated.elements_traversed >= shared.options.style_statistics_threshold),
    {
        let threshold = shared.options.style_statistics_threshold;
        let stylist = shared.stylist;
        let is_large = aggregated.elements_traversed as usize >= threshold;
        TraversalStatistics {
            aggregated,
            selectors: stylist.num_selectors as u32,
            revalidation_selectors: stylist.num_revalidation_selectors as u32,
            dependency_selectors: stylist.num_invalidations as u32,
            declarations: stylist.num_declarations as u32,
            stylist_rebuilds: stylist.num_rebuilds as u32,
            traversal_time,
            is_parallel: parallel,
            is_large,
        }
    }
}

/// The decimal digits of `n`, most significant first, without leading
/// zeros.
pub open spec fn decimal_digits(n: nat) -> Seq<char>
    decreases n,
{
    let digit = seq!['0', '1', '2', '3', '4', '5', '6', '7', '8', '9'][(n % 10) as int];
    if n < 10 {
        seq![digit]
    } else {
        decimal_digits(n / 10).push(digit)
    }
}

/// The text of one decimal digit.
fn digit_text(d: u32) -> (r: &'static str)
    requires
        d < 10,
    ensures
        r@ == seq![seq!['0', '1', '2', '3', '4', '5', '6', '7', '8', '9'][d as int]],
{
    proof {
        reveal_strlit("0");
        reveal_strlit("1");
        reveal_strlit("2");
        reveal_strlit("3");
        reveal_strlit("4");
        reveal_strlit("5");
        reveal_strlit("6");
        reveal_strlit("7");
        reveal_strlit("8");
        reveal_strlit("9");
    }
    match d {
        0 => "0",
        1 => "1",
        2 => "2",
        3 => "3",
        4 => "4",
        5 => "5",
        6 => "6",
        7 => "7",
        8 => "8",
        _ => "9",
    }
}

/// `n` written in decimal.
fn decimal(n: u32) -> (r: String)
    ensures
        r@ == decimal_digits(n as nat),
    decreases n,
{
    if n < 10 {
        let r = String::from_str(digit_text(n));
        proof {
            assert(r@ =~= decimal_digits(n as nat));
        }
        r
    } else {
        let mut r = decimal(n / 10);
        r.append(digit_text(n % 10));
        proof {
            assert(r@ =~= decimal_digits(n as nat));
        }
        r
    }
}

/// One metric line of the report.
pub open spec fn metric_line(key: Seq<char>, value: Seq<char>) -> Seq<char> {
    "[PERF],"@ + key + ","@ + value + "\n"@
}

/// The report of `s`, given the traversal time in milliseconds as text: a
/// start marker, one `key,value` line per metric in a fixed order, and an
/// end marker.
pub open spec fn report_text(s: TraversalStatistics, time_ms: Seq<char>) -> Seq<char> {
    "[PERF] perf block start\n"@
        + metric_line("traversal"@, if s.is_parallel { "parallel"@ } else { "sequential"@ })
        + metric_line("elements_traversed"@, decimal_digits(s.aggregated.elements_traversed as nat))
        + metric_line("elements_styled"@, decimal_digits(s.aggregated.elements_styled as nat))
        + metric_line("elements_matched"@, decimal_digits(s.aggregated.elements_matched as nat))
        + metric_line("styles_shared"@, decimal_digits(s.aggregated.styles_shared as nat))
        + metric_line("styles_reused"@, decimal_digits(s.aggregated.styles_reused as nat))
        + metric_line("selectors"@, decimal_digits(s.selectors as nat))
        + metric_line("revalidation_selectors"@, decimal_digits(s.revalidation_selectors as nat))
        + metric_line("dependency_selectors"@, decimal_digits(s.dependency_selectors as nat))
        + metric_line("declarations"@, decimal_digits(s.declarations as nat))
        + metric_line("stylist_rebuilds"@, decimal_digits(s.stylist_rebuilds as nat))
        + metric_line("traversal_time_ms"@, time_ms)
        + "[PERF] perf block end\n"@
}

/// Appends one metric line to `out`.
fn push_metric(out: &mut String, key: &str, value: &str)
    ensures
        final(out)@ == old(out)@ + metric_line(key@, value@),
{
    out.append("[PERF],");
    out.append(key);
    out.append(",");
    out.append(value);
    out.append("\n");
    proof {
        assert(final(out)@ =~= old(out)@ + metric_line(key@, value@));
    }
}

impl TraversalStatistics {
    /// Renders the statistics in the line format that performance tooling
    /// reads. The traversal time is handed in already written out in
    /// milliseconds.
    pub fn perf_report(&self, traversal_time_ms: &str) -> (r: String)
        ensures
            r@ == report_text(*self, traversal_time_ms@),
    {
        let mut out = String::from_str("[PERF] perf block start\n");
        push_metric(&mut out, "traversal", if self.is_parallel { "parallel" } else { "sequential" });
        push_metric(&mut out, "elements_traversed", decimal(self.aggregated.elements_traversed).as_str());
        push_metric(&mut out, "elements_styled", decimal(self.aggregated.elements_styled).as_str());
        push_metric(&mut out, "elements_matched", decimal(self.aggregated.elements_matched).as_str());
        push_metric(&mut out, "styles_shared", decimal(self.aggregated.styles_shared).as_str());
        push_metric(&mut out, "styles_reused", decimal(self.aggregated.styles_reused).as_str());
        push_metric(&mut out, "selectors", decimal(self.selectors).as_str());
        push_metric(&mut out, "revalidation_selectors", decimal(self.revalidation_selectors).as_str());
        push_metric(&mut out, "dependency_selectors", decimal(self.dependency_selectors).as_str());
        push_metric(&mut out, "declarations", decimal(self.declarations).as_str());
        push_metric(&mut out, "stylist_rebuilds", decimal(self.stylist_rebuilds).as_str());
        push_metric(&mut out, "traversal_time_ms", traversal_time_ms);
        out.append("[PERF] perf block end\n");
        out
    }
}

} // verus!
