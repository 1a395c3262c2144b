//! A guard against running out of native stack during deep recursion.
//!
//! The checker assumes that stacks grow toward lower addresses. The caller
//! measures the approximate stack address and hands it in; the checker only
//! decides.

use vstd::prelude::*;

verus! {

/// Size of the stack of a style worker thread, in KiB.
pub const STYLE_THREAD_STACK_SIZE_KB: usize = 512;

/// Stack space that is kept free below the soft limit, in KiB.
pub const STACK_SAFETY_MARGIN_KB: usize = 168;

/// The budget handed to a fresh checker by default: the thread's stack minus
/// the safety margin, in bytes.
pub const DEFAULT_STACK_BUDGET: usize = (STYLE_THREAD_STACK_SIZE_KB - STACK_SAFETY_MARGIN_KB) * 1024;

/// A helper type for stack limit checking. It records the lowest stack
/// address that recursion may reach.
pub struct StackLimitChecker {
    lower_limit: usize,
}

impl StackLimitChecker {
    /// The lowest stack address that recursion may reach.
    pub closed spec fn limit(&self) -> int {
        self.lower_limit as int
    }

    /// Creates a limit checker that allows further use of up to
    /// `stack_size_limit` bytes below `current_sp`, the approximate current
    /// stack address of the calling thread.
    pub fn new(current_sp: usize, stack_size_limit: usize) -> (r: Self)
        requires
            stack_size_limit <= current_sp,
        ensures
            r.limit() == current_sp - stack_size_limit,
    {
        StackLimitChecker { lower_limit: current_sp - stack_size_limit }
    }

    /// Whether the stack, now at `current_sp`, has reached the recorded
    /// limit.
    pub fn limit_exceeded(&self, current_sp: usize) -> (r: bool)
        ensures
            r == (current_sp <= self.limit()),
    {
        current_sp <= self.lower_limit
    }

    /// The diagnostic check on a measurement: the stack bottom, a safety
    /// margin below the limit, lies below `current_sp`, and no further from
    /// it than a thread's stack size plus some slack. It never changes what
    /// `limit_exceeded` decides.
    pub fn is_consistent(&self, current_sp: usize) -> (r: bool)
        ensures
            r == (self.limit() - STACK_SAFETY_MARGIN_KB * 1024 < current_sp
                && current_sp - (self.limit() - STACK_SAFETY_MARGIN_KB * 1024)
                <= (STYLE_THREAD_STACK_SIZE_KB + 10) * 1024),
    {
        let margin: usize = STACK_SAFETY_MARGIN_KB * 1024;
        let slack: usize = (STYLE_THREAD_STACK_SIZE_KB + 10) * 1024;
        if self.lower_limit < margin {
            // The stack bottom would lie below address zero.
            let below: usize = margin - self.lower_limit;
            current_sp <= slack && below <= slack - current_sp
        } else {
            let stack_bottom: usize = self.lower_limit - margin;
            stack_bottom < current_sp && current_sp - stack_bottom <= slack
        }
    }
}

/// A guard checked right after it is made reports no overflow, provided the
/// budget is not zero; once the stack has grown by at least the budget, it
/// reports one.
pub proof fn lemma_guard_monotonic(g: StackLimitChecker, sp: usize, budget: usize, later_sp: usize)
    requires
        0 < budget <= sp,
        g.limit() == sp - budget,
        later_sp <= sp - budget,
    ensures
        !(sp <= g.limit()),
        later_sp <= g.limit(),
{
}

} // verus!
