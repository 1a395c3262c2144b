//! The context within which style is calculated: the structures shared by
//! every worker of a traversal pass, the ones each worker owns, and the
//! bookkeeping that ties them together.

pub mod bloom;
pub mod cascade;
pub mod context;
pub mod outside;
pub mod rule_cache;
pub mod sharing;
pub mod stack_limit;
pub mod statistics;
pub mod tasks;

pub use bloom::StyleBloom;
pub use cascade::{
    CascadeInputs, ComputedValueFlags, ComputedValues, EagerPseudoCascadeInputs, EagerPseudoStyles,
    ElementCascadeInputs, ElementData, ElementStyles, StrongRuleNode, EAGER_PSEUDO_COUNT,
};
pub use context::{
    OptionsError, SharedStyleContext, StyleContext, StyleSystemOptions, Stylist,
    ThreadLocalStyleContext, TraversalFlags,
};
pub use rule_cache::RuleCache;
pub use selectors::context::QuirksMode;
pub use sharing::{CachedStyle, SharingKey, StyleSharingCache};
pub use stack_limit::StackLimitChecker;
pub use statistics::{PerThreadTraversalStatistics, TraversalStatistics};
pub use tasks::{SequentialTask, SequentialTaskList, TElement, UpdateAnimationsTasks};
