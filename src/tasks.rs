//! Work that is not safe to do on a worker thread, deferred until the pass is
//! over and then run, in the order it was queued, on the thread that drives
//! the pass.

use crate::cascade::ComputedValues;
use std::sync::Arc;
use vstd::prelude::*;

verus! {

/// Which kinds of animation work an animation update performs, as a bit set.
#[derive(Clone, Copy, Debug, PartialEq, Eq, Structural)]
pub struct UpdateAnimationsTasks {
    pub bits: u8,
}

/// Update CSS animations.
pub const CSS_ANIMATIONS: u8 = 1;
/// Update CSS transitions.
pub const CSS_TRANSITIONS: u8 = 2;
/// Update effect properties.
pub const EFFECT_PROPERTIES: u8 = 4;
/// Update the cascade results of animations running on the compositor.
pub const CASCADE_RESULTS: u8 = 8;
/// The display property changed from none.
pub const DISPLAY_CHANGED_FROM_NONE: u8 = 16;
/// Update named scroll progress timelines.
pub const SCROLL_TIMELINES: u8 = 32;
/// Update named view progress timelines.
pub const VIEW_TIMELINES: u8 = 64;

/// What the style system needs of the elements of the tree it styles.
pub trait TElement: Sized {
    /// Updates the animation state of this element, performing `tasks`;
    /// `before_change_style` is the style before the change, which
    /// transitions start from.
    fn update_animations(
        &self,
        before_change_style: Option<Arc<ComputedValues>>,
        tasks: UpdateAnimationsTasks,
    )
    ;
}

/// A task to be run on the thread that drives the pass, once no worker is
/// active.
pub enum SequentialTask<E: TElement> {
    /// Updates animation-related state on an element.
    UpdateAnimations {
        /// The target element or pseudo-element.
        el: E,
        /// The style before the change, the initial value of transitions.
        before_change_style: Option<Arc<ComputedValues>>,
        /// Which updates to perform.
        tasks: UpdateAnimationsTasks,
    },
}

impl<E: TElement> SequentialTask<E> {
    /// Runs the queued work: performs the animation update it holds.
    pub fn execute(self) {
        match self {
            SequentialTask::UpdateAnimations { el, before_change_style, tasks } => {
                el.update_animations(before_change_style, tasks);
            },
        }
    }

    /// Creates a task that updates animation-related state on an element.
    pub fn update_animations(
        el: E,
        before_change_style: Option<Arc<ComputedValues>>,
        tasks: UpdateAnimationsTasks,
    ) -> (r: Self)
        ensures
            r == (SequentialTask::UpdateAnimations { el, before_change_style, tasks }),
    {
        SequentialTask::UpdateAnimations { el, before_change_style, tasks }
    }
}

/// A queue of tasks, executed in the order they were queued once the pass is
/// over, by `run_all` on the thread that drives the pass. Dropping a queue
/// that still holds tasks loses them: drain it with `run_all`, or use
/// `with_deferred_tasks`.
#[must_use]
pub struct SequentialTaskList<E: TElement>(Vec<SequentialTask<E>>);

impl<E: TElement> View for SequentialTaskList<E> {
    type V = Seq<SequentialTask<E>>;

    closed spec fn view(&self) -> Seq<SequentialTask<E>> {
        self.0@
    }
}

impl<E: TElement> SequentialTaskList<E> {
    /// An empty queue.
    pub fn new() -> (r: Self)
        ensures
            r@ == Seq::<SequentialTask<E>>::empty(),
    {
        SequentialTaskList(Vec::new())
    }

    /// Appends a task at the end of the queue.
    pub fn push(&mut self, task: SequentialTask<E>)
        ensures
            final(self)@ == old(self)@.push(task),
    {
        self.0.push(task);
    }

    /// The number of queued tasks.
    pub fn len(&self) -> (r: usize)
        ensures
            r == self@.len(),
    {
        self.0.len()
    }

    /// Whether no task is queued.
    pub fn is_empty(&self) -> (r: bool)
        ensures
            r == (self@.len() == 0),
    {
        self.0.len() == 0
    }

    /// Takes every queued task out, in the order they were queued, and leaves
    /// the queue empty.
    pub fn take_all(&mut self) -> (r: Vec<SequentialTask<E>>)
        ensures
            r@ == old(self)@,
            final(self)@ == Seq::<SequentialTask<E>>::empty(),
    {
        let mut taken: Vec<SequentialTask<E>> = Vec::new();
        std::mem::swap(&mut taken, &mut self.0);
        taken
    }

    /// Executes every queued task once, in the order they were queued, and
    /// leaves the queue empty. Tasks queued while this runs are not run by it.
    pub fn run_all(&mut self)
        ensures
            final(self)@ == Seq::<SequentialTask<E>>::empty(),
    {
        let tasks = self.take_all();
        for task in tasks {
            task.execute();
        }
    }
}

/// Runs `body` with a fresh queue and then executes whatever `body` queued,
/// in order, whichever way `body` returned.
pub fn with_deferred_tasks<E: TElement, R, F: FnOnce(&mut SequentialTaskList<E>) -> R>(body: F) -> (r: R)
    requires
        forall|q: &mut SequentialTaskList<E>| q@.len() == 0 ==> body.requires((q,)),
    ensures
        exists|q: &mut SequentialTaskList<E>| q@.len() == 0 && body.ensures((q,), r),
{
    let mut tasks = SequentialTaskList::new();
    let r = body(&mut tasks);
    tasks.run_all();
    r
}

} // verus!
