//! Snapshots of what the cascade consumed for an element: which rule chains
//! matched, for the element and for each of its eager pseudo-elements.

use vstd::prelude::*;

verus! {

/// The number of eagerly-cascaded pseudo-element kinds (before, after,
/// first-line, first-letter).
pub const EAGER_PSEUDO_COUNT: usize = 4;

/// A handle on a node of the rule tree: the ordered chain of rules matched for
/// an element. Two handles are equal when they name the same node.
#[derive(Clone, Copy, Debug, PartialEq, Eq, Structural)]
pub struct StrongRuleNode {
    pub id: u64,
}

/// Flags computed alongside a style, as a bit set.
#[derive(Clone, Copy, Debug, PartialEq, Eq, Structural)]
pub struct ComputedValueFlags {
    pub bits: u32,
}

/// The flags that later invalidation needs: those set by container queries
/// and by dependencies on the viewport or on font metrics.
pub const CASCADE_INPUT_FLAGS: u32 = 0x0000_0f00;

impl ComputedValueFlags {
    /// The subset of these flags that cascade inputs keep.
    pub fn for_cascade_inputs(self) -> (r: ComputedValueFlags)
        ensures
            r.bits == self.bits & CASCADE_INPUT_FLAGS,
    {
        ComputedValueFlags { bits: self.bits & CASCADE_INPUT_FLAGS }
    }
}

/// A resolved style, as far as snapshots look into it: the rules it was
/// computed from, the style computed for the visited link state if there is
/// one, and its flags.
#[derive(Debug)]
pub struct ComputedValues {
    pub rules: Option<StrongRuleNode>,
    pub visited_style: Option<Box<ComputedValues>>,
    pub flags: ComputedValueFlags,
}

impl ComputedValues {
    /// The style for the visited link state, if any.
    pub fn visited_style(&self) -> (r: Option<&ComputedValues>)
        ensures
            r == match self.visited_style {
                Some(v) => Some(&*v),
                None => None::<&ComputedValues>,
            },
    {
        match &self.visited_style {
            Some(v) => Some(&**v),
            None => None,
        }
    }
}

/// The styles of an element's eager pseudo-elements: no array at all when
/// none of them applies, else one optional style per kind.
#[derive(Debug)]
pub struct EagerPseudoStyles(pub Option<Box<[Option<Box<ComputedValues>>; EAGER_PSEUDO_COUNT]>>);

impl EagerPseudoStyles {
    /// The per-kind styles, if any pseudo-element applies.
    pub fn as_optional_array(&self) -> (r: Option<&[Option<Box<ComputedValues>>; EAGER_PSEUDO_COUNT]>)
        ensures
            r == match self.0 {
                Some(a) => Some(&*a),
                None => None::<&[Option<Box<ComputedValues>>; EAGER_PSEUDO_COUNT]>,
            },
    {
        match &self.0 {
            Some(a) => Some(&**a),
            None => None,
        }
    }
}

/// The styles computed for an element: its own, once it has one, and those
/// of its eager pseudo-elements.
#[derive(Debug)]
pub struct ElementStyles {
    pub primary: Option<Box<ComputedValues>>,
    pub pseudos: EagerPseudoStyles,
}

impl ElementStyles {
    /// The element's own style; it must have been computed.
    pub fn primary(&self) -> (r: &ComputedValues)
        requires
            self.primary is Some,
        ensures
            *r == *self.primary->0,
    {
        match &self.primary {
            Some(p) => &**p,
            None => {
                proof {
                    assert(false);
                }
                unreached()
            },
        }
    }
}

/// The style data stored on an element.
#[derive(Debug)]
pub struct ElementData {
    pub styles: ElementStyles,
}

impl ElementData {
    /// Whether the element has been styled at least once.
    pub fn has_styles(&self) -> (r: bool)
        ensures
            r == self.styles.primary is Some,
    {
        self.styles.primary.is_some()
    }
}

/// The intermediate inputs that the cascade uses for one element or
/// pseudo-element.
#[derive(Clone, Copy, Debug, PartialEq, Eq, Structural)]
pub struct CascadeInputs {
    /// The rule node for the rules matched by this node.
    pub rules: Option<StrongRuleNode>,
    /// The rule node for the rules matched by this node if visited; only
    /// present where there is a relevant link.
    pub visited_rules: Option<StrongRuleNode>,
    /// The flags that later invalidation needs.
    pub flags: ComputedValueFlags,
}

/// The cascade inputs that a resolved style holds.
pub open spec fn inputs_of(style: ComputedValues) -> CascadeInputs {
    CascadeInputs {
        rules: style.rules,
        visited_rules: match style.visited_style {
            Some(v) => v.rules,
            None => None,
        },
        flags: ComputedValueFlags { bits: style.flags.bits & CASCADE_INPUT_FLAGS },
    }
}

impl CascadeInputs {
    /// Constructs inputs from a previous cascade result.
    pub fn new_from_style(style: &ComputedValues) -> (r: Self)
        ensures
            r == inputs_of(*style),
    {
        let visited_rules = match style.visited_style() {
            Some(v) => v.rules,
            None => None,
        };
        CascadeInputs { rules: style.rules, visited_rules, flags: style.flags.for_cascade_inputs() }
    }
}

/// The optional inputs for one pseudo-element slot.
pub open spec fn slot_inputs_of(style: Option<Box<ComputedValues>>) -> Option<CascadeInputs> {
    match style {
        Some(s) => Some(inputs_of(*s)),
        None => None,
    }
}

/// `inputs` are those of the pseudo-element styles `styles`: absent when no
/// pseudo-element applies, else the inputs of each present slot.
pub open spec fn pseudo_inputs_taken(styles: EagerPseudoStyles, inputs: EagerPseudoCascadeInputs) -> bool {
    match styles.0 {
        None => inputs.0 is None,
        Some(a) => inputs.0 is Some && forall|i: int|
            0 <= i < EAGER_PSEUDO_COUNT ==> #[trigger] inputs.0->0@[i] == slot_inputs_of(a@[i]),
    }
}

/// A list of cascade inputs for eagerly-cascaded pseudo-elements, stored
/// inline.
#[derive(Debug)]
pub struct EagerPseudoCascadeInputs(pub Option<[Option<CascadeInputs>; EAGER_PSEUDO_COUNT]>);

impl Clone for EagerPseudoCascadeInputs {
    fn clone(&self) -> (r: Self)
        ensures
            r == *self,
    {
        if self.0.is_none() {
            return EagerPseudoCascadeInputs(None);
        }
        let self_inputs: &[Option<CascadeInputs>; EAGER_PSEUDO_COUNT] = self.0.as_ref().unwrap();
        let mut inputs: [Option<CascadeInputs>; EAGER_PSEUDO_COUNT] = [None, None, None, None];
        for i in 0..EAGER_PSEUDO_COUNT
            invariant
                self.0 == Some(*self_inputs),
                forall|j: int| 0 <= j < i ==> inputs@[j] == self_inputs@[j],
        {
            inputs[i] = self_inputs[i];
        }
        assert(inputs =~= *self_inputs);
        EagerPseudoCascadeInputs(Some(inputs))
    }
}

impl EagerPseudoCascadeInputs {
    /// Constructs inputs from the pseudo-element styles of a previous
    /// cascade result: absent when no pseudo-element applies, else the
    /// inputs of each present slot.
    pub fn new_from_style(styles: &EagerPseudoStyles) -> (r: Self)
        ensures
            pseudo_inputs_taken(*styles, r),
    {
        match styles.as_optional_array() {
            None => EagerPseudoCascadeInputs(None),
            Some(styles) => {
                let mut inputs: [Option<CascadeInputs>; EAGER_PSEUDO_COUNT] = [None, None, None, None];
                for i in 0..EAGER_PSEUDO_COUNT
                    invariant
                        forall|j: int| 0 <= j < i ==> inputs@[j] == slot_inputs_of(styles@[j]),
                {
                    let slot = match &styles[i] {
                        Some(s) => Some(CascadeInputs::new_from_style(&**s)),
                        None => None,
                    };
                    inputs[i] = slot;
                }
                EagerPseudoCascadeInputs(Some(inputs))
            },
        }
    }

    /// Returns the list of inputs, if there is one.
    pub fn into_array(self) -> (r: Option<[Option<CascadeInputs>; EAGER_PSEUDO_COUNT]>)
        ensures
            r == self.0,
    {
        self.0
    }
}

/// The cascade inputs associated with an element, including those of its
/// pseudo-elements.
#[derive(Clone, Debug)]
pub struct ElementCascadeInputs {
    /// The element's own cascade inputs.
    pub primary: CascadeInputs,
    /// The inputs of the element's eagerly-cascaded pseudo-elements.
    pub pseudos: EagerPseudoCascadeInputs,
}

impl ElementCascadeInputs {
    /// Constructs inputs from the style data of an element that has been
    /// styled.
    pub fn new_from_element_data(data: &ElementData) -> (r: Self)
        requires
            data.styles.primary is Some,
        ensures
            r.primary == inputs_of(*data.styles.primary->0),
            pseudo_inputs_taken(data.styles.pseudos, r.pseudos),
    {
        ElementCascadeInputs {
            primary: CascadeInputs::new_from_style(data.styles.primary()),
            pseudos: EagerPseudoCascadeInputs::new_from_style(&data.styles.pseudos),
        }
    }
}

/// Taking the inputs of pseudo-element styles and then cloning them keeps
/// which slots are present, and in each present slot the very rule nodes of
/// the style it was taken from.
pub proof fn lemma_pseudo_snapshot_round_trip(
    styles: EagerPseudoStyles,
    inputs: EagerPseudoCascadeInputs,
    copy: EagerPseudoCascadeInputs,
)
    requires
        pseudo_inputs_taken(styles, inputs),
        copy == inputs,
    ensures
        (copy.0 is Some) == (styles.0 is Some),
        styles.0 is Some ==> forall|i: int|
            0 <= i < EAGER_PSEUDO_COUNT ==> {
                let slot = #[trigger] styles.0->0@[i];
                &&& (copy.0->0@[i] is Some) == (slot is Some)
                &&& slot is Some ==> copy.0->0@[i]->0.rules == slot->0.rules
            },
{
}

} // verus!
