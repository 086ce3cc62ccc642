//! Progress indicators.

use vstd::prelude::*;

verus! {

/// What a progress bar reads from its owner.
#[derive(PartialEq, Eq, Structural, Clone, Copy, Debug)]
pub struct CosmoProgressBarProps {
    pub is_indeterminate: bool,
    pub value: usize,
    pub max: usize,
}

impl Default for CosmoProgressBarProps {
    fn default() -> (props: Self)
        ensures
            props == (CosmoProgressBarProps { is_indeterminate: false, value: 0, max: 100 }),
    {
        CosmoProgressBarProps { is_indeterminate: false, value: 0, max: 100 }
    }
}

/// The `value` and `max` attributes of a progress bar: both for a bar that
/// knows its progress, neither for an indeterminate one.
pub fn progress_bar(props: &CosmoProgressBarProps) -> (attributes: Option<(usize, usize)>)
    ensures
        attributes == if props.is_indeterminate {
            None
        } else {
            Some((props.value, props.max))
        },
{
    if !props.is_indeterminate {
        Some((props.value, props.max))
    } else {
        None
    }
}

/// The number of dots a progress ring is drawn with.
pub const PROGRESS_RING_DOTS: usize = 6;

/// The positions of the dots of a progress ring: `0` up to, not including,
/// the number of dots.
pub fn progress_ring() -> (dots: Vec<usize>)
    ensures
        dots@.len() == PROGRESS_RING_DOTS,
        forall|i: int| 0 <= i < dots@.len() ==> dots@[i] == i,
{
    let mut dots: Vec<usize> = Vec::new();
    let mut dot: usize = 0;
    while dot < PROGRESS_RING_DOTS
        invariant
            dot <= PROGRESS_RING_DOTS,
            dots@.len() == dot,
            forall|i: int| 0 <= i < dots@.len() ==> dots@[i] == i,
        decreases PROGRESS_RING_DOTS - dot,
    {
        dots.push(dot);
        dot = dot + 1;
    }
    dots
}

} // verus!
