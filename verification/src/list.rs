//! The side list: a column of items on the left and the content of the
//! selected one on the right.

use vstd::prelude::*;
use crate::selection::{
    active_flags, click_item, initial_selection, selected_index, shown_item, spec_click_item,
    spec_initial_selection, spec_selected_index, spec_shown_item, ClickOutcome,
};

verus! {

/// What the side list reads from its owner.
#[derive(PartialEq, Eq, Debug)]
pub struct CosmoSideListProps {
    /// The label of each item, in order.
    pub labels: Vec<String>,
    /// The selected index, when the owner controls it.
    pub selected_index: Option<usize>,
    /// Whether the owner listens for selections.
    pub has_on_select_item: bool,
}

/// What the side list draws.
#[derive(PartialEq, Eq, Debug)]
pub struct CosmoSideListView {
    /// For each item, whether it carries the active style.
    pub active: Vec<bool>,
    /// The item whose content fills the right side, if any.
    pub content: Option<usize>,
}

/// The remembered selection a side list starts with.
pub fn side_list_initial_state(props: &CosmoSideListProps) -> (state: Option<usize>)
    ensures
        state == spec_initial_selection(props.labels@.len() as usize),
{
    initial_selection(props.labels.len())
}

/// Draws the side list for the given remembered selection. Exactly the item
/// at the selected index is active, and its content is shown; an index past
/// the last item leaves every item inactive and the content empty.
pub fn side_list(props: &CosmoSideListProps, state: Option<usize>) -> (view: CosmoSideListView)
    ensures
        view.active@.len() == props.labels@.len(),
        forall|i: int|
            0 <= i < props.labels@.len() ==> view.active@[i] == (i == spec_selected_index(
                props.selected_index,
                state,
            )),
        view.content == spec_shown_item(
            spec_selected_index(props.selected_index, state),
            props.labels@.len() as usize,
        ),
{
    let selected_idx = selected_index(props.selected_index, state);
    let count = props.labels.len();
    CosmoSideListView {
        active: active_flags(selected_idx, count),
        content: shown_item(selected_idx, count),
    }
}

/// A click on item `idx` of the side list.
pub fn side_list_click(props: &CosmoSideListProps, idx: usize, state: Option<usize>) -> (outcome:
    ClickOutcome)
    ensures
        outcome == spec_click_item(idx, props.has_on_select_item, state),
{
    click_item(idx, props.has_on_select_item, state)
}

} // verus!
