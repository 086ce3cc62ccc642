//! The tab control: a row of tabs and the content of the selected one.

use vstd::prelude::*;
use crate::selection::{
    active_flags, click_item, initial_selection, selected_index, shown_item, spec_click_item,
    spec_initial_selection, spec_selected_index, spec_shown_item, ClickOutcome,
};

verus! {

/// What the tab control reads from its owner.
#[derive(PartialEq, Eq, Debug)]
pub struct CosmoTabControlProps {
    /// The label of each tab, in order.
    pub labels: Vec<String>,
    /// The selected index, when the owner controls it.
    pub selected_index: Option<usize>,
    /// Whether the owner listens for selections.
    pub has_on_select_item: bool,
}

/// What the tab control draws.
#[derive(PartialEq, Eq, Debug)]
pub struct CosmoTabControlView {
    /// For each tab, whether it carries the active style.
    pub active: Vec<bool>,
    /// The tab whose content is shown, if any.
    pub content: Option<usize>,
}

/// The remembered selection a tab control starts with.
pub fn tab_control_initial_state(props: &CosmoTabControlProps) -> (state: Option<usize>)
    ensures
        state == spec_initial_selection(props.labels@.len() as usize),
{
    initial_selection(props.labels.len())
}

/// Draws the tab control for the given remembered selection. Exactly the tab
/// at the selected index is active, and its content is shown; an index past
/// the last tab leaves every tab inactive and the content empty.
pub fn tab_control(props: &CosmoTabControlProps, state: Option<usize>) -> (view:
    CosmoTabControlView)
    ensures
        view.active@.len() == props.labels@.len(),
        forall|i: int|
            0 <= i < props.labels@.len() ==> view.active@[i] == (i == spec_selected_index(
                props.selected_index,
                state,
            )),
        view.content == spec_shown_item(
            spec_selected_index(props.selected_index, state),
            props.labels@.len() as usize,
        ),
{
    let selected_idx = selected_index(props.selected_index, state);
    let count = props.labels.len();
    CosmoTabControlView {
        active: active_flags(selected_idx, count),
        content: shown_item(selected_idx, count),
    }
}

/// A click on tab `idx`.
pub fn tab_control_click(props: &CosmoTabControlProps, idx: usize, state: Option<usize>) -> (outcome:
    ClickOutcome)
    ensures
        outcome == spec_click_item(idx, props.has_on_select_item, state),
{
    click_item(idx, props.has_on_select_item, state)
}

} // verus!
