//! Single selection among the items of a list: the rule that the side list
//! and the tab control share.
//!
//! A control is *controlled* when its owner passes the selected index in, and
//! *uncontrolled* when it keeps the index itself. An owner that listens for
//! selections is told of a click; otherwise the control remembers the click.

use vstd::prelude::*;

verus! {

/// The selection an uncontrolled control starts with: the first item, or
/// nothing when there is no item.
pub open spec fn spec_initial_selection(item_count: usize) -> Option<usize> {
    if item_count > 0 {
        Some(0usize)
    } else {
        None
    }
}

/// The selection an uncontrolled control starts with.
pub fn initial_selection(item_count: usize) -> (state: Option<usize>)
    ensures
        state == spec_initial_selection(item_count),
{
    if item_count != 0 {
        Some(0)
    } else {
        None
    }
}

/// The index that counts as selected: the owner's, if it passed one; else
/// the remembered one; else 0.
pub open spec fn spec_selected_index(controlled: Option<usize>, state: Option<usize>) -> usize {
    match controlled {
        Some(idx) => idx,
        None => match state {
            Some(idx) => idx,
            None => 0usize,
        },
    }
}

/// The index that counts as selected.
pub fn selected_index(controlled: Option<usize>, state: Option<usize>) -> (idx: usize)
    ensures
        idx == spec_selected_index(controlled, state),
{
    if let Some(selected_idx) = controlled {
        selected_idx
    } else {
        match state {
            Some(idx) => idx,
            None => 0,
        }
    }
}

/// The item whose content is shown: the selected one if there is such an
/// item, nothing if the index points past the last item.
pub open spec fn spec_shown_item(selected_idx: usize, item_count: usize) -> Option<usize> {
    if selected_idx < item_count {
        Some(selected_idx)
    } else {
        None
    }
}

/// The item whose content is shown.
pub fn shown_item(selected_idx: usize, item_count: usize) -> (shown: Option<usize>)
    ensures
        shown == spec_shown_item(selected_idx, item_count),
{
    if selected_idx < item_count {
        Some(selected_idx)
    } else {
        None
    }
}

/// What a click on an item leads to: the remembered selection after it, and
/// the index the owner is told of, if any.
#[derive(PartialEq, Eq, Structural, Clone, Copy, Debug)]
pub struct ClickOutcome {
    pub state: Option<usize>,
    pub emitted: Option<usize>,
}

/// The outcome of a click on item `idx`.
pub open spec fn spec_click_item(idx: usize, has_listener: bool, state: Option<usize>) -> ClickOutcome {
    if has_listener {
        ClickOutcome { state, emitted: Some(idx) }
    } else {
        ClickOutcome { state: Some(idx), emitted: None }
    }
}

/// A click on item `idx`. With a listener the owner is told and the
/// remembered selection stays; without one the control remembers `idx`.
pub fn click_item(idx: usize, has_listener: bool, state: Option<usize>) -> (outcome: ClickOutcome)
    ensures
        outcome == spec_click_item(idx, has_listener, state),
{
    if has_listener {
        ClickOutcome { state, emitted: Some(idx) }
    } else {
        ClickOutcome { state: Some(idx), emitted: None }
    }
}

/// For each of `item_count` items, whether it is drawn as the active one.
pub fn active_flags(selected_idx: usize, item_count: usize) -> (flags: Vec<bool>)
    ensures
        flags@.len() == item_count,
        forall|i: int| 0 <= i < item_count ==> flags@[i] == (i == selected_idx),
{
    let mut flags: Vec<bool> = Vec::new();
    let mut idx: usize = 0;
    while idx < item_count
        invariant
            idx <= item_count,
            flags@.len() == idx,
            forall|i: int| 0 <= i < idx ==> flags@[i] == (i == selected_idx),
        decreases item_count - idx,
    {
        flags.push(selected_idx == idx);
        idx = idx + 1;
    }
    flags
}

/// A remembered selection is in range when it names an existing item.
pub open spec fn in_range(state: Option<usize>, item_count: usize) -> bool {
    match state {
        Some(idx) => idx < item_count,
        None => item_count == 0,
    }
}

/// The initial selection is in range, and an uncontrolled control with items
/// starts by showing the first of them.
pub proof fn lemma_initial_selection(item_count: usize)
    ensures
        in_range(spec_initial_selection(item_count), item_count),
        item_count > 0 ==> spec_shown_item(
            spec_selected_index(None, spec_initial_selection(item_count)),
            item_count,
        ) == Some(0usize),
        item_count == 0 ==> spec_shown_item(
            spec_selected_index(None, spec_initial_selection(item_count)),
            item_count,
        ).is_none(),
{
}

/// A click on an existing item keeps an in-range selection in range, with or
/// without a listener.
pub proof fn lemma_click_stays_in_range(
    idx: usize,
    has_listener: bool,
    state: Option<usize>,
    item_count: usize,
)
    requires
        idx < item_count,
        in_range(state, item_count),
    ensures
        in_range(spec_click_item(idx, has_listener, state).state, item_count),
{
}

/// An uncontrolled control without a listener shows the item that was
/// clicked last.
pub proof fn lemma_click_selects(idx: usize, state: Option<usize>, item_count: usize)
    requires
        idx < item_count,
    ensures
        spec_shown_item(
            spec_selected_index(None, spec_click_item(idx, false, state).state),
            item_count,
        ) == Some(idx),
        spec_click_item(idx, false, state).emitted.is_none(),
{
}

/// A controlled control shows what its owner says, whatever it remembers,
/// and a click on it with a listener changes nothing but tells the owner.
pub proof fn lemma_controlled_follows_owner(
    owner: usize,
    idx: usize,
    state: Option<usize>,
)
    ensures
        spec_selected_index(Some(owner), state) == owner,
        spec_selected_index(Some(owner), spec_click_item(idx, true, state).state) == owner,
        spec_click_item(idx, true, state).emitted == Some(idx),
{
}

/// While the remembered selection is in range and there are items, an
/// uncontrolled control always shows one of them.
pub proof fn lemma_in_range_shows_an_item(state: Option<usize>, item_count: usize)
    requires
        item_count > 0,
        in_range(state, item_count),
    ensures
        spec_shown_item(spec_selected_index(None, state), item_count) == state,
{
}

/// Adding items keeps a selection of an existing item in range.
pub proof fn lemma_growth_keeps_selection(state: Option<usize>, item_count: usize, grown: usize)
    requires
        item_count > 0,
        in_range(state, item_count),
        item_count <= grown,
    ensures
        in_range(state, grown),
        spec_shown_item(spec_selected_index(None, state), grown) == spec_shown_item(
            spec_selected_index(None, state),
            item_count,
        ),
{
}

} // verus!
