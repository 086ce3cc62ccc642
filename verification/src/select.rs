//! The modern select: a box that shows what is selected and a flyout that
//! offers what can still be chosen. With a deselect listener it selects
//! several items and shows them as chips; without one it selects a single
//! item.

use vstd::prelude::*;

verus! {

/// One entry of a modern select.
#[derive(PartialEq, Eq, Debug)]
pub struct CosmoModernSelectItem {
    pub label: String,
    pub value: String,
    pub selected: bool,
}

impl CosmoModernSelectItem {
    /// An entry with the given label, value and selection.
    pub fn new(label: &str, value: &str, selected: bool) -> (item: Self)
        ensures
            item.label@ == label@,
            item.value@ == value@,
            item.selected == selected,
    {
        Self { label: String::from_str(label), value: String::from_str(value), selected }
    }
}

/// What the modern select reads from its owner.
#[derive(PartialEq, Eq, Debug)]
pub struct CosmoModernSelectProps {
    pub items: Vec<CosmoModernSelectItem>,
    pub required: bool,
    pub readonly: bool,
    /// Whether the owner listens for deselections; this makes the select a
    /// multiple one.
    pub has_on_deselect: bool,
    /// Whether the owner listens for the search text; this shows the search
    /// field.
    pub has_on_filter: bool,
}

/// What the modern select remembers between events.
#[derive(PartialEq, Eq, Debug)]
pub struct CosmoModernSelectState {
    pub flyout_open: bool,
    /// Whether the flyout opens above the box instead of below it.
    pub flyout_up: bool,
    pub search: String,
}

impl Clone for CosmoModernSelectState {
    fn clone(&self) -> (copy: Self)
        ensures
            copy == *self,
    {
        CosmoModernSelectState {
            flyout_open: self.flyout_open,
            flyout_up: self.flyout_up,
            search: self.search.clone(),
        }
    }
}

/// What the modern select draws.
#[derive(PartialEq, Eq, Debug)]
pub struct CosmoModernSelectView {
    pub is_multiple: bool,
    /// Whether the box carries the invalid style.
    pub invalid: bool,
    /// The items drawn as chips, by index: the selected ones of a multiple
    /// select.
    pub chips: Vec<usize>,
    /// The item whose label fills the box of a single select, if any.
    pub single: Option<usize>,
    pub search_shown: bool,
    pub flyout_shown: bool,
    pub flyout_up: bool,
    /// The items offered in the flyout, by index.
    pub options: Vec<usize>,
}

/// Something that happens to a modern select.
#[derive(PartialEq, Eq, Debug)]
pub enum CosmoModernSelectEvent {
    /// A click on the label or the box; `is_up` says whether there is too
    /// little room below.
    OpenFlyout { is_up: bool },
    /// A click anywhere outside the select.
    ClickAway,
    /// A click on an option of the flyout, with the option's value.
    Select(String),
    /// A click on the cross of a chip, with the chip's value.
    Deselect(String),
    /// Typing into the search field, with the field's text.
    Filter(String),
}

/// What the owner is told after an event.
#[derive(PartialEq, Eq, Debug)]
pub enum CosmoModernSelectAction {
    Nothing,
    Select(String),
    Deselect(String),
    Filter(String),
}

/// For each item, whether it is selected.
pub open spec fn selected_flags(items: Seq<CosmoModernSelectItem>) -> Seq<bool> {
    Seq::new(items.len(), |i: int| items[i].selected)
}

/// For each item, whether it is offered in the flyout: a multiple select
/// offers what is not selected yet, a single select offers everything.
pub open spec fn available_flags(items: Seq<CosmoModernSelectItem>, is_multiple: bool) -> Seq<
    bool,
> {
    Seq::new(items.len(), |i: int| !is_multiple || !items[i].selected)
}

/// `indices` lists, in ascending order, exactly the positions at which
/// `wanted` is set.
pub open spec fn lists_exactly(indices: Seq<usize>, wanted: Seq<bool>) -> bool {
    &&& forall|k: int|
        0 <= k < indices.len() ==> (#[trigger] indices[k]) < wanted.len() && wanted[indices[k] as int]
    &&& forall|j: int, k: int| 0 <= j < k < indices.len() ==> indices[j] < indices[k]
    &&& forall|i: int| 0 <= i < wanted.len() && #[trigger] wanted[i] ==> indices.contains(i as usize)
}

/// `first` is the lowest position at which `wanted` is set, or nothing if it
/// is set nowhere.
pub open spec fn is_first(first: Option<usize>, wanted: Seq<bool>) -> bool {
    match first {
        Some(idx) => idx < wanted.len() && wanted[idx as int] && forall|i: int|
            0 <= i < idx ==> !#[trigger] wanted[i],
        None => forall|i: int| 0 <= i < wanted.len() ==> !#[trigger] wanted[i],
    }
}

/// Whether the flyout is drawn. An open flyout is drawn even when nothing is
/// left to offer; only a count of options at the very top of its range would
/// hide it.
pub open spec fn spec_flyout_shown(flyout_open: bool, option_count: usize) -> bool {
    flyout_open && option_count != usize::MAX
}

/// The positions at which `flags` is set, ascending.
pub fn set_positions(flags: &Vec<bool>) -> (indices: Vec<usize>)
    ensures
        lists_exactly(indices@, flags@),
{
    let mut indices: Vec<usize> = Vec::new();
    let mut idx: usize = 0;
    while idx < flags.len()
        invariant
            idx <= flags@.len(),
            lists_exactly(indices@, flags@.take(idx as int)),
        decreases flags@.len() - idx,
    {
        let ghost before = indices@;
        let ghost seen = flags@.take(idx as int);
        let ghost grown = flags@.take(idx + 1);
        if flags[idx] {
            indices.push(idx);
        }
        proof {
            assert forall|k: int| 0 <= k < indices@.len() implies (#[trigger] indices@[k])
                < grown.len() && grown[indices@[k] as int] by {
                if k < before.len() {
                    assert(before[k] < seen.len() && seen[before[k] as int]);
                }
            }
            assert forall|j: int, k: int| 0 <= j < k < indices@.len() implies indices@[j]
                < indices@[k] by {
                assert(before[j] < seen.len());
            }
            assert forall|i: int| 0 <= i < grown.len() && #[trigger] grown[i] implies indices@.contains(
                i as usize,
            ) by {
                if i < idx {
                    assert(seen[i]);
                    let k = choose|k: int| 0 <= k < before.len() && before[k] == i as usize;
                    assert(indices@[k] == i as usize);
                } else {
                    assert(indices@[before.len() as int] == idx);
                }
            }
        }
        idx = idx + 1;
    }
    proof {
        assert(flags@.take(idx as int) =~= flags@);
    }
    indices
}

/// The lowest position at which `flags` is set, if any.
pub fn first_set(flags: &Vec<bool>) -> (first: Option<usize>)
    ensures
        is_first(first, flags@),
{
    let mut idx: usize = 0;
    while idx < flags.len()
        invariant
            idx <= flags@.len(),
            forall|i: int| 0 <= i < idx ==> !#[trigger] flags@[i],
        decreases flags@.len() - idx,
    {
        if flags[idx] {
            return Some(idx);
        }
        idx = idx + 1;
    }
    None
}

/// For each item, whether it is selected.
pub fn selection_of(items: &Vec<CosmoModernSelectItem>) -> (flags: Vec<bool>)
    ensures
        flags@ == selected_flags(items@),
{
    let mut flags: Vec<bool> = Vec::new();
    let mut idx: usize = 0;
    while idx < items.len()
        invariant
            idx <= items@.len(),
            flags@.len() == idx,
            forall|i: int| 0 <= i < idx ==> flags@[i] == items@[i].selected,
        decreases items@.len() - idx,
    {
        flags.push(items[idx].selected);
        idx = idx + 1;
    }
    proof {
        assert(flags@ =~= selected_flags(items@));
    }
    flags
}

/// For each item, whether the flyout offers it.
pub fn availability_of(items: &Vec<CosmoModernSelectItem>, is_multiple: bool) -> (flags: Vec<bool>)
    ensures
        flags@ == available_flags(items@, is_multiple),
{
    let mut flags: Vec<bool> = Vec::new();
    let mut idx: usize = 0;
    while idx < items.len()
        invariant
            idx <= items@.len(),
            flags@.len() == idx,
            forall|i: int| 0 <= i < idx ==> flags@[i] == (!is_multiple || !items@[i].selected),
        decreases items@.len() - idx,
    {
        flags.push(!is_multiple || !items[idx].selected);
        idx = idx + 1;
    }
    proof {
        assert(flags@ =~= available_flags(items@, is_multiple));
    }
    flags
}

/// The indices of the selected items, ascending.
pub fn selected_items(items: &Vec<CosmoModernSelectItem>) -> (indices: Vec<usize>)
    ensures
        lists_exactly(indices@, selected_flags(items@)),
{
    let flags = selection_of(items);
    set_positions(&flags)
}

/// The indices of the items offered in the flyout, ascending.
pub fn available_items(items: &Vec<CosmoModernSelectItem>, is_multiple: bool) -> (indices: Vec<
    usize,
>)
    ensures
        lists_exactly(indices@, available_flags(items@, is_multiple)),
{
    let flags = availability_of(items, is_multiple);
    set_positions(&flags)
}

/// The first selected item, if any.
pub fn first_selected(items: &Vec<CosmoModernSelectItem>) -> (first: Option<usize>)
    ensures
        is_first(first, selected_flags(items@)),
{
    let flags = selection_of(items);
    first_set(&flags)
}

/// The state a modern select starts in: closed, opening downwards, with an
/// empty search text.
pub fn modern_select_initial_state() -> (state: CosmoModernSelectState)
    ensures
        !state.flyout_open,
        !state.flyout_up,
        state.search@ == Seq::<char>::empty(),
{
    CosmoModernSelectState { flyout_open: false, flyout_up: false, search: String::new() }
}

/// Draws the modern select. It is a multiple select exactly when the owner
/// listens for deselections. A required select without a selected item is
/// invalid. A multiple select shows every selected item as a chip and offers
/// the rest; a single select shows the first selected item and offers all.
pub fn modern_select(props: &CosmoModernSelectProps, state: &CosmoModernSelectState) -> (view:
    CosmoModernSelectView)
    ensures
        view.is_multiple == props.has_on_deselect,
        view.invalid == (props.required && !selected_flags(props.items@).contains(true)),
        view.is_multiple ==> view.single.is_none() && lists_exactly(
            view.chips@,
            selected_flags(props.items@),
        ),
        !view.is_multiple ==> view.chips@.len() == 0 && is_first(
            view.single,
            selected_flags(props.items@),
        ),
        view.search_shown == props.has_on_filter,
        lists_exactly(view.options@, available_flags(props.items@, props.has_on_deselect)),
        view.flyout_shown == spec_flyout_shown(state.flyout_open, view.options@.len() as usize),
        view.flyout_up == state.flyout_up,
{
    let is_multiple = props.has_on_deselect;
    let first = first_selected(&props.items);
    let options = available_items(&props.items, is_multiple);
    let invalid = props.required && first.is_none();
    proof {
        let flags = selected_flags(props.items@);
        if first.is_none() {
            if flags.contains(true) {
                let i = choose|i: int| 0 <= i < flags.len() && flags[i] == true;
                assert(!flags[i]);
            }
        } else {
            assert(flags[first.unwrap() as int]);
        }
    }
    let chips = if is_multiple {
        selected_items(&props.items)
    } else {
        Vec::new()
    };
    let single = if is_multiple {
        None
    } else {
        first
    };
    let flyout_shown = state.flyout_open && options.len() != usize::MAX;
    CosmoModernSelectView {
        is_multiple,
        invalid,
        chips,
        single,
        search_shown: props.has_on_filter,
        flyout_shown,
        flyout_up: state.flyout_up,
        options,
    }
}

/// The state after an event, and what the owner is told.
///
/// Opening remembers the direction. A click outside closes. Choosing an
/// option clears the search text, keeps the flyout open only in a multiple
/// select, and tells the owner. A click on a chip's cross tells the owner,
/// if it listens. Typing is remembered and the owner is told, if it listens.
pub fn modern_select_step(
    props: &CosmoModernSelectProps,
    state: CosmoModernSelectState,
    event: CosmoModernSelectEvent,
) -> (next: (CosmoModernSelectState, CosmoModernSelectAction))
    ensures
        match event {
            CosmoModernSelectEvent::OpenFlyout { is_up } => {
                &&& next.0.flyout_open
                &&& next.0.flyout_up == is_up
                &&& next.0.search@ == state.search@
                &&& next.1 is Nothing
            },
            CosmoModernSelectEvent::ClickAway => {
                &&& !next.0.flyout_open
                &&& next.0.flyout_up == state.flyout_up
                &&& next.0.search@ == state.search@
                &&& next.1 is Nothing
            },
            CosmoModernSelectEvent::Select(value) => {
                &&& next.0.flyout_open == props.has_on_deselect
                &&& next.0.flyout_up == state.flyout_up
                &&& next.0.search@ == Seq::<char>::empty()
                &&& next.1 == CosmoModernSelectAction::Select(value)
            },
            CosmoModernSelectEvent::Deselect(value) => {
                &&& next.0 == state
                &&& next.1 == if props.has_on_deselect {
                    CosmoModernSelectAction::Deselect(value)
                } else {
                    CosmoModernSelectAction::Nothing
                }
            },
            CosmoModernSelectEvent::Filter(text) => {
                &&& next.0.flyout_open == state.flyout_open
                &&& next.0.flyout_up == state.flyout_up
                &&& next.0.search@ == text@
                &&& next.1 == if props.has_on_filter {
                    CosmoModernSelectAction::Filter(text)
                } else {
                    CosmoModernSelectAction::Nothing
                }
            },
        },
{
    match event {
        CosmoModernSelectEvent::OpenFlyout { is_up } => (
            CosmoModernSelectState { flyout_open: true, flyout_up: is_up, search: state.search },
            CosmoModernSelectAction::Nothing,
        ),
        CosmoModernSelectEvent::ClickAway => (
            CosmoModernSelectState {
                flyout_open: false,
                flyout_up: state.flyout_up,
                search: state.search,
            },
            CosmoModernSelectAction::Nothing,
        ),
        CosmoModernSelectEvent::Select(value) => (
            CosmoModernSelectState {
                flyout_open: props.has_on_deselect,
                flyout_up: state.flyout_up,
                search: String::new(),
            },
            CosmoModernSelectAction::Select(value),
        ),
        CosmoModernSelectEvent::Deselect(value) => {
            let action = if props.has_on_deselect {
                CosmoModernSelectAction::Deselect(value)
            } else {
                CosmoModernSelectAction::Nothing
            };
            (state, action)
        },
        CosmoModernSelectEvent::Filter(text) => {
            let search = text.clone();
            let action = if props.has_on_filter {
                CosmoModernSelectAction::Filter(text)
            } else {
                CosmoModernSelectAction::Nothing
            };
            (
                CosmoModernSelectState {
                    flyout_open: state.flyout_open,
                    flyout_up: state.flyout_up,
                    search,
                },
                action,
            )
        },
    }
}

/// Two ascending lists of exactly the same positions are the same list: the
/// flags decide what is listed, and in which order.
pub proof fn lemma_lists_exactly_unique(a: Seq<usize>, b: Seq<usize>, wanted: Seq<bool>)
    requires
        wanted.len() <= usize::MAX,
        lists_exactly(a, wanted),
        lists_exactly(b, wanted),
    ensures
        a == b,
    decreases wanted.len(),
{
    if wanted.len() == 0 {
        if a.len() > 0 {
            assert(a[0] < wanted.len());
        }
        if b.len() > 0 {
            assert(b[0] < wanted.len());
        }
        assert(a =~= b);
    } else {
        let top = (wanted.len() - 1) as usize;
        let rest = wanted.drop_last();
        let a0 = if wanted.last() {
            a.drop_last()
        } else {
            a
        };
        let b0 = if wanted.last() {
            b.drop_last()
        } else {
            b
        };
        lemma_without_top(a, wanted);
        lemma_without_top(b, wanted);
        lemma_lists_exactly_unique(a0, b0, rest);
        if wanted.last() {
            assert(a =~= a0.push(top));
            assert(b =~= b0.push(top));
        }
    }
}

/// Dropping the last flag drops the last listed position if that flag was
/// set, and nothing otherwise.
proof fn lemma_without_top(a: Seq<usize>, wanted: Seq<bool>)
    requires
        0 < wanted.len() <= usize::MAX,
        lists_exactly(a, wanted),
    ensures
        wanted.last() ==> a.len() > 0 && a.last() == (wanted.len() - 1) as usize && lists_exactly(
            a.drop_last(),
            wanted.drop_last(),
        ),
        !wanted.last() ==> lists_exactly(a, wanted.drop_last()),
{
    let top = (wanted.len() - 1) as usize;
    let rest = wanted.drop_last();
    if wanted.last() {
        assert(wanted[top as int]);
        assert(a.contains(top));
        let k = choose|k: int| 0 <= k < a.len() && a[k] == top;
        if k < a.len() - 1 {
            assert(a[k] < a[a.len() - 1]);
            assert(a[a.len() - 1] < wanted.len());
        }
        assert(a.last() == top);
        let a0 = a.drop_last();
        assert forall|j: int| 0 <= j < a0.len() implies (#[trigger] a0[j]) < rest.len()
            && rest[a0[j] as int] by {
            assert(a0[j] == a[j]);
            assert(a[j] < a[a.len() - 1]);
            assert(a[j] < wanted.len() && wanted[a[j] as int]);
        }
        assert forall|i: int| 0 <= i < rest.len() && #[trigger] rest[i] implies a0.contains(
            i as usize,
        ) by {
            assert(wanted[i]);
            let j = choose|j: int| 0 <= j < a.len() && a[j] == i as usize;
            assert(j < a.len() - 1);
            assert(a0[j] == i as usize);
        }
    } else {
        assert forall|j: int| 0 <= j < a.len() implies (#[trigger] a[j]) < rest.len()
            && rest[a[j] as int] by {
            assert(a[j] < wanted.len() && wanted[a[j] as int]);
        }
        assert forall|i: int| 0 <= i < rest.len() && #[trigger] rest[i] implies a.contains(
            i as usize,
        ) by {
            assert(wanted[i]);
        }
    }
}

/// The number of flags that are set.
pub open spec fn count_set(flags: Seq<bool>) -> nat
    decreases flags.len(),
{
    if flags.len() == 0 {
        0
    } else {
        count_set(flags.drop_last()) + if flags.last() {
            1nat
        } else {
            0nat
        }
    }
}

/// A list of exactly the set positions is as long as there are set flags.
pub proof fn lemma_listed_count(indices: Seq<usize>, wanted: Seq<bool>)
    requires
        wanted.len() <= usize::MAX,
        lists_exactly(indices, wanted),
    ensures
        indices.len() == count_set(wanted),
    decreases wanted.len(),
{
    if wanted.len() == 0 {
        if indices.len() > 0 {
            assert(indices[0] < wanted.len());
        }
    } else {
        lemma_without_top(indices, wanted);
        if wanted.last() {
            lemma_listed_count(indices.drop_last(), wanted.drop_last());
        } else {
            lemma_listed_count(indices, wanted.drop_last());
        }
    }
}

/// Of two rows of flags of which each is the other's opposite, as many are
/// set together as the rows are long.
pub proof fn lemma_opposite_flags_count(flags: Seq<bool>, opposite: Seq<bool>)
    requires
        flags.len() == opposite.len(),
        forall|i: int| 0 <= i < flags.len() ==> flags[i] != opposite[i],
    ensures
        count_set(flags) + count_set(opposite) == flags.len(),
    decreases flags.len(),
{
    if flags.len() > 0 {
        assert forall|i: int| 0 <= i < flags.drop_last().len() implies flags.drop_last()[i]
            != opposite.drop_last()[i] by {
            assert(flags.drop_last()[i] == flags[i]);
            assert(opposite.drop_last()[i] == opposite[i]);
        }
        lemma_opposite_flags_count(flags.drop_last(), opposite.drop_last());
    }
}

/// A multiple select draws every item exactly once: there are as many
/// chips and options together as there are items.
pub proof fn lemma_chips_and_options_count(
    items: Seq<CosmoModernSelectItem>,
    chips: Seq<usize>,
    options: Seq<usize>,
)
    requires
        items.len() <= usize::MAX,
        lists_exactly(chips, selected_flags(items)),
        lists_exactly(options, available_flags(items, true)),
    ensures
        chips.len() + options.len() == items.len(),
{
    lemma_listed_count(chips, selected_flags(items));
    lemma_listed_count(options, available_flags(items, true));
    lemma_opposite_flags_count(selected_flags(items), available_flags(items, true));
}

/// A single select offers every item.
pub proof fn lemma_single_select_offers_all(items: Seq<CosmoModernSelectItem>, options: Seq<usize>)
    requires
        items.len() <= usize::MAX,
        lists_exactly(options, available_flags(items, false)),
    ensures
        options.len() == items.len(),
        forall|i: int| 0 <= i < options.len() ==> options[i] == i,
{
    let all = Seq::new(items.len(), |i: int| i as usize);
    assert(lists_exactly(all, available_flags(items, false))) by {
        assert forall|i: int|
            0 <= i < available_flags(items, false).len() && #[trigger] available_flags(
                items,
                false,
            )[i] implies all.contains(i as usize) by {
            assert(all[i] == i as usize);
        }
    }
    lemma_lists_exactly_unique(options, all, available_flags(items, false));
}

/// In a multiple select every item is either selected or offered, never
/// both; a single select offers every item.
pub proof fn lemma_chips_and_options_partition(
    items: Seq<CosmoModernSelectItem>,
    is_multiple: bool,
    i: int,
)
    requires
        0 <= i < items.len(),
    ensures
        is_multiple ==> selected_flags(items)[i] != available_flags(items, is_multiple)[i],
        !is_multiple ==> available_flags(items, is_multiple)[i],
{
}

/// A list of options that a vector can hold in practice never hides an open
/// flyout.
pub proof fn lemma_open_flyout_is_shown(flyout_open: bool, option_count: usize)
    requires
        option_count < usize::MAX,
    ensures
        spec_flyout_shown(flyout_open, option_count) == flyout_open,
{
}

} // verus!
