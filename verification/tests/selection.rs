use cosmo::list::{side_list, side_list_click, side_list_initial_state, CosmoSideListProps};
use cosmo::select::{
    available_items, first_selected, first_set, modern_select, modern_select_initial_state,
    modern_select_step, selected_items, set_positions, CosmoModernSelectAction,
    CosmoModernSelectEvent, CosmoModernSelectItem, CosmoModernSelectProps, CosmoModernSelectState,
};
use cosmo::selection::{
    active_flags, click_item, initial_selection, selected_index, shown_item, ClickOutcome,
};
use cosmo::tab::{tab_control, tab_control_click, tab_control_initial_state, CosmoTabControlProps};

fn labels(count: usize) -> Vec<String> {
    let mut all = Vec::new();
    for i in 0..count {
        all.push(format!("Page {}", i + 1));
    }
    all
}

fn side_props(count: usize, selected_index: Option<usize>, listens: bool) -> CosmoSideListProps {
    CosmoSideListProps {
        labels: labels(count),
        selected_index,
        has_on_select_item: listens,
    }
}

fn items(selected: &[bool]) -> Vec<CosmoModernSelectItem> {
    let mut all = Vec::new();
    for (i, flag) in selected.iter().enumerate() {
        all.push(CosmoModernSelectItem::new(
            &format!("Item {}", i + 1),
            &format!("{}", i + 1),
            *flag,
        ));
    }
    all
}

fn select_props(selected: &[bool], multiple: bool, required: bool) -> CosmoModernSelectProps {
    CosmoModernSelectProps {
        items: items(selected),
        required,
        readonly: false,
        has_on_deselect: multiple,
        has_on_filter: false,
    }
}

fn state(open: bool, up: bool, search: &str) -> CosmoModernSelectState {
    CosmoModernSelectState { flyout_open: open, flyout_up: up, search: String::from(search) }
}

#[test]
fn initial_selection_is_first_item_or_nothing() {
    assert_eq!(initial_selection(0), None);
    assert_eq!(initial_selection(1), Some(0));
    assert_eq!(initial_selection(5), Some(0));
}

#[test]
fn owner_index_wins_over_remembered() {
    assert_eq!(selected_index(Some(3), Some(1)), 3);
    assert_eq!(selected_index(Some(3), None), 3);
    assert_eq!(selected_index(None, Some(1)), 1);
    assert_eq!(selected_index(None, None), 0);
}

#[test]
fn shown_item_needs_an_existing_index() {
    assert_eq!(shown_item(0, 0), None);
    assert_eq!(shown_item(0, 1), Some(0));
    assert_eq!(shown_item(2, 3), Some(2));
    assert_eq!(shown_item(3, 3), None);
}

#[test]
fn click_tells_listener_or_remembers() {
    assert_eq!(click_item(2, true, Some(0)), ClickOutcome { state: Some(0), emitted: Some(2) });
    assert_eq!(click_item(2, false, Some(0)), ClickOutcome { state: Some(2), emitted: None });
    assert_eq!(click_item(4, false, None), ClickOutcome { state: Some(4), emitted: None });
}

#[test]
fn exactly_the_selected_item_is_active() {
    assert_eq!(active_flags(1, 3), vec![false, true, false]);
    assert_eq!(active_flags(3, 3), vec![false, false, false]);
    assert_eq!(active_flags(0, 0), Vec::<bool>::new());
}

#[test]
fn side_list_starts_on_first_item() {
    let props = side_props(3, None, false);
    let start = side_list_initial_state(&props);
    assert_eq!(start, Some(0));
    let view = side_list(&props, start);
    assert_eq!(view.active, vec![true, false, false]);
    assert_eq!(view.content, Some(0));
}

#[test]
fn side_list_click_selects_when_uncontrolled() {
    let props = side_props(3, None, false);
    let outcome = side_list_click(&props, 2, Some(0));
    assert_eq!(outcome.emitted, None);
    let view = side_list(&props, outcome.state);
    assert_eq!(view.active, vec![false, false, true]);
    assert_eq!(view.content, Some(2));
}

#[test]
fn side_list_click_tells_owner_when_controlled() {
    let props = side_props(3, Some(1), true);
    let outcome = side_list_click(&props, 2, Some(0));
    assert_eq!(outcome, ClickOutcome { state: Some(0), emitted: Some(2) });
    let view = side_list(&props, outcome.state);
    assert_eq!(view.active, vec![false, true, false]);
    assert_eq!(view.content, Some(1));
}

#[test]
fn empty_side_list_shows_nothing() {
    let props = side_props(0, None, false);
    assert_eq!(side_list_initial_state(&props), None);
    let view = side_list(&props, None);
    assert!(view.active.is_empty());
    assert_eq!(view.content, None);
}

#[test]
fn side_list_index_past_the_end_shows_nothing() {
    let props = side_props(2, Some(5), false);
    let view = side_list(&props, Some(0));
    assert_eq!(view.active, vec![false, false]);
    assert_eq!(view.content, None);
}

#[test]
fn added_item_keeps_the_selection() {
    let before = side_props(2, None, false);
    let clicked = side_list_click(&before, 1, side_list_initial_state(&before));
    let after = side_props(3, None, false);
    let view = side_list(&after, clicked.state);
    assert_eq!(view.active, vec![false, true, false]);
    assert_eq!(view.content, Some(1));
}

#[test]
fn tab_control_selection() {
    let props = CosmoTabControlProps {
        labels: labels(3),
        selected_index: None,
        has_on_select_item: false,
    };
    let start = tab_control_initial_state(&props);
    assert_eq!(start, Some(0));
    let first = tab_control(&props, start);
    assert_eq!(first.active, vec![true, false, false]);
    assert_eq!(first.content, Some(0));
    let outcome = tab_control_click(&props, 1, start);
    assert_eq!(outcome, ClickOutcome { state: Some(1), emitted: None });
    let second = tab_control(&props, outcome.state);
    assert_eq!(second.active, vec![false, true, false]);
    assert_eq!(second.content, Some(1));
}

#[test]
fn tab_control_with_listener() {
    let props = CosmoTabControlProps {
        labels: labels(2),
        selected_index: Some(1),
        has_on_select_item: true,
    };
    let outcome = tab_control_click(&props, 0, None);
    assert_eq!(outcome, ClickOutcome { state: None, emitted: Some(0) });
    let view = tab_control(&props, outcome.state);
    assert_eq!(view.active, vec![false, true]);
    assert_eq!(view.content, Some(1));
}

#[test]
fn positions_of_flags() {
    assert_eq!(set_positions(&vec![false, true, true, false, true]), vec![1, 2, 4]);
    assert_eq!(set_positions(&vec![false, false]), Vec::<usize>::new());
    assert_eq!(set_positions(&vec![]), Vec::<usize>::new());
    assert_eq!(first_set(&vec![false, true, true]), Some(1));
    assert_eq!(first_set(&vec![false, false]), None);
}

#[test]
fn new_item_keeps_its_fields() {
    let item = CosmoModernSelectItem::new("Item 1", "1", true);
    assert_eq!(item.label, "Item 1");
    assert_eq!(item.value, "1");
    assert!(item.selected);
}

#[test]
fn selected_and_available_items() {
    let all = items(&[true, false, true, false]);
    assert_eq!(selected_items(&all), vec![0, 2]);
    assert_eq!(available_items(&all, true), vec![1, 3]);
    assert_eq!(available_items(&all, false), vec![0, 1, 2, 3]);
    assert_eq!(first_selected(&all), Some(0));
    assert_eq!(first_selected(&items(&[false, false, true])), Some(2));
    assert_eq!(first_selected(&items(&[false, false])), None);
}

#[test]
fn single_select_shows_first_selected_and_offers_all() {
    let props = select_props(&[false, true, true], false, false);
    let view = modern_select(&props, &state(true, false, ""));
    assert!(!view.is_multiple);
    assert!(!view.invalid);
    assert!(view.chips.is_empty());
    assert_eq!(view.single, Some(1));
    assert_eq!(view.options, vec![0, 1, 2]);
    assert!(view.flyout_shown);
    assert!(!view.flyout_up);
    assert!(!view.search_shown);
}

#[test]
fn multiple_select_shows_chips_and_offers_the_rest() {
    let mut props = select_props(&[false, true, true], true, true);
    props.has_on_filter = true;
    let view = modern_select(&props, &state(false, true, "it"));
    assert!(view.is_multiple);
    assert!(!view.invalid);
    assert_eq!(view.chips, vec![1, 2]);
    assert_eq!(view.single, None);
    assert_eq!(view.options, vec![0]);
    assert!(!view.flyout_shown);
    assert!(view.flyout_up);
    assert!(view.search_shown);
}

#[test]
fn required_select_without_selection_is_invalid() {
    let view = modern_select(&select_props(&[false, false], false, true), &state(false, false, ""));
    assert!(view.invalid);
    assert_eq!(view.single, None);
    let optional =
        modern_select(&select_props(&[false, false], false, false), &state(false, false, ""));
    assert!(!optional.invalid);
    let empty = modern_select(&select_props(&[], true, true), &state(false, false, ""));
    assert!(empty.invalid);
}

#[test]
fn open_flyout_is_drawn_even_without_options() {
    let view = modern_select(&select_props(&[true, true], true, false), &state(true, false, ""));
    assert!(view.options.is_empty());
    assert!(view.flyout_shown);
}

#[test]
fn select_starts_closed() {
    let start = modern_select_initial_state();
    assert!(!start.flyout_open);
    assert!(!start.flyout_up);
    assert_eq!(start.search, "");
}

#[test]
fn opening_remembers_the_direction() {
    let props = select_props(&[false], false, false);
    let (next, action) = modern_select_step(
        &props,
        state(false, false, "ab"),
        CosmoModernSelectEvent::OpenFlyout { is_up: true },
    );
    assert!(next.flyout_open);
    assert!(next.flyout_up);
    assert_eq!(next.search, "ab");
    assert!(matches!(action, CosmoModernSelectAction::Nothing));
}

#[test]
fn click_away_closes() {
    let props = select_props(&[false], true, false);
    let (next, action) =
        modern_select_step(&props, state(true, true, "ab"), CosmoModernSelectEvent::ClickAway);
    assert!(!next.flyout_open);
    assert!(next.flyout_up);
    assert_eq!(next.search, "ab");
    assert!(matches!(action, CosmoModernSelectAction::Nothing));
}

#[test]
fn choosing_clears_search_and_closes_a_single_select() {
    let props = select_props(&[false], false, false);
    let (next, action) = modern_select_step(
        &props,
        state(true, false, "ab"),
        CosmoModernSelectEvent::Select(String::from("1")),
    );
    assert!(!next.flyout_open);
    assert_eq!(next.search, "");
    assert!(matches!(action, CosmoModernSelectAction::Select(value) if value == "1"));
}

#[test]
fn choosing_keeps_a_multiple_select_open() {
    let props = select_props(&[false], true, false);
    let (next, action) = modern_select_step(
        &props,
        state(true, true, "ab"),
        CosmoModernSelectEvent::Select(String::from("1")),
    );
    assert!(next.flyout_open);
    assert!(next.flyout_up);
    assert_eq!(next.search, "");
    assert!(matches!(action, CosmoModernSelectAction::Select(value) if value == "1"));
}

#[test]
fn closing_a_chip_tells_a_listening_owner() {
    let multiple = select_props(&[true], true, false);
    let (next, action) = modern_select_step(
        &multiple,
        state(true, false, "ab"),
        CosmoModernSelectEvent::Deselect(String::from("1")),
    );
    assert!(next.flyout_open);
    assert_eq!(next.search, "ab");
    assert!(matches!(action, CosmoModernSelectAction::Deselect(value) if value == "1"));
    let single = select_props(&[true], false, false);
    let (_, silent) = modern_select_step(
        &single,
        state(true, false, "ab"),
        CosmoModernSelectEvent::Deselect(String::from("1")),
    );
    assert!(matches!(silent, CosmoModernSelectAction::Nothing));
}

#[test]
fn typing_is_remembered_and_told() {
    let mut props = select_props(&[true], true, false);
    let (next, silent) = modern_select_step(
        &props,
        state(true, false, "a"),
        CosmoModernSelectEvent::Filter(String::from("ab")),
    );
    assert_eq!(next.search, "ab");
    assert!(next.flyout_open);
    assert!(matches!(silent, CosmoModernSelectAction::Nothing));
    props.has_on_filter = true;
    let (_, told) = modern_select_step(
        &props,
        state(true, false, "a"),
        CosmoModernSelectEvent::Filter(String::from("ab")),
    );
    assert!(matches!(told, CosmoModernSelectAction::Filter(value) if value == "ab"));
}
