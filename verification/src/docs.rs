//! The documentation site: what each route shows, the title of each page,
//! and the state its demonstration pages keep.

use vstd::prelude::*;
use crate::modal::CosmoModalType;
use crate::routing::{ControlsRoute, CosmoRoute, DocsRoute, LayoutRoute};
use crate::selection::{spec_selected_index, spec_shown_item};
use crate::text::str_eq;
use crate::theme::CosmoTheme;

verus! {

/// The title of the site, shown alone where a page has no title of its own.
pub open spec fn site_title() -> Seq<char> {
    "Cosmo Yew"@
}

/// The title of the browser window for a page title: the site's title alone
/// for a page without one, else the page title, a dash and the site's title.
pub open spec fn spec_format_title(page_title: Seq<char>) -> Seq<char> {
    if page_title.len() == 0 {
        site_title()
    } else {
        page_title + " – Cosmo Yew"@
    }
}

/// The title of the browser window for a page title.
pub fn format_title(page_title: &str) -> (title: String)
    ensures
        title@ == spec_format_title(page_title@),
{
    if page_title.unicode_len() == 0 {
        String::from_str("Cosmo Yew")
    } else {
        let mut title = String::from_str(page_title);
        title.append(" – Cosmo Yew");
        title
    }
}

/// One of the three sections of the site.
#[derive(PartialEq, Eq, Structural, Clone, Copy, Debug)]
pub enum DocsSection {
    Cosmo,
    Controls,
    Layout,
}

/// The section whose sub menu is shown for a route. Home shows the first
/// section's.
pub fn switch_sub_menu(route: DocsRoute) -> (section: DocsSection)
    ensures
        section == section_of(route),
{
    match route {
        DocsRoute::Home | DocsRoute::CosmoRoot | DocsRoute::Cosmo => DocsSection::Cosmo,
        DocsRoute::Controls | DocsRoute::ControlsRoot => DocsSection::Controls,
        DocsRoute::Layout | DocsRoute::LayoutRoot => DocsSection::Layout,
    }
}

/// The pages that the sub menu of the section about Cosmo leads to, in the
/// order of its entries.
pub fn cosmo_sub_menu() -> (entries: Vec<CosmoRoute>)
    ensures
        entries@ == seq![
            CosmoRoute::About,
            CosmoRoute::Typography,
            CosmoRoute::Theme,
            CosmoRoute::Customize,
        ],
{
    let mut entries: Vec<CosmoRoute> = Vec::new();
    entries.push(CosmoRoute::About);
    entries.push(CosmoRoute::Typography);
    entries.push(CosmoRoute::Theme);
    entries.push(CosmoRoute::Customize);
    proof {
        assert(entries@ =~= seq![
            CosmoRoute::About,
            CosmoRoute::Typography,
            CosmoRoute::Theme,
            CosmoRoute::Customize,
        ]);
    }
    entries
}

/// The pages that the sub menu of the section about controls leads to, in
/// the order of its entries. The page of messages has no entry.
pub fn controls_sub_menu() -> (entries: Vec<ControlsRoute>)
    ensures
        entries@ == seq![
            ControlsRoute::Html,
            ControlsRoute::SideList,
            ControlsRoute::TabControl,
            ControlsRoute::Toolbar,
            ControlsRoute::Dialog,
        ],
{
    let mut entries: Vec<ControlsRoute> = Vec::new();
    entries.push(ControlsRoute::Html);
    entries.push(ControlsRoute::SideList);
    entries.push(ControlsRoute::TabControl);
    entries.push(ControlsRoute::Toolbar);
    entries.push(ControlsRoute::Dialog);
    proof {
        assert(entries@ =~= seq![
            ControlsRoute::Html,
            ControlsRoute::SideList,
            ControlsRoute::TabControl,
            ControlsRoute::Toolbar,
            ControlsRoute::Dialog,
        ]);
    }
    entries
}

/// The pages that the sub menu of the section about layout leads to, in the
/// order of its entries.
pub fn layout_sub_menu() -> (entries: Vec<LayoutRoute>)
    ensures
        entries@ == seq![LayoutRoute::Base, LayoutRoute::Showcase],
{
    let mut entries: Vec<LayoutRoute> = Vec::new();
    entries.push(LayoutRoute::Base);
    entries.push(LayoutRoute::Showcase);
    proof {
        assert(entries@ =~= seq![LayoutRoute::Base, LayoutRoute::Showcase]);
    }
    entries
}

/// The label of the sub menu's entry for a page of the section about layout.
/// The showcase is announced as an outline.
pub open spec fn spec_layout_label(route: LayoutRoute) -> Seq<char> {
    match route {
        LayoutRoute::Base => "Base layout and menu"@,
        LayoutRoute::Showcase => "Layout outline"@,
    }
}

/// The label of the sub menu's entry for a page of the section about layout.
pub fn layout_label(route: LayoutRoute) -> (label: String)
    ensures
        label@ == spec_layout_label(route),
{
    String::from_str(
        match route {
            LayoutRoute::Base => "Base layout and menu",
            LayoutRoute::Showcase => "Layout outline",
        },
    )
}

/// What the page body does for a route: it sends the browser on to another
/// route, or it shows the pages of a section.
#[derive(PartialEq, Eq, Structural, Clone, Copy, Debug)]
pub enum DocsTarget {
    RedirectToDocs(DocsRoute),
    RedirectToCosmo(CosmoRoute),
    RedirectToControls(ControlsRoute),
    RedirectToLayout(LayoutRoute),
    Show(DocsSection),
}

/// What the page body does for a route. Home leads to the first section,
/// the root of a section to its first page.
pub open spec fn spec_switch_app(route: DocsRoute) -> DocsTarget {
    match route {
        DocsRoute::Home => DocsTarget::RedirectToDocs(DocsRoute::CosmoRoot),
        DocsRoute::CosmoRoot => DocsTarget::RedirectToCosmo(CosmoRoute::About),
        DocsRoute::Cosmo => DocsTarget::Show(DocsSection::Cosmo),
        DocsRoute::ControlsRoot => DocsTarget::RedirectToControls(ControlsRoute::Html),
        DocsRoute::Controls => DocsTarget::Show(DocsSection::Controls),
        DocsRoute::LayoutRoot => DocsTarget::RedirectToLayout(LayoutRoute::Base),
        DocsRoute::Layout => DocsTarget::Show(DocsSection::Layout),
    }
}

/// What the page body does for a route.
pub fn switch_app(route: DocsRoute) -> (target: DocsTarget)
    ensures
        target == spec_switch_app(route),
{
    match route {
        DocsRoute::Home => DocsTarget::RedirectToDocs(DocsRoute::CosmoRoot),
        DocsRoute::CosmoRoot => DocsTarget::RedirectToCosmo(CosmoRoute::About),
        DocsRoute::Cosmo => DocsTarget::Show(DocsSection::Cosmo),
        DocsRoute::ControlsRoot => DocsTarget::RedirectToControls(ControlsRoute::Html),
        DocsRoute::Controls => DocsTarget::Show(DocsSection::Controls),
        DocsRoute::LayoutRoot => DocsTarget::RedirectToLayout(LayoutRoute::Base),
        DocsRoute::Layout => DocsTarget::Show(DocsSection::Layout),
    }
}

/// The section that a route belongs to; home belongs to the first.
pub open spec fn section_of(route: DocsRoute) -> DocsSection {
    match route {
        DocsRoute::Home | DocsRoute::CosmoRoot | DocsRoute::Cosmo => DocsSection::Cosmo,
        DocsRoute::Controls | DocsRoute::ControlsRoot => DocsSection::Controls,
        DocsRoute::Layout | DocsRoute::LayoutRoot => DocsSection::Layout,
    }
}

/// Redirects come to an end and stay in their section: a redirect among the
/// top-level routes leads to a route of the same section that does not
/// redirect among them again, and a route that shows pages shows those of
/// its own section.
pub proof fn lemma_redirects_end(route: DocsRoute)
    ensures
        match spec_switch_app(route) {
            DocsTarget::RedirectToDocs(next) => section_of(next) == section_of(route) && !(
            spec_switch_app(next) is RedirectToDocs),
            DocsTarget::Show(section) => section == section_of(route),
            _ => true,
        },
{
}

/// The title of a page of the section about Cosmo.
pub open spec fn spec_cosmo_title(route: CosmoRoute) -> Seq<char> {
    match route {
        CosmoRoute::About => "About Cosmo"@,
        CosmoRoute::Typography => "Typography"@,
        CosmoRoute::Theme => "Theme"@,
        CosmoRoute::Customize => "Customize"@,
    }
}

/// The title of a page of the section about Cosmo.
pub fn switch_cosmo(route: CosmoRoute) -> (title: String)
    ensures
        title@ == spec_cosmo_title(route),
{
    String::from_str(
        match route {
            CosmoRoute::About => "About Cosmo",
            CosmoRoute::Typography => "Typography",
            CosmoRoute::Theme => "Theme",
            CosmoRoute::Customize => "Customize",
        },
    )
}

/// The title of a page of the section about controls.
pub open spec fn spec_controls_title(route: ControlsRoute) -> Seq<char> {
    match route {
        ControlsRoute::Html => "HTML Controls"@,
        ControlsRoute::Message => "Message"@,
        ControlsRoute::SideList => "Side List Control"@,
        ControlsRoute::TabControl => "Tab Control"@,
        ControlsRoute::Toolbar => "Toolbar"@,
        ControlsRoute::Dialog => "Dialogs"@,
    }
}

/// The title of a page of the section about controls.
pub fn switch_controls(route: ControlsRoute) -> (title: String)
    ensures
        title@ == spec_controls_title(route),
{
    String::from_str(
        match route {
            ControlsRoute::Html => "HTML Controls",
            ControlsRoute::Message => "Message",
            ControlsRoute::SideList => "Side List Control",
            ControlsRoute::TabControl => "Tab Control",
            ControlsRoute::Toolbar => "Toolbar",
            ControlsRoute::Dialog => "Dialogs",
        },
    )
}

/// The title of a page of the section about layout.
pub open spec fn spec_layout_title(route: LayoutRoute) -> Seq<char> {
    match route {
        LayoutRoute::Base => "Base layout and menu"@,
        LayoutRoute::Showcase => "Layout showcase"@,
    }
}

/// The title of a page of the section about layout.
pub fn switch_layout(route: LayoutRoute) -> (title: String)
    ensures
        title@ == spec_layout_title(route),
{
    String::from_str(
        match route {
            LayoutRoute::Base => "Base layout and menu",
            LayoutRoute::Showcase => "Layout showcase",
        },
    )
}

/// Whether the bottom bar is shown for a route: only in the section about
/// layout.
pub fn switch_bottom_bar(route: DocsRoute) -> (shown: bool)
    ensures
        shown == (route == DocsRoute::Layout || route == DocsRoute::LayoutRoot),
{
    match route {
        DocsRoute::Layout | DocsRoute::LayoutRoot => true,
        _ => false,
    }
}

/// Whether the entry of the main menu that is lit up by `active` is lit up
/// on `route`.
pub fn render_main_menu_entry(route: DocsRoute, active: DocsRoute) -> (is_active: bool)
    ensures
        is_active == (route == active),
{
    route == active
}

/// The numbers `1` to `size`, in order, as the side list's page keeps them
/// for its added items.
pub fn with_size(size: usize) -> (numbers: Vec<i32>)
    requires
        size <= i32::MAX,
    ensures
        numbers@.len() == size,
        forall|i: int| 0 <= i < size ==> numbers@[i] == i + 1,
{
    let mut numbers: Vec<i32> = Vec::with_capacity(size);
    let mut i: usize = 0;
    while i < size
        invariant
            size <= i32::MAX,
            i <= size,
            numbers@.len() == i,
            forall|k: int| 0 <= k < i ==> numbers@[k] == k + 1,
        decreases size - i,
    {
        numbers.push((i + 1) as i32);
        i = i + 1;
    }
    numbers
}

/// The numbers the side list's page keeps after a click on its add button:
/// one more than before.
pub fn side_list_add_item(items: &Vec<i32>) -> (grown: Vec<i32>)
    requires
        items@.len() < i32::MAX,
    ensures
        grown@.len() == items@.len() + 1,
        forall|i: int| 0 <= i < grown@.len() ==> grown@[i] == i + 1,
{
    with_size(items.len() + 1)
}

/// The number of items that the side list's page always has, before the
/// added ones.
pub const SIDE_LIST_FIXED_ITEMS: usize = 2;

/// What the side list's page keeps: the numbers of its added items, and the
/// index of the item that it shows.
#[derive(PartialEq, Eq, Debug)]
pub struct SideListPage {
    pub added: Vec<i32>,
    pub selected: usize,
}

impl Clone for SideListPage {
    fn clone(&self) -> (copy: Self)
        ensures
            copy.added@ == self.added@,
            copy.selected == self.selected,
    {
        SideListPage { added: self.added.clone(), selected: self.selected }
    }
}

impl SideListPage {
    /// The added items are numbered from one, and the page does not hold
    /// more of them than can be numbered.
    pub open spec fn wf(self) -> bool {
        &&& self.added@.len() + SIDE_LIST_FIXED_ITEMS < i32::MAX
        &&& forall|i: int| 0 <= i < self.added@.len() ==> self.added@[i] == i + 1
    }

    /// The number of items in the page's list.
    pub open spec fn item_count(self) -> int {
        SIDE_LIST_FIXED_ITEMS + self.added@.len()
    }
}

/// The side list's page as it starts: one added item, the first item shown.
pub fn side_list_page() -> (page: SideListPage)
    ensures
        page.wf(),
        page.added@ == seq![1i32],
        page.selected == 0,
{
    let added = with_size(1);
    proof {
        assert(added@ =~= seq![1i32]);
    }
    SideListPage { added, selected: 0 }
}

/// The page after a click on the add button: one more item at the end of
/// the list, and that item is the one shown.
pub fn side_list_page_add(page: &SideListPage) -> (grown: SideListPage)
    requires
        page.wf(),
        page.added@.len() + SIDE_LIST_FIXED_ITEMS + 1 < i32::MAX,
    ensures
        grown.wf(),
        grown.added@.len() == page.added@.len() + 1,
        grown.item_count() == page.item_count() + 1,
        grown.selected == grown.item_count() - 1,
{
    let added = side_list_add_item(&page.added);
    let selected = SIDE_LIST_FIXED_ITEMS + page.added.len();
    SideListPage { added, selected }
}

/// The page after a click on an item of its list: that item is shown.
pub fn side_list_page_select(page: SideListPage, idx: usize) -> (next: SideListPage)
    ensures
        next.added == page.added,
        next.selected == idx,
{
    SideListPage { added: page.added, selected: idx }
}

/// After a click on the add button the page's side list, which shows what
/// the page tells it to, shows the added item, whatever it remembers itself.
pub proof fn lemma_added_item_is_shown(page: SideListPage, grown: SideListPage, state: Option<usize>)
    requires
        grown.wf(),
        grown.item_count() == page.item_count() + 1,
        grown.selected == grown.item_count() - 1,
    ensures
        spec_shown_item(
            spec_selected_index(Some(grown.selected), state),
            grown.item_count() as usize,
        ) == Some(page.item_count() as usize),
{
}

/// The theme that the theme page's dropdown stands for: no choice is the
/// automatic theme, `dark` the dark one, anything else the light one.
pub open spec fn spec_theme_of_choice(choice: Option<Seq<char>>) -> CosmoTheme {
    match choice {
        None => CosmoTheme::Auto,
        Some(value) => if value == "dark"@ {
            CosmoTheme::Dark
        } else {
            CosmoTheme::Light
        },
    }
}

/// The theme that the theme page's dropdown stands for.
pub fn theme_of_choice(choice: Option<&str>) -> (theme: CosmoTheme)
    ensures
        theme == spec_theme_of_choice(
            match choice {
                Some(value) => Some(value@),
                None => None,
            },
        ),
{
    match choice {
        None => CosmoTheme::Auto,
        Some(value) => {
            if str_eq(value, "dark") {
                CosmoTheme::Dark
            } else {
                CosmoTheme::Light
            }
        },
    }
}

/// The choice that the theme page's dropdown shows for a theme.
pub open spec fn spec_choice_of_theme(theme: CosmoTheme) -> Option<Seq<char>> {
    match theme {
        CosmoTheme::Auto => None,
        CosmoTheme::Dark => Some("dark"@),
        CosmoTheme::Light => Some("light"@),
    }
}

/// The choice that the theme page's dropdown shows for a theme.
pub fn choice_of_theme(theme: CosmoTheme) -> (choice: Option<String>)
    ensures
        match choice {
            Some(value) => spec_choice_of_theme(theme) == Some(value@),
            None => spec_choice_of_theme(theme).is_none(),
        },
{
    match theme {
        CosmoTheme::Auto => None,
        CosmoTheme::Dark => Some(String::from_str("dark")),
        CosmoTheme::Light => Some(String::from_str("light")),
    }
}

/// Choosing what the dropdown shows for a theme gives that theme.
pub proof fn lemma_theme_choice_round_trip(theme: CosmoTheme)
    ensures
        spec_theme_of_choice(spec_choice_of_theme(theme)) == theme,
{
    reveal_strlit("dark");
    reveal_strlit("light");
    assert("dark"@[0] == 'd' && "light"@[0] == 'l');
}

/// The accent of the dialog page's dialogs for the value chosen in its
/// select.
pub fn dialog_accent(value: &str) -> (kind: CosmoModalType)
    ensures
        kind == CosmoModalType::from_name(value@),
{
    CosmoModalType::from_str(value)
}

/// Whether `value` is among `chosen`.
pub open spec fn is_chosen(chosen: Seq<String>, value: Seq<char>) -> bool {
    exists|i: int| 0 <= i < chosen.len() && (#[trigger] chosen[i])@ == value
}

/// The first position of `value` among `chosen`, if it is there.
pub fn position_of(chosen: &Vec<String>, value: &str) -> (position: Option<usize>)
    ensures
        match position {
            Some(at) => at < chosen@.len() && chosen@[at as int]@ == value@ && forall|i: int|
                0 <= i < at ==> (#[trigger] chosen@[i])@ != value@,
            None => !is_chosen(chosen@, value@),
        },
{
    let mut at: usize = 0;
    while at < chosen.len()
        invariant
            at <= chosen@.len(),
            forall|i: int| 0 <= i < at ==> (#[trigger] chosen@[i])@ != value@,
        decreases chosen@.len() - at,
    {
        if str_eq(chosen[at].as_str(), value) {
            return Some(at);
        }
        at = at + 1;
    }
    None
}

/// Whether the form page's multiple select marks the item with this value.
pub fn multiple_select_contains(chosen: &Vec<String>, value: &str) -> (marked: bool)
    ensures
        marked == is_chosen(chosen@, value@),
{
    position_of(chosen, value).is_some()
}

/// The values the form page's multiple select keeps after an item was
/// chosen: those before, then the new one.
pub fn multiple_select_select(chosen: Vec<String>, value: &str) -> (kept: Vec<String>)
    ensures
        kept@.len() == chosen@.len() + 1,
        kept@.drop_last() == chosen@,
        kept@.last()@ == value@,
{
    let mut kept = chosen;
    kept.push(String::from_str(value));
    proof {
        assert(kept@.drop_last() =~= chosen@);
    }
    kept
}

/// The values the form page's multiple select keeps after a chip was
/// closed: the first occurrence of the value gives its place to the last
/// value, and the row is one shorter. Values that were not chosen change
/// nothing.
pub fn multiple_select_deselect(chosen: Vec<String>, value: &str) -> (kept: Vec<String>)
    ensures
        !is_chosen(chosen@, value@) ==> kept@ == chosen@,
        is_chosen(chosen@, value@) ==> exists|at: int|
            0 <= at < chosen@.len() && (#[trigger] chosen@[at])@ == value@ && (forall|i: int|
                0 <= i < at ==> (#[trigger] chosen@[i])@ != value@) && kept@ == chosen@.update(
                at,
                chosen@.last(),
            ).drop_last(),
{
    let mut kept = chosen;
    match position_of(&kept, value) {
        Some(at) => {
            kept.swap_remove(at);
        },
        None => {},
    }
    kept
}

/// Choosing a value marks it, and every value that was marked stays
/// marked.
pub proof fn lemma_select_marks(chosen: Seq<String>, kept: Seq<String>, value: Seq<char>)
    requires
        kept.len() == chosen.len() + 1,
        kept.drop_last() == chosen,
        kept.last()@ == value,
    ensures
        is_chosen(kept, value),
        forall|other: Seq<char>| is_chosen(chosen, other) ==> is_chosen(kept, other),
{
    assert(kept[kept.len() - 1]@ == value);
    assert forall|other: Seq<char>| is_chosen(chosen, other) implies is_chosen(kept, other) by {
        let i = choose|i: int| 0 <= i < chosen.len() && (#[trigger] chosen[i])@ == other;
        assert(kept.drop_last()[i] == kept[i]);
        assert(kept[i]@ == other);
    }
}

/// Closing the chip of a value that was chosen exactly once leaves it
/// unmarked, and every other value marked as it was.
pub proof fn lemma_deselect_unmarks(chosen: Seq<String>, at: int, value: Seq<char>)
    requires
        0 <= at < chosen.len(),
        chosen[at]@ == value,
        forall|i: int| 0 <= i < chosen.len() && i != at ==> (#[trigger] chosen[i])@ != value,
    ensures
        !is_chosen(chosen.update(at, chosen.last()).drop_last(), value),
        forall|other: Seq<char>|
            other != value ==> (is_chosen(chosen, other) <==> is_chosen(
                chosen.update(at, chosen.last()).drop_last(),
                other,
            )),
{
    let kept = chosen.update(at, chosen.last()).drop_last();
    let top = chosen.len() - 1;
    assert forall|i: int| 0 <= i < kept.len() implies (#[trigger] kept[i])@ != value by {
        if i == at {
            assert(kept[i] == chosen[top]);
        } else {
            assert(kept[i] == chosen[i]);
        }
    }
    assert forall|other: Seq<char>| other != value implies (is_chosen(chosen, other) <==> is_chosen(
        kept,
        other,
    )) by {
        if is_chosen(chosen, other) {
            let i = choose|i: int| 0 <= i < chosen.len() && (#[trigger] chosen[i])@ == other;
            if i == top {
                assert(at < top);
                assert(kept[at] == chosen[top]);
                assert(kept[at]@ == other);
            } else {
                assert(kept[i] == chosen[i]);
                assert(kept[i]@ == other);
            }
        }
        if is_chosen(kept, other) {
            let i = choose|i: int| 0 <= i < kept.len() && (#[trigger] kept[i])@ == other;
            if i == at {
                assert(kept[i] == chosen[top]);
                assert(chosen[top]@ == other);
            } else {
                assert(kept[i] == chosen[i]);
                assert(chosen[i]@ == other);
            }
        }
    }
}

} // verus!
