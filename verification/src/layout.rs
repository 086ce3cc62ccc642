//! Page layout: the default colours of a page, and what the bottom bar
//! shows.

use vstd::prelude::*;
use crate::color::{hex_value, is_hex_color, spec_parse_hex, CosmoColor};

verus! {

/// The primary colour of a page whose owner gave none, as text.
pub open spec fn spec_default_primary_color() -> Seq<char> {
    "#19324c"@
}

/// The dark primary colour of a page whose owner gave none, as text.
pub open spec fn spec_default_primary_color_dark() -> Seq<char> {
    "#0f1e2e"@
}

/// The primary colour of a page whose owner gave none, as text.
pub fn default_primary_color() -> (text: String)
    ensures
        text@ == spec_default_primary_color(),
{
    String::from_str("#19324c")
}

/// The dark primary colour of a page whose owner gave none, as text.
pub fn default_primary_color_dark() -> (text: String)
    ensures
        text@ == spec_default_primary_color_dark(),
{
    String::from_str("#0f1e2e")
}

/// The primary colour a page falls back to when the owner's text is no
/// colour.
pub fn fallback_primary_color() -> (color: CosmoColor)
    ensures
        color == (CosmoColor { red: 0x19, green: 0x32, blue: 0x4c }),
{
    CosmoColor { red: 0x19, green: 0x32, blue: 0x4c }
}

/// The dark primary colour a page falls back to when the owner's text is no
/// colour.
pub fn fallback_primary_color_dark() -> (color: CosmoColor)
    ensures
        color == (CosmoColor { red: 0x0f, green: 0x1e, blue: 0x2e }),
{
    CosmoColor { red: 0x0f, green: 0x1e, blue: 0x2e }
}

/// The colours a page falls back to are the colours that its default texts
/// stand for.
pub proof fn lemma_fallback_is_default()
    ensures
        spec_parse_hex(spec_default_primary_color()) == Some(
            CosmoColor { red: 0x19, green: 0x32, blue: 0x4c },
        ),
        spec_parse_hex(spec_default_primary_color_dark()) == Some(
            CosmoColor { red: 0x0f, green: 0x1e, blue: 0x2e },
        ),
{
    reveal_strlit("#19324c");
    reveal_strlit("#0f1e2e");
    let light = "#19324c"@;
    let dark = "#0f1e2e"@;
    assert(is_hex_color(light)) by {
        assert forall|i: int| 1 <= i < light.len() implies (#[trigger] hex_value(
            light[i],
        )).is_some() by {
            if i == 1 {
            } else if i == 2 {
            } else if i == 3 {
            } else if i == 4 {
            } else if i == 5 {
            } else {
                assert(i == 6);
            }
        }
        assert forall|i: int| 0 <= i < light.len() implies '\0' <= #[trigger] light[i]
            <= '\u{7f}' by {
            if i == 0 {
            } else if i == 1 {
            } else if i == 2 {
            } else if i == 3 {
            } else if i == 4 {
            } else if i == 5 {
            } else {
                assert(i == 6);
            }
        }
    }
    assert(is_hex_color(dark)) by {
        assert forall|i: int| 1 <= i < dark.len() implies (#[trigger] hex_value(
            dark[i],
        )).is_some() by {
            if i == 1 {
            } else if i == 2 {
            } else if i == 3 {
            } else if i == 4 {
            } else if i == 5 {
            } else {
                assert(i == 6);
            }
        }
        assert forall|i: int| 0 <= i < dark.len() implies '\0' <= #[trigger] dark[i]
            <= '\u{7f}' by {
            if i == 0 {
            } else if i == 1 {
            } else if i == 2 {
            } else if i == 3 {
            } else if i == 4 {
            } else if i == 5 {
            } else {
                assert(i == 6);
            }
        }
    }
}

/// The side of the bottom bar that a child belongs to.
#[derive(PartialEq, Eq, Structural, Clone, Copy, Debug)]
pub enum CosmoBottomBarChildren {
    CosmoBottomBarLeftItem,
    CosmoBottomBarRightItem,
}

impl CosmoBottomBarChildren {
    /// Whether this child belongs to the left side.
    pub fn is_left(&self) -> (left: bool)
        ensures
            left == (*self == CosmoBottomBarChildren::CosmoBottomBarLeftItem),
    {
        match self {
            CosmoBottomBarChildren::CosmoBottomBarLeftItem => true,
            CosmoBottomBarChildren::CosmoBottomBarRightItem => false,
        }
    }

    /// Whether this child belongs to the right side.
    pub fn is_right(&self) -> (right: bool)
        ensures
            right == (*self == CosmoBottomBarChildren::CosmoBottomBarRightItem),
    {
        match self {
            CosmoBottomBarChildren::CosmoBottomBarLeftItem => false,
            CosmoBottomBarChildren::CosmoBottomBarRightItem => true,
        }
    }
}

/// Whether the bottom bar shows a progress bar in its middle, and of which
/// kind.
#[derive(PartialEq, Eq, Structural, Clone, Copy, Debug)]
pub enum CosmoBottomBarProgressState {
    Hidden,
    Visible,
    Indeterminate,
}

impl Default for CosmoBottomBarProgressState {
    fn default() -> (state: Self)
        ensures
            state == CosmoBottomBarProgressState::Hidden,
    {
        CosmoBottomBarProgressState::Hidden
    }
}

/// What the bottom bar reads from its owner.
#[derive(PartialEq, Eq, Debug)]
pub struct CosmoBottomBarProps {
    /// The side of each child, in order.
    pub children: Vec<CosmoBottomBarChildren>,
    pub progress_state: CosmoBottomBarProgressState,
    pub progress_value: usize,
    pub progress_max: usize,
}

/// What the bottom bar draws.
#[derive(PartialEq, Eq, Structural, Clone, Copy, Debug)]
pub struct CosmoBottomBarView {
    /// The child drawn on the left, if any.
    pub left: Option<usize>,
    /// The child drawn on the right, if any.
    pub right: Option<usize>,
    /// Whether the middle holds a progress bar with its two labels.
    pub progress_shown: bool,
    /// Whether that progress bar is indeterminate.
    pub progress_indeterminate: bool,
}

/// `first` is the first child of the given side, or nothing if no child
/// belongs to it.
pub open spec fn is_first_of_side(
    first: Option<usize>,
    children: Seq<CosmoBottomBarChildren>,
    side: CosmoBottomBarChildren,
) -> bool {
    match first {
        Some(idx) => idx < children.len() && children[idx as int] == side && forall|i: int|
            0 <= i < idx ==> children[i] != side,
        None => forall|i: int| 0 <= i < children.len() ==> children[i] != side,
    }
}

/// The first child of the given side.
pub fn first_of_side(children: &Vec<CosmoBottomBarChildren>, side: CosmoBottomBarChildren) -> (first:
    Option<usize>)
    ensures
        is_first_of_side(first, children@, side),
{
    let mut idx: usize = 0;
    while idx < children.len()
        invariant
            idx <= children@.len(),
            forall|i: int| 0 <= i < idx ==> children@[i] != side,
        decreases children@.len() - idx,
    {
        if children[idx] == side {
            return Some(idx);
        }
        idx = idx + 1;
    }
    None
}

/// Draws the bottom bar: the first left child on the left, the first right
/// child on the right, further children of a side are not drawn. The middle
/// holds the progress bar unless it is hidden.
pub fn bottom_bar(props: &CosmoBottomBarProps) -> (view: CosmoBottomBarView)
    ensures
        is_first_of_side(view.left, props.children@, CosmoBottomBarChildren::CosmoBottomBarLeftItem),
        is_first_of_side(
            view.right,
            props.children@,
            CosmoBottomBarChildren::CosmoBottomBarRightItem,
        ),
        view.progress_shown == (props.progress_state != CosmoBottomBarProgressState::Hidden),
        view.progress_indeterminate == (props.progress_state
            == CosmoBottomBarProgressState::Indeterminate),
{
    let left = first_of_side(&props.children, CosmoBottomBarChildren::CosmoBottomBarLeftItem);
    let right = first_of_side(&props.children, CosmoBottomBarChildren::CosmoBottomBarRightItem);
    let progress_shown = match props.progress_state {
        CosmoBottomBarProgressState::Visible | CosmoBottomBarProgressState::Indeterminate => true,
        CosmoBottomBarProgressState::Hidden => false,
    };
    CosmoBottomBarView {
        left,
        right,
        progress_shown,
        progress_indeterminate: props.progress_state == CosmoBottomBarProgressState::Indeterminate,
    }
}

/// The two sides of a bottom bar never show the same child, and a bar with
/// children shows at least one of them.
pub proof fn lemma_sides_are_distinct(
    left: Option<usize>,
    right: Option<usize>,
    children: Seq<CosmoBottomBarChildren>,
)
    requires
        is_first_of_side(left, children, CosmoBottomBarChildren::CosmoBottomBarLeftItem),
        is_first_of_side(right, children, CosmoBottomBarChildren::CosmoBottomBarRightItem),
    ensures
        left.is_some() && right.is_some() ==> left != right,
        children.len() > 0 ==> left == Some(0usize) || right == Some(0usize),
{
    if children.len() > 0 {
        if children[0] == CosmoBottomBarChildren::CosmoBottomBarLeftItem {
            if left.is_some() && left.unwrap() > 0 {
                assert(children[0] != CosmoBottomBarChildren::CosmoBottomBarLeftItem);
            }
        } else {
            if right.is_some() && right.unwrap() > 0 {
                assert(children[0] != CosmoBottomBarChildren::CosmoBottomBarRightItem);
            }
        }
    }
}

} // verus!
