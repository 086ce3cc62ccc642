//! Buttons: the colours a button takes from its type and the style parts it
//! is assembled from.

use vstd::prelude::*;

verus! {

/// The semantic kind of a button, which decides its colours.
#[derive(PartialEq, Eq, Structural, Clone, Copy, Debug)]
pub enum CosmoButtonType {
    Default,
    Primary,
    Positive,
    Negative,
    Information,
    Warning,
}

impl Default for CosmoButtonType {
    fn default() -> (kind: Self)
        ensures
            kind == CosmoButtonType::Default,
    {
        CosmoButtonType::Default
    }
}

/// The diameter of a circle button.
#[derive(PartialEq, Eq, Structural, Clone, Copy, Debug)]
pub enum CosmoCircleButtonSize {
    Small,
    Medium,
    Large,
}

impl CosmoCircleButtonSize {
    /// The CSS variable that holds the diameter for this size.
    pub open spec fn spec_size_variable(self) -> Seq<char> {
        match self {
            CosmoCircleButtonSize::Small => "var(--button-circle-size-small)"@,
            CosmoCircleButtonSize::Medium => "var(--button-circle-size-regular)"@,
            CosmoCircleButtonSize::Large => "var(--button-circle-size-large)"@,
        }
    }

    /// The CSS variable that holds the diameter for this size.
    pub fn size_variable(&self) -> (variable: String)
        ensures
            variable@ == self.spec_size_variable(),
    {
        match self {
            CosmoCircleButtonSize::Small => String::from_str("var(--button-circle-size-small)"),
            CosmoCircleButtonSize::Medium => String::from_str("var(--button-circle-size-regular)"),
            CosmoCircleButtonSize::Large => String::from_str("var(--button-circle-size-large)"),
        }
    }
}

impl CosmoButtonType {
    /// The text colour of a button of this type.
    pub open spec fn spec_color(self) -> Seq<char> {
        match self {
            CosmoButtonType::Default => "var(--black)"@,
            _ => "var(--white)"@,
        }
    }

    /// The fill colour of a button of this type.
    pub open spec fn spec_background(self) -> Seq<char> {
        match self {
            CosmoButtonType::Default => "var(--white)"@,
            CosmoButtonType::Primary => "var(--primary-color)"@,
            CosmoButtonType::Positive => "var(--positive-color)"@,
            CosmoButtonType::Negative => "var(--negative-color)"@,
            CosmoButtonType::Information => "var(--information-color)"@,
            CosmoButtonType::Warning => "var(--warning-color)"@,
        }
    }

    /// The border colour of a button of this type. Every coloured type is
    /// bordered in its own fill colour; the default type has a grey border.
    pub open spec fn spec_border_color(self) -> Seq<char> {
        match self {
            CosmoButtonType::Default => "var(--control-border-color)"@,
            _ => self.spec_background(),
        }
    }

    /// The fill colour while the pointer is over the button.
    pub open spec fn spec_hover_color(self) -> Seq<char> {
        match self {
            CosmoButtonType::Default => "var(--control-border-color-dark)"@,
            CosmoButtonType::Primary => "var(--primary-color-dark)"@,
            CosmoButtonType::Positive => "var(--positive-color-dark)"@,
            CosmoButtonType::Negative => "var(--negative-color-dark)"@,
            CosmoButtonType::Information => "var(--information-color-dark)"@,
            CosmoButtonType::Warning => "var(--warning-color-dark)"@,
        }
    }

    /// The fill colour while the button is pressed.
    pub open spec fn spec_active_color(self) -> Seq<char> {
        match self {
            CosmoButtonType::Default => "var(--control-border-color-darker)"@,
            CosmoButtonType::Primary => "var(--primary-color-darker)"@,
            CosmoButtonType::Positive => "var(--positive-color-darker)"@,
            CosmoButtonType::Negative => "var(--negative-color-darker)"@,
            CosmoButtonType::Information => "var(--information-color-darker)"@,
            CosmoButtonType::Warning => "var(--warning-color-darker)"@,
        }
    }
}

/// What a button's style is assembled from: five colours and the three
/// optional parts that the flags switch on.
#[derive(PartialEq, Eq, Debug)]
pub struct CosmoButtonStyle {
    pub color: String,
    pub background: String,
    pub border_color: String,
    pub hover_color: String,
    pub active_color: String,
    /// The part that stretches the button over its container.
    pub full_width: bool,
    /// The part with the padding and minimum width of a rectangular button.
    pub non_circle: bool,
    /// The part that applies `color`, `background` and `border_color`.
    pub coloring: bool,
}

/// The style of a button. The colours follow the type. A button is stretched
/// only when asked, has the rectangular part unless it is a circle, and is
/// coloured unless it is a circle of the default type.
pub fn use_cosmo_button_style(
    is_full_width: bool,
    is_circle: bool,
    button_type: CosmoButtonType,
) -> (style: CosmoButtonStyle)
    ensures
        style.color@ == button_type.spec_color(),
        style.background@ == button_type.spec_background(),
        style.border_color@ == button_type.spec_border_color(),
        style.hover_color@ == button_type.spec_hover_color(),
        style.active_color@ == button_type.spec_active_color(),
        style.full_width == is_full_width,
        style.non_circle == !is_circle,
        style.coloring == !(is_circle && button_type == CosmoButtonType::Default),
{
    let (color, background, border_color, hover_color, active_color) = match button_type {
        CosmoButtonType::Default => (
            "var(--black)",
            "var(--white)",
            "var(--control-border-color)",
            "var(--control-border-color-dark)",
            "var(--control-border-color-darker)",
        ),
        CosmoButtonType::Primary => (
            "var(--white)",
            "var(--primary-color)",
            "var(--primary-color)",
            "var(--primary-color-dark)",
            "var(--primary-color-darker)",
        ),
        CosmoButtonType::Positive => (
            "var(--white)",
            "var(--positive-color)",
            "var(--positive-color)",
            "var(--positive-color-dark)",
            "var(--positive-color-darker)",
        ),
        CosmoButtonType::Negative => (
            "var(--white)",
            "var(--negative-color)",
            "var(--negative-color)",
            "var(--negative-color-dark)",
            "var(--negative-color-darker)",
        ),
        CosmoButtonType::Information => (
            "var(--white)",
            "var(--information-color)",
            "var(--information-color)",
            "var(--information-color-dark)",
            "var(--information-color-darker)",
        ),
        CosmoButtonType::Warning => (
            "var(--white)",
            "var(--warning-color)",
            "var(--warning-color)",
            "var(--warning-color-dark)",
            "var(--warning-color-darker)",
        ),
    };
    let mut full_width = true;
    if !is_full_width {
        full_width = false;
    }
    let mut non_circle = true;
    let mut coloring = true;
    if is_circle {
        non_circle = false;
    }
    if is_circle && button_type == CosmoButtonType::Default {
        coloring = false;
    }
    CosmoButtonStyle {
        color: String::from_str(color),
        background: String::from_str(background),
        border_color: String::from_str(border_color),
        hover_color: String::from_str(hover_color),
        active_color: String::from_str(active_color),
        full_width,
        non_circle,
        coloring,
    }
}

/// What a plain button renders with: its `type` attribute and whether it is
/// disabled.
#[derive(PartialEq, Eq, Debug)]
pub struct CosmoButtonView {
    pub button_type: String,
    pub disabled: bool,
}

/// The `type` attribute of a button: `submit` for a submit button, `button`
/// for any other.
pub open spec fn spec_button_type(is_submit: bool) -> Seq<char> {
    if is_submit {
        "submit"@
    } else {
        "button"@
    }
}

/// A plain button is disabled exactly when it is not enabled, and submits its
/// form exactly when asked to.
pub fn button(is_submit: bool, enabled: bool) -> (view: CosmoButtonView)
    ensures
        view.button_type@ == spec_button_type(is_submit),
        view.disabled == !enabled,
{
    let button_type = if is_submit {
        "submit"
    } else {
        "button"
    };
    CosmoButtonView { button_type: String::from_str(button_type), disabled: !enabled }
}

/// Whether the back button is disabled when it follows the router: there is
/// nowhere to go back to without a navigator or with an empty history.
pub fn back_button_disabled(has_navigator: bool, history_is_empty: bool) -> (disabled: bool)
    ensures
        disabled == (!has_navigator || history_is_empty),
{
    !has_navigator || history_is_empty
}

/// The back button's state after a click: with a navigator the click goes
/// back and the button follows the history; without one nothing happens and
/// the state stays.
pub fn back_button_after_click(
    has_navigator: bool,
    disabled: bool,
    history_is_empty_after: bool,
) -> (now_disabled: bool)
    ensures
        now_disabled == if has_navigator {
            history_is_empty_after
        } else {
            disabled
        },
{
    if has_navigator {
        history_is_empty_after
    } else {
        disabled
    }
}

} // verus!
