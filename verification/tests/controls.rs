use cosmo::button::{
    back_button_after_click, back_button_disabled, button, use_cosmo_button_style, CosmoButtonType,
    CosmoCircleButtonSize,
};
use cosmo::layout::{
    bottom_bar, default_primary_color, default_primary_color_dark, fallback_primary_color,
    fallback_primary_color_dark, first_of_side, CosmoBottomBarChildren,
    CosmoBottomBarProgressState, CosmoBottomBarProps,
};
use cosmo::loader::{progress_bar, progress_ring, CosmoProgressBarProps};
use cosmo::message::{message, CosmoMessageType};
use cosmo::modal::{
    modal, modal_host_action, CosmoAlertType, CosmoModalHostAction, CosmoModalHosts,
    CosmoModalProps, CosmoModalType,
};
use cosmo::theme::CosmoTheme;
use cosmo::typography::{header, CosmoHeaderLevel};

#[test]
fn theme_classes() {
    assert_eq!(CosmoTheme::Auto.to_string(), "");
    assert_eq!(CosmoTheme::Light.to_string(), "is--light");
    assert_eq!(CosmoTheme::Dark.to_string(), "is--dark");
    assert_eq!(CosmoTheme::default(), CosmoTheme::Auto);
}

#[test]
fn default_button_is_grey_on_white() {
    let style = use_cosmo_button_style(false, false, CosmoButtonType::Default);
    assert_eq!(style.color, "var(--black)");
    assert_eq!(style.background, "var(--white)");
    assert_eq!(style.border_color, "var(--control-border-color)");
    assert_eq!(style.hover_color, "var(--control-border-color-dark)");
    assert_eq!(style.active_color, "var(--control-border-color-darker)");
    assert!(!style.full_width);
    assert!(style.non_circle);
    assert!(style.coloring);
}

#[test]
fn coloured_buttons_take_their_colour() {
    let kinds = [
        (CosmoButtonType::Primary, "primary"),
        (CosmoButtonType::Positive, "positive"),
        (CosmoButtonType::Negative, "negative"),
        (CosmoButtonType::Information, "information"),
        (CosmoButtonType::Warning, "warning"),
    ];
    for (kind, name) in kinds {
        let style = use_cosmo_button_style(true, false, kind);
        assert_eq!(style.color, "var(--white)");
        assert_eq!(style.background, format!("var(--{name}-color)"));
        assert_eq!(style.border_color, format!("var(--{name}-color)"));
        assert_eq!(style.hover_color, format!("var(--{name}-color-dark)"));
        assert_eq!(style.active_color, format!("var(--{name}-color-darker)"));
        assert!(style.full_width);
        assert!(style.non_circle);
        assert!(style.coloring);
    }
}

#[test]
fn circle_button_of_default_type_is_not_coloured() {
    let plain = use_cosmo_button_style(false, true, CosmoButtonType::Default);
    assert!(!plain.non_circle);
    assert!(!plain.coloring);
    let primary = use_cosmo_button_style(false, true, CosmoButtonType::Primary);
    assert!(!primary.non_circle);
    assert!(primary.coloring);
}

#[test]
fn circle_button_sizes() {
    assert_eq!(CosmoCircleButtonSize::Small.size_variable(), "var(--button-circle-size-small)");
    assert_eq!(CosmoCircleButtonSize::Medium.size_variable(), "var(--button-circle-size-regular)");
    assert_eq!(CosmoCircleButtonSize::Large.size_variable(), "var(--button-circle-size-large)");
}

#[test]
fn button_type_and_disabled() {
    let submit = button(true, true);
    assert_eq!(submit.button_type, "submit");
    assert!(!submit.disabled);
    let plain = button(false, false);
    assert_eq!(plain.button_type, "button");
    assert!(plain.disabled);
    assert_eq!(CosmoButtonType::default(), CosmoButtonType::Default);
}

#[test]
fn back_button_follows_the_history() {
    assert!(back_button_disabled(false, false));
    assert!(back_button_disabled(true, true));
    assert!(!back_button_disabled(true, false));
    assert!(back_button_after_click(true, false, true));
    assert!(!back_button_after_click(true, true, false));
    assert!(back_button_after_click(false, true, false));
    assert!(!back_button_after_click(false, false, true));
}

#[test]
fn modal_type_colours_and_names() {
    let kinds = [
        (CosmoModalType::Primary, "primary"),
        (CosmoModalType::Information, "information"),
        (CosmoModalType::Warning, "warning"),
        (CosmoModalType::Positive, "positive"),
        (CosmoModalType::Negative, "negative"),
    ];
    for (kind, name) in kinds {
        assert_eq!(kind.to_string(), name);
        assert_eq!(kind.get_modal_accent_color(), format!("var(--{name}-color)"));
        assert_eq!(kind.get_modal_accent_color_light(), format!("var(--{name}-color-light)"));
        assert_eq!(kind.get_modal_accent_color_lighter(), format!("var(--{name}-color-lighter)"));
        assert_eq!(CosmoModalType::from(name.to_string()), kind);
        assert_eq!(CosmoModalType::from_str(name), kind);
    }
}

#[test]
fn unknown_modal_type_names_are_primary() {
    assert_eq!(CosmoModalType::from(String::from("")), CosmoModalType::Primary);
    assert_eq!(CosmoModalType::from(String::from("Warning")), CosmoModalType::Primary);
    assert_eq!(CosmoModalType::from(String::from("danger")), CosmoModalType::Primary);
    assert_eq!(CosmoModalType::default(), CosmoModalType::Primary);
    let alert: CosmoAlertType = CosmoModalType::Negative;
    assert_eq!(alert.to_string(), "negative");
}

#[test]
fn modal_is_a_form_only_when_asked() {
    let props = CosmoModalProps {
        title: String::from("Title"),
        is_form: true,
        theme: CosmoTheme::Dark,
        modal_type: CosmoModalType::Warning,
    };
    let view = modal(&props);
    assert_eq!(view.tag, "form");
    assert_eq!(view.theme_class, "is--dark");
    assert_eq!(view.accent_color, "var(--warning-color)");
    assert_eq!(view.accent_color_light, "var(--warning-color-light)");
    assert_eq!(view.accent_color_lighter, "var(--warning-color-lighter)");
    let plain = modal(&CosmoModalProps {
        title: String::from("Title"),
        is_form: false,
        theme: CosmoTheme::Auto,
        modal_type: CosmoModalType::Primary,
    });
    assert_eq!(plain.tag, "div");
    assert_eq!(plain.theme_class, "");
}

#[test]
fn modal_host_is_created_once() {
    assert_eq!(modal_host_action(true), CosmoModalHostAction::Reuse);
    assert_eq!(modal_host_action(false), CosmoModalHostAction::CreateAndAppend);
    let mut hosts = CosmoModalHosts::new();
    assert_eq!(hosts.find("a"), None);
    assert_eq!(hosts.mount("a"), CosmoModalHostAction::CreateAndAppend);
    assert_eq!(hosts.mount("a"), CosmoModalHostAction::Reuse);
    assert_eq!(hosts.mount("a"), CosmoModalHostAction::Reuse);
    assert_eq!(hosts.ids, vec![String::from("a")]);
    assert_eq!(hosts.mount("b"), CosmoModalHostAction::CreateAndAppend);
    assert_eq!(hosts.mount("c"), CosmoModalHostAction::CreateAndAppend);
    assert_eq!(hosts.ids, vec![String::from("a"), String::from("b"), String::from("c")]);
    assert_eq!(hosts.find("b"), Some(1));
}

#[test]
fn modal_host_is_removed_on_unmount() {
    let mut hosts = CosmoModalHosts::new();
    hosts.mount("a");
    hosts.mount("b");
    hosts.mount("c");
    hosts.unmount("b");
    assert_eq!(hosts.ids, vec![String::from("a"), String::from("c")]);
    hosts.unmount("b");
    assert_eq!(hosts.ids, vec![String::from("a"), String::from("c")]);
    hosts.unmount("a");
    hosts.unmount("c");
    assert!(hosts.ids.is_empty());
    assert_eq!(hosts.mount("b"), CosmoModalHostAction::CreateAndAppend);
    assert_eq!(hosts.ids, vec![String::from("b")]);
}

#[test]
fn message_type_colours() {
    let kinds = [
        (CosmoMessageType::Information, "information"),
        (CosmoMessageType::Warning, "warning"),
        (CosmoMessageType::Positive, "positive"),
        (CosmoMessageType::Negative, "negative"),
    ];
    for (kind, name) in kinds {
        assert_eq!(kind.get_background(), format!("var(--{name}-color-alpha-25)"));
        assert_eq!(kind.get_border(), format!("var(--{name}-color)"));
        assert_eq!(kind.get_message_accent_color(), format!("var(--{name}-color)"));
        assert_eq!(kind.get_message_accent_color_light(), format!("var(--{name}-color-light)"));
        assert_eq!(kind.get_message_accent_color_lighter(), format!("var(--{name}-color-lighter)"));
    }
    assert_eq!(CosmoMessageType::default(), CosmoMessageType::Information);
}

#[test]
fn message_frame() {
    let frame = message(CosmoMessageType::Warning);
    assert_eq!(frame.background, "var(--warning-color-alpha-25)");
    assert_eq!(frame.border_color, "var(--warning-color)");
    let positive = message(CosmoMessageType::Positive);
    assert_eq!(positive.background, "var(--positive-color-alpha-25)");
    assert_eq!(positive.border_color, "var(--positive-color)");
}

#[test]
fn header_levels() {
    let levels = [
        (CosmoHeaderLevel::H1, "32px", "h1"),
        (CosmoHeaderLevel::H2, "28px", "h2"),
        (CosmoHeaderLevel::H3, "24px", "h3"),
        (CosmoHeaderLevel::H4, "22px", "h4"),
        (CosmoHeaderLevel::H5, "20px", "h5"),
        (CosmoHeaderLevel::H6, "16px", "h6"),
    ];
    for (level, size, tag) in levels {
        let view = header(level);
        assert_eq!(view.font_size, size);
        assert_eq!(view.tag, tag);
    }
}

#[test]
fn progress_bar_attributes() {
    assert_eq!(CosmoProgressBarProps::default().max, 100);
    assert_eq!(CosmoProgressBarProps::default().value, 0);
    assert!(!CosmoProgressBarProps::default().is_indeterminate);
    assert_eq!(progress_bar(&CosmoProgressBarProps::default()), Some((0, 100)));
    assert_eq!(
        progress_bar(&CosmoProgressBarProps { is_indeterminate: false, value: 7, max: 9 }),
        Some((7, 9))
    );
    assert_eq!(
        progress_bar(&CosmoProgressBarProps { is_indeterminate: true, value: 7, max: 9 }),
        None
    );
    assert_eq!(progress_ring(), vec![0, 1, 2, 3, 4, 5]);
}

#[test]
fn page_default_colours() {
    assert_eq!(default_primary_color(), "#19324c");
    assert_eq!(default_primary_color_dark(), "#0f1e2e");
    assert_eq!(cosmo::color::parse_hex_color(&default_primary_color()), Some(fallback_primary_color()));
    assert_eq!(
        cosmo::color::parse_hex_color(&default_primary_color_dark()),
        Some(fallback_primary_color_dark())
    );
    assert_eq!(cosmo::color::rgb2hex(fallback_primary_color()), default_primary_color());
    assert_eq!(cosmo::color::rgb2hex(fallback_primary_color_dark()), default_primary_color_dark());
}

#[test]
fn bottom_bar_takes_the_first_child_of_each_side() {
    let left = CosmoBottomBarChildren::CosmoBottomBarLeftItem;
    let right = CosmoBottomBarChildren::CosmoBottomBarRightItem;
    assert!(left.is_left() && !left.is_right());
    assert!(right.is_right() && !right.is_left());
    let props = CosmoBottomBarProps {
        children: vec![right, left, left, right],
        progress_state: CosmoBottomBarProgressState::Indeterminate,
        progress_value: 0,
        progress_max: 0,
    };
    let view = bottom_bar(&props);
    assert_eq!(view.left, Some(1));
    assert_eq!(view.right, Some(0));
    assert!(view.progress_shown);
    assert!(view.progress_indeterminate);
    assert_eq!(first_of_side(&props.children, left), Some(1));
}

#[test]
fn bottom_bar_without_children_or_progress() {
    let props = CosmoBottomBarProps {
        children: vec![],
        progress_state: CosmoBottomBarProgressState::default(),
        progress_value: 3,
        progress_max: 4,
    };
    let view = bottom_bar(&props);
    assert_eq!(view.left, None);
    assert_eq!(view.right, None);
    assert!(!view.progress_shown);
    assert!(!view.progress_indeterminate);
    let visible = bottom_bar(&CosmoBottomBarProps {
        children: vec![CosmoBottomBarChildren::CosmoBottomBarLeftItem],
        progress_state: CosmoBottomBarProgressState::Visible,
        progress_value: 3,
        progress_max: 4,
    });
    assert_eq!(visible.left, Some(0));
    assert_eq!(visible.right, None);
    assert!(visible.progress_shown);
    assert!(!visible.progress_indeterminate);
}

#[test]
fn prelude_names_the_widgets() {
    assert_eq!(cosmo::prelude::CosmoTheme::Dark.to_string(), "is--dark");
    assert_eq!(cosmo::prelude::CosmoInputWidth::Auto.to_string(), "auto");
    assert!(cosmo::prelude::button(false, false).disabled);
    assert_eq!(cosmo::prelude::rgb2hex(cosmo::prelude::CosmoColor { red: 1, green: 2, blue: 3 }), "#010203");
}
