//! Everything a user of the widgets needs, under one name.

pub use crate::button::{
    back_button_after_click, back_button_disabled, button, use_cosmo_button_style, CosmoButtonStyle,
    CosmoButtonType, CosmoButtonView, CosmoCircleButtonSize,
};
pub use crate::color::{colorbox, parse_hex_color, rgb2hex, CosmoColor};
pub use crate::form::{
    decimal_step, dropdown, dropdown_selection, number_box, radio_group, slider, use_id,
    CosmoInputWidth, CosmoTextBoxType,
};
pub use crate::layout::{
    bottom_bar, CosmoBottomBarChildren, CosmoBottomBarProgressState, CosmoBottomBarProps,
    CosmoBottomBarView,
};
pub use crate::list::{
    side_list, side_list_click, side_list_initial_state, CosmoSideListProps, CosmoSideListView,
};
pub use crate::loader::{progress_bar, progress_ring, CosmoProgressBarProps};
pub use crate::message::{message, CosmoMessageType, CosmoMessageView};
pub use crate::modal::{
    modal, modal_host_action, CosmoAlertType, CosmoModalHostAction, CosmoModalHosts,
    CosmoModalProps, CosmoModalType, CosmoModalView,
};
pub use crate::number::{number_input, parse_i64, write_i64};
pub use crate::picker::{
    date_picker, date_picker_input, date_time_picker, date_time_picker_input, time_picker,
    time_picker_input, CosmoDate, CosmoDatePickerProps, CosmoDateTime, CosmoDateTimePickerProps,
    CosmoPickerView, CosmoTime, CosmoTimePickerProps,
};
pub use crate::select::{
    modern_select, modern_select_initial_state, modern_select_step, CosmoModernSelectAction,
    CosmoModernSelectEvent, CosmoModernSelectItem, CosmoModernSelectProps, CosmoModernSelectState,
    CosmoModernSelectView,
};
pub use crate::selection::ClickOutcome;
pub use crate::tab::{
    tab_control, tab_control_click, tab_control_initial_state, CosmoTabControlProps,
    CosmoTabControlView,
};
pub use crate::theme::CosmoTheme;
pub use crate::typography::{header, CosmoHeaderLevel, CosmoHeaderView};
