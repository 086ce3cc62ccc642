//! Cosmo: the rules behind a small design system of UI widgets.
//!
//! Every decision a widget takes before it renders (which class it carries,
//! which item is selected, what a typed value parses to) is a function here,
//! stated over plain values and proved against its contract.

pub mod button;
pub mod color;
pub mod docs;
pub mod form;
pub mod layout;
pub mod list;
pub mod loader;
pub mod message;
pub mod modal;
pub mod number;
pub mod picker;
pub mod prelude;
pub mod routing;
pub mod select;
pub mod selection;
pub mod tab;
pub mod text;
pub mod theme;
pub mod typography;
