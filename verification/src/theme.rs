//! The colour theme a page or a dialog is forced into.

use vstd::prelude::*;

verus! {

/// The theme of a page or dialog. `Auto` follows the browser's preference.
#[derive(PartialEq, Eq, Structural, Clone, Copy, Debug)]
pub enum CosmoTheme {
    Auto,
    Light,
    Dark,
}

impl CosmoTheme {
    /// The CSS class that forces this theme, as a sequence of characters.
    pub open spec fn class_name(self) -> Seq<char> {
        match self {
            CosmoTheme::Auto => ""@,
            CosmoTheme::Light => "is--light"@,
            CosmoTheme::Dark => "is--dark"@,
        }
    }

    /// The CSS class that forces this theme; empty for `Auto`.
    pub fn to_string(&self) -> (class: String)
        ensures
            class@ == self.class_name(),
    {
        match self {
            CosmoTheme::Auto => String::from_str(""),
            CosmoTheme::Light => String::from_str("is--light"),
            CosmoTheme::Dark => String::from_str("is--dark"),
        }
    }
}

impl Default for CosmoTheme {
    fn default() -> (theme: Self)
        ensures
            theme == CosmoTheme::Auto,
    {
        CosmoTheme::Auto
    }
}

} // verus!
