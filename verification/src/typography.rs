//! Typography: the element and the size of a heading.

use vstd::prelude::*;

verus! {

/// The level of a heading, from the most to the least prominent.
#[derive(PartialEq, Eq, Structural, Clone, Copy, Debug)]
pub enum CosmoHeaderLevel {
    H1,
    H2,
    H3,
    H4,
    H5,
    H6,
}

impl CosmoHeaderLevel {
    /// The font size of a heading of this level.
    pub open spec fn spec_font_size(self) -> Seq<char> {
        match self {
            CosmoHeaderLevel::H1 => "32px"@,
            CosmoHeaderLevel::H2 => "28px"@,
            CosmoHeaderLevel::H3 => "24px"@,
            CosmoHeaderLevel::H4 => "22px"@,
            CosmoHeaderLevel::H5 => "20px"@,
            CosmoHeaderLevel::H6 => "16px"@,
        }
    }

    /// The element that a heading of this level is.
    pub open spec fn spec_tag(self) -> Seq<char> {
        match self {
            CosmoHeaderLevel::H1 => "h1"@,
            CosmoHeaderLevel::H2 => "h2"@,
            CosmoHeaderLevel::H3 => "h3"@,
            CosmoHeaderLevel::H4 => "h4"@,
            CosmoHeaderLevel::H5 => "h5"@,
            CosmoHeaderLevel::H6 => "h6"@,
        }
    }
}

/// What a heading draws with.
#[derive(PartialEq, Eq, Debug)]
pub struct CosmoHeaderView {
    pub font_size: String,
    pub tag: String,
}

/// The font size and the element of a heading of the given level.
pub fn header(level: CosmoHeaderLevel) -> (view: CosmoHeaderView)
    ensures
        view.font_size@ == level.spec_font_size(),
        view.tag@ == level.spec_tag(),
{
    let (font_size, tag) = match level {
        CosmoHeaderLevel::H1 => ("32px", "h1"),
        CosmoHeaderLevel::H2 => ("28px", "h2"),
        CosmoHeaderLevel::H3 => ("24px", "h3"),
        CosmoHeaderLevel::H4 => ("22px", "h4"),
        CosmoHeaderLevel::H5 => ("20px", "h5"),
        CosmoHeaderLevel::H6 => ("16px", "h6"),
    };
    CosmoHeaderView { font_size: String::from_str(font_size), tag: String::from_str(tag) }
}

} // verus!
