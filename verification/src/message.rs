//! Inline messages: the colours a message takes from its type.

use vstd::prelude::*;

verus! {

/// The semantic kind of a message.
#[derive(PartialEq, Eq, Structural, Clone, Copy, Debug)]
pub enum CosmoMessageType {
    Information,
    Warning,
    Positive,
    Negative,
}

impl Default for CosmoMessageType {
    fn default() -> (kind: Self)
        ensures
            kind == CosmoMessageType::Information,
    {
        CosmoMessageType::Information
    }
}

impl CosmoMessageType {
    /// The translucent fill behind a message of this kind.
    pub open spec fn spec_background(self) -> Seq<char> {
        match self {
            CosmoMessageType::Information => "var(--information-color-alpha-25)"@,
            CosmoMessageType::Warning => "var(--warning-color-alpha-25)"@,
            CosmoMessageType::Positive => "var(--positive-color-alpha-25)"@,
            CosmoMessageType::Negative => "var(--negative-color-alpha-25)"@,
        }
    }

    /// The accent colour of this kind; it is also the border colour.
    pub open spec fn spec_accent_color(self) -> Seq<char> {
        match self {
            CosmoMessageType::Information => "var(--information-color)"@,
            CosmoMessageType::Warning => "var(--warning-color)"@,
            CosmoMessageType::Positive => "var(--positive-color)"@,
            CosmoMessageType::Negative => "var(--negative-color)"@,
        }
    }

    /// The light shade of the accent colour.
    pub open spec fn spec_accent_color_light(self) -> Seq<char> {
        match self {
            CosmoMessageType::Information => "var(--information-color-light)"@,
            CosmoMessageType::Warning => "var(--warning-color-light)"@,
            CosmoMessageType::Positive => "var(--positive-color-light)"@,
            CosmoMessageType::Negative => "var(--negative-color-light)"@,
        }
    }

    /// The lightest shade of the accent colour.
    pub open spec fn spec_accent_color_lighter(self) -> Seq<char> {
        match self {
            CosmoMessageType::Information => "var(--information-color-lighter)"@,
            CosmoMessageType::Warning => "var(--warning-color-lighter)"@,
            CosmoMessageType::Positive => "var(--positive-color-lighter)"@,
            CosmoMessageType::Negative => "var(--negative-color-lighter)"@,
        }
    }

    /// The translucent fill behind a message of this kind.
    pub fn get_background(&self) -> (color: String)
        ensures
            color@ == self.spec_background(),
    {
        String::from_str(
            match self {
                CosmoMessageType::Information => "var(--information-color-alpha-25)",
                CosmoMessageType::Warning => "var(--warning-color-alpha-25)",
                CosmoMessageType::Positive => "var(--positive-color-alpha-25)",
                CosmoMessageType::Negative => "var(--negative-color-alpha-25)",
            },
        )
    }

    /// The border colour of a message of this kind: its accent colour.
    pub fn get_border(&self) -> (color: String)
        ensures
            color@ == self.spec_accent_color(),
    {
        self.get_message_accent_color()
    }

    /// The accent colour of this kind.
    pub fn get_message_accent_color(&self) -> (color: String)
        ensures
            color@ == self.spec_accent_color(),
    {
        String::from_str(
            match self {
                CosmoMessageType::Information => "var(--information-color)",
                CosmoMessageType::Warning => "var(--warning-color)",
                CosmoMessageType::Positive => "var(--positive-color)",
                CosmoMessageType::Negative => "var(--negative-color)",
            },
        )
    }

    /// The light shade of the accent colour.
    pub fn get_message_accent_color_light(&self) -> (color: String)
        ensures
            color@ == self.spec_accent_color_light(),
    {
        String::from_str(
            match self {
                CosmoMessageType::Information => "var(--information-color-light)",
                CosmoMessageType::Warning => "var(--warning-color-light)",
                CosmoMessageType::Positive => "var(--positive-color-light)",
                CosmoMessageType::Negative => "var(--negative-color-light)",
            },
        )
    }

    /// The lightest shade of the accent colour.
    pub fn get_message_accent_color_lighter(&self) -> (color: String)
        ensures
            color@ == self.spec_accent_color_lighter(),
    {
        String::from_str(
            match self {
                CosmoMessageType::Information => "var(--information-color-lighter)",
                CosmoMessageType::Warning => "var(--warning-color-lighter)",
                CosmoMessageType::Positive => "var(--positive-color-lighter)",
                CosmoMessageType::Negative => "var(--negative-color-lighter)",
            },
        )
    }
}

/// The two colours a message is framed with.
#[derive(PartialEq, Eq, Debug)]
pub struct CosmoMessageView {
    pub background: String,
    pub border_color: String,
}

/// The frame of a message: the translucent fill of its type, bordered in
/// the type's accent colour.
pub fn message(message_type: CosmoMessageType) -> (view: CosmoMessageView)
    ensures
        view.background@ == message_type.spec_background(),
        view.border_color@ == message_type.spec_accent_color(),
{
    CosmoMessageView {
        background: message_type.get_background(),
        border_color: message_type.get_border(),
    }
}

} // verus!
