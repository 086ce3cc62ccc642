//! Form controls: the width and type of an input, its id, the step of a
//! decimal field, and which option of a dropdown or a radio group is marked.

use vstd::prelude::*;
use crate::number::{number_input, spec_parse_i64};
use crate::text::str_eq;

verus! {

/// How wide an input is drawn.
#[derive(PartialEq, Eq, Structural, Clone, Copy, Debug)]
pub enum CosmoInputWidth {
    Auto,
    Small,
    Medium,
    Large,
    Full,
}

impl Default for CosmoInputWidth {
    fn default() -> (width: Self)
        ensures
            width == CosmoInputWidth::Full,
    {
        CosmoInputWidth::Full
    }
}

impl CosmoInputWidth {
    /// The CSS width that this width stands for.
    pub open spec fn css_width(self) -> Seq<char> {
        match self {
            CosmoInputWidth::Auto => "auto"@,
            CosmoInputWidth::Small => "var(--input-width-small)"@,
            CosmoInputWidth::Medium => "var(--input-width-medium)"@,
            CosmoInputWidth::Large => "var(--input-width-large)"@,
            CosmoInputWidth::Full => "100%"@,
        }
    }

    /// The CSS width that this width stands for.
    pub fn to_string(&self) -> (width: String)
        ensures
            width@ == self.css_width(),
    {
        String::from_str(
            match self {
                CosmoInputWidth::Auto => "auto",
                CosmoInputWidth::Small => "var(--input-width-small)",
                CosmoInputWidth::Medium => "var(--input-width-medium)",
                CosmoInputWidth::Large => "var(--input-width-large)",
                CosmoInputWidth::Full => "100%",
            },
        )
    }
}

/// What a text box accepts.
#[derive(PartialEq, Eq, Structural, Clone, Copy, Debug)]
pub enum CosmoTextBoxType {
    Email,
    Password,
    Search,
    Tel,
    Text,
    Url,
}

impl Default for CosmoTextBoxType {
    fn default() -> (kind: Self)
        ensures
            kind == CosmoTextBoxType::Text,
    {
        CosmoTextBoxType::Text
    }
}

impl CosmoTextBoxType {
    /// The `type` attribute that this kind stands for.
    pub open spec fn input_type(self) -> Seq<char> {
        match self {
            CosmoTextBoxType::Email => "email"@,
            CosmoTextBoxType::Password => "password"@,
            CosmoTextBoxType::Search => "search"@,
            CosmoTextBoxType::Tel => "tel"@,
            CosmoTextBoxType::Text => "text"@,
            CosmoTextBoxType::Url => "url"@,
        }
    }

    /// The `type` attribute that this kind stands for.
    pub fn to_string(&self) -> (input_type: String)
        ensures
            input_type@ == self.input_type(),
    {
        String::from_str(
            match self {
                CosmoTextBoxType::Email => "email",
                CosmoTextBoxType::Password => "password",
                CosmoTextBoxType::Search => "search",
                CosmoTextBoxType::Tel => "tel",
                CosmoTextBoxType::Text => "text",
                CosmoTextBoxType::Url => "url",
            },
        )
    }
}

/// The length of a generated id.
pub const GENERATED_ID_LENGTH: usize = 36;

/// Calls `uuid::Uuid::new_v4` and writes the identifier out with its
/// `Display`. Which identifier comes back is left to chance; the contract
/// claims only that it is written in the hyphenated form, which has 36
/// characters.
#[verifier::external_body]
fn generated_id() -> (id: String)
    ensures
        id@.len() == GENERATED_ID_LENGTH,
{
    uuid::Uuid::new_v4().to_string()
}

/// The id of a control, given the generated id that it would fall back to:
/// the owner's id if it gave one, the generated one if not.
pub fn id_or_generated(id: Option<String>, generated: String) -> (chosen: String)
    ensures
        chosen == match id {
            Some(given) => given,
            None => generated,
        },
{
    match id {
        Some(given) => given,
        None => generated,
    }
}

/// The id that a control starts with: the owner's id if it gave one, a
/// freshly generated one if not.
pub fn use_id(id: Option<String>) -> (chosen: String)
    ensures
        id is Some ==> chosen == id->Some_0,
        id is None ==> chosen@.len() == GENERATED_ID_LENGTH,
{
    let generated = generated_id();
    id_or_generated(id, generated)
}

/// The value a number box reports after typing: the number typed, or the
/// previous value if what was typed is no number.
pub fn number_box(typed: &str, previous: i64) -> (value: i64)
    ensures
        value == match spec_parse_i64(typed@) {
            Some(number) => number,
            None => previous,
        },
{
    number_input(typed, previous)
}

/// The value a slider reports after a move: the number the browser reports,
/// or the previous value if that is no number.
pub fn slider(typed: &str, previous: i64) -> (value: i64)
    ensures
        value == match spec_parse_i64(typed@) {
            Some(number) => number,
            None => previous,
        },
{
    number_input(typed, previous)
}

/// The step of a decimal field with the given number of decimal places: a
/// one in the last place, zeros before it.
pub open spec fn spec_decimal_step(decimal_places: u8) -> Seq<char> {
    seq!['0', '.'] + Seq::new((decimal_places - 1) as nat, |i: int| '0') + seq!['1']
}

/// The `step` attribute of a decimal field. A field has at least one decimal
/// place.
pub fn decimal_step(decimal_places: u8) -> (step: String)
    requires
        decimal_places >= 1,
    ensures
        step@ == spec_decimal_step(decimal_places),
{
    proof {
        reveal_strlit("0.");
        reveal_strlit("0");
        reveal_strlit("1");
    }
    let mut step = String::from_str("0.");
    let mut written: u8 = 0;
    while written < decimal_places - 1
        invariant
            decimal_places >= 1,
            written <= decimal_places - 1,
            step@ == seq!['0', '.'] + Seq::new(written as nat, |i: int| '0'),
        decreases decimal_places - 1 - written,
    {
        let ghost before = step@;
        step.append("0");
        written = written + 1;
        proof {
            reveal_strlit("0");
            assert(step@ == before + seq!['0']);
            assert(step@ =~= seq!['0', '.'] + Seq::new(written as nat, |i: int| '0'));
        }
    }
    step.append("1");
    proof {
        assert(step@ =~= spec_decimal_step(decimal_places));
    }
    step
}

/// What a dropdown reports for the value of the chosen option: nothing for
/// the option that stands for no choice, whose value is the word `None`, and
/// the value itself for any other.
pub open spec fn spec_dropdown_selection(value: Seq<char>) -> Option<Seq<char>> {
    if value == "None"@ {
        None
    } else {
        Some(value)
    }
}

/// What a dropdown reports for the value of the chosen option.
pub fn dropdown_selection(value: &str) -> (selection: Option<String>)
    ensures
        match selection {
            Some(text) => spec_dropdown_selection(value@) == Some(text@),
            None => spec_dropdown_selection(value@).is_none(),
        },
{
    if str_eq(value, "None") {
        None
    } else {
        Some(String::from_str(value))
    }
}

/// Whether two optional texts are the same: both absent, or both present
/// with the same characters.
pub open spec fn same_choice(a: Option<String>, b: Option<String>) -> bool {
    match (a, b) {
        (Some(x), Some(y)) => x@ == y@,
        (None, None) => true,
        _ => false,
    }
}

/// Whether two optional texts are the same.
pub fn is_same_choice(a: &Option<String>, b: &Option<String>) -> (same: bool)
    ensures
        same == same_choice(*a, *b),
{
    match a {
        Some(x) => match b {
            Some(y) => str_eq(x.as_str(), y.as_str()),
            None => false,
        },
        None => b.is_none(),
    }
}

/// For each option of a dropdown, given by its id, whether it is marked as
/// selected: the options whose id is the dropdown's value.
pub fn dropdown(value: &Option<String>, ids: &Vec<Option<String>>) -> (selected: Vec<bool>)
    ensures
        selected@.len() == ids@.len(),
        forall|i: int| 0 <= i < ids@.len() ==> selected@[i] == same_choice(*value, ids@[i]),
{
    let mut selected: Vec<bool> = Vec::new();
    let mut idx: usize = 0;
    while idx < ids.len()
        invariant
            idx <= ids@.len(),
            selected@.len() == idx,
            forall|i: int| 0 <= i < idx ==> selected@[i] == same_choice(*value, ids@[i]),
        decreases ids@.len() - idx,
    {
        selected.push(is_same_choice(value, &ids[idx]));
        idx = idx + 1;
    }
    selected
}

/// For each option of a radio group, given by its value, whether it is
/// checked: the options whose value is the group's value.
pub fn radio_group(value: &str, options: &Vec<String>) -> (checked: Vec<bool>)
    ensures
        checked@.len() == options@.len(),
        forall|i: int| 0 <= i < options@.len() ==> checked@[i] == (options@[i]@ == value@),
{
    let mut checked: Vec<bool> = Vec::new();
    let mut idx: usize = 0;
    while idx < options.len()
        invariant
            idx <= options@.len(),
            checked@.len() == idx,
            forall|i: int| 0 <= i < idx ==> checked@[i] == (options@[i]@ == value@),
        decreases options@.len() - idx,
    {
        checked.push(str_eq(options[idx].as_str(), value));
        idx = idx + 1;
    }
    checked
}

/// A radio group whose options have distinct values checks at most one of
/// them.
pub proof fn lemma_at_most_one_checked(value: Seq<char>, options: Seq<String>, i: int, j: int)
    requires
        forall|a: int, b: int| 0 <= a < b < options.len() ==> options[a]@ != options[b]@,
        0 <= i < options.len(),
        0 <= j < options.len(),
        options[i]@ == value,
        options[j]@ == value,
    ensures
        i == j,
{
    if i < j {
        assert(options[i]@ != options[j]@);
    } else if j < i {
        assert(options[j]@ != options[i]@);
    }
}

} // verus!
