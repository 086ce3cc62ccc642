//! Modal dialogs: their accent colours, the element they are wrapped in, and
//! the host element that each dialog is mounted into.

use vstd::prelude::*;
use crate::text::str_eq;

verus! {

/// The semantic kind of a dialog, which decides its accent colours.
#[derive(PartialEq, Eq, Structural, Clone, Copy, Debug)]
pub enum CosmoModalType {
    Primary,
    Information,
    Warning,
    Positive,
    Negative,
}

/// An alert is a dialog and shares its kinds.
pub type CosmoAlertType = CosmoModalType;

impl Default for CosmoModalType {
    fn default() -> (kind: Self)
        ensures
            kind == CosmoModalType::Primary,
    {
        CosmoModalType::Primary
    }
}

impl CosmoModalType {
    /// The name of this kind, as it is written in attributes.
    pub open spec fn name(self) -> Seq<char> {
        match self {
            CosmoModalType::Primary => "primary"@,
            CosmoModalType::Information => "information"@,
            CosmoModalType::Warning => "warning"@,
            CosmoModalType::Positive => "positive"@,
            CosmoModalType::Negative => "negative"@,
        }
    }

    /// The kind that a name stands for. Any text that is not the name of
    /// another kind stands for the primary kind.
    pub open spec fn from_name(name: Seq<char>) -> Self {
        if name == "information"@ {
            CosmoModalType::Information
        } else if name == "warning"@ {
            CosmoModalType::Warning
        } else if name == "positive"@ {
            CosmoModalType::Positive
        } else if name == "negative"@ {
            CosmoModalType::Negative
        } else {
            CosmoModalType::Primary
        }
    }

    /// The accent colour of this kind.
    pub open spec fn spec_accent_color(self) -> Seq<char> {
        match self {
            CosmoModalType::Primary => "var(--primary-color)"@,
            CosmoModalType::Information => "var(--information-color)"@,
            CosmoModalType::Warning => "var(--warning-color)"@,
            CosmoModalType::Positive => "var(--positive-color)"@,
            CosmoModalType::Negative => "var(--negative-color)"@,
        }
    }

    /// The light shade of the accent colour.
    pub open spec fn spec_accent_color_light(self) -> Seq<char> {
        match self {
            CosmoModalType::Primary => "var(--primary-color-light)"@,
            CosmoModalType::Information => "var(--information-color-light)"@,
            CosmoModalType::Warning => "var(--warning-color-light)"@,
            CosmoModalType::Positive => "var(--positive-color-light)"@,
            CosmoModalType::Negative => "var(--negative-color-light)"@,
        }
    }

    /// The lightest shade of the accent colour.
    pub open spec fn spec_accent_color_lighter(self) -> Seq<char> {
        match self {
            CosmoModalType::Primary => "var(--primary-color-lighter)"@,
            CosmoModalType::Information => "var(--information-color-lighter)"@,
            CosmoModalType::Warning => "var(--warning-color-lighter)"@,
            CosmoModalType::Positive => "var(--positive-color-lighter)"@,
            CosmoModalType::Negative => "var(--negative-color-lighter)"@,
        }
    }

    /// The accent colour of this kind.
    pub fn get_modal_accent_color(&self) -> (color: String)
        ensures
            color@ == self.spec_accent_color(),
    {
        String::from_str(
            match self {
                CosmoModalType::Primary => "var(--primary-color)",
                CosmoModalType::Information => "var(--information-color)",
                CosmoModalType::Warning => "var(--warning-color)",
                CosmoModalType::Positive => "var(--positive-color)",
                CosmoModalType::Negative => "var(--negative-color)",
            },
        )
    }

    /// The light shade of the accent colour.
    pub fn get_modal_accent_color_light(&self) -> (color: String)
        ensures
            color@ == self.spec_accent_color_light(),
    {
        String::from_str(
            match self {
                CosmoModalType::Primary => "var(--primary-color-light)",
                CosmoModalType::Information => "var(--information-color-light)",
                CosmoModalType::Warning => "var(--warning-color-light)",
                CosmoModalType::Positive => "var(--positive-color-light)",
                CosmoModalType::Negative => "var(--negative-color-light)",
            },
        )
    }

    /// The lightest shade of the accent colour.
    pub fn get_modal_accent_color_lighter(&self) -> (color: String)
        ensures
            color@ == self.spec_accent_color_lighter(),
    {
        String::from_str(
            match self {
                CosmoModalType::Primary => "var(--primary-color-lighter)",
                CosmoModalType::Information => "var(--information-color-lighter)",
                CosmoModalType::Warning => "var(--warning-color-lighter)",
                CosmoModalType::Positive => "var(--positive-color-lighter)",
                CosmoModalType::Negative => "var(--negative-color-lighter)",
            },
        )
    }

    /// The name of this kind.
    pub fn to_string(&self) -> (name: String)
        ensures
            name@ == self.name(),
    {
        String::from_str(
            match self {
                CosmoModalType::Primary => "primary",
                CosmoModalType::Information => "information",
                CosmoModalType::Warning => "warning",
                CosmoModalType::Positive => "positive",
                CosmoModalType::Negative => "negative",
            },
        )
    }

    /// The kind that `name` stands for; the primary kind for any text that
    /// names no other.
    pub fn from_str(name: &str) -> (kind: Self)
        ensures
            kind == Self::from_name(name@),
    {
        if str_eq(name, "information") {
            CosmoModalType::Information
        } else if str_eq(name, "warning") {
            CosmoModalType::Warning
        } else if str_eq(name, "positive") {
            CosmoModalType::Positive
        } else if str_eq(name, "negative") {
            CosmoModalType::Negative
        } else {
            CosmoModalType::Primary
        }
    }
}

impl From<String> for CosmoModalType {
    fn from(value: String) -> (kind: Self) {
        CosmoModalType::from_str(value.as_str())
    }
}

impl vstd::std_specs::convert::FromSpecImpl<String> for CosmoModalType {
    open spec fn obeys_from_spec() -> bool {
        true
    }

    open spec fn from_spec(value: String) -> Self {
        CosmoModalType::from_name(value@)
    }
}

/// Reading back the name of a kind gives the kind.
pub proof fn lemma_name_round_trip(kind: CosmoModalType)
    ensures
        CosmoModalType::from_name(kind.name()) == kind,
{
    reveal_strlit("primary");
    reveal_strlit("information");
    reveal_strlit("warning");
    reveal_strlit("positive");
    reveal_strlit("negative");
    // The five names differ in their first two characters.
    assert("primary"@[1] == 'r' && "positive"@[1] == 'o');
    assert("information"@[0] == 'i' && "warning"@[0] == 'w' && "negative"@[0] == 'n'
        && "primary"@[0] == 'p');
}

/// What a dialog reads from its owner.
#[derive(PartialEq, Eq, Debug)]
pub struct CosmoModalProps {
    pub title: String,
    /// Whether the dialog's body is a form.
    pub is_form: bool,
    pub theme: crate::theme::CosmoTheme,
    pub modal_type: CosmoModalType,
}

/// What a dialog draws with: the element around its body, the theme class
/// and the accent colours.
#[derive(PartialEq, Eq, Debug)]
pub struct CosmoModalView {
    pub tag: String,
    pub theme_class: String,
    pub accent_color: String,
    pub accent_color_light: String,
    pub accent_color_lighter: String,
}

/// The element around a dialog's body: a form for a form dialog, a plain
/// block for any other.
pub open spec fn spec_modal_tag(is_form: bool) -> Seq<char> {
    if is_form {
        "form"@
    } else {
        "div"@
    }
}

/// Draws a dialog.
pub fn modal(props: &CosmoModalProps) -> (view: CosmoModalView)
    ensures
        view.tag@ == spec_modal_tag(props.is_form),
        view.theme_class@ == props.theme.class_name(),
        view.accent_color@ == props.modal_type.spec_accent_color(),
        view.accent_color_light@ == props.modal_type.spec_accent_color_light(),
        view.accent_color_lighter@ == props.modal_type.spec_accent_color_lighter(),
{
    let tag = if props.is_form {
        "form"
    } else {
        "div"
    };
    CosmoModalView {
        tag: String::from_str(tag),
        theme_class: props.theme.to_string(),
        accent_color: props.modal_type.get_modal_accent_color(),
        accent_color_light: props.modal_type.get_modal_accent_color_light(),
        accent_color_lighter: props.modal_type.get_modal_accent_color_lighter(),
    }
}

/// What mounting a dialog does about its host element.
#[derive(PartialEq, Eq, Structural, Clone, Copy, Debug)]
pub enum CosmoModalHostAction {
    /// The host exists already and is used again.
    Reuse,
    /// A new host is created, given the dialog's id and appended to the body.
    CreateAndAppend,
}

/// Decides what to do about the host, given whether an element with the
/// dialog's id was found in the document.
pub fn modal_host_action(host_found: bool) -> (action: CosmoModalHostAction)
    ensures
        action == if host_found {
            CosmoModalHostAction::Reuse
        } else {
            CosmoModalHostAction::CreateAndAppend
        },
{
    if host_found {
        CosmoModalHostAction::Reuse
    } else {
        CosmoModalHostAction::CreateAndAppend
    }
}

/// Whether a host with this id is among the hosts.
pub open spec fn hosts_have(ids: Seq<String>, id: Seq<char>) -> bool {
    exists|i: int| 0 <= i < ids.len() && (#[trigger] ids[i])@ == id
}

/// How mounting the dialog with this id changes the hosts: nothing changes
/// if the dialog has a host, and a host with its id is appended if not.
pub open spec fn is_mounted(before: Seq<String>, id: Seq<char>, after: Seq<String>) -> bool {
    if hosts_have(before, id) {
        after == before
    } else {
        after.len() == before.len() + 1 && after.drop_last() == before && after.last()@ == id
    }
}

/// How unmounting the dialog with this id changes the hosts: a host with its
/// id is taken out if there is one, and nothing changes if not.
pub open spec fn is_unmounted(before: Seq<String>, id: Seq<char>, after: Seq<String>) -> bool {
    if hosts_have(before, id) {
        exists|at: int|
            0 <= at < before.len() && (#[trigger] before[at])@ == id && after == before.remove(at)
    } else {
        after == before
    }
}

/// The host elements below the document body, by id, in document order.
#[derive(PartialEq, Eq, Debug)]
pub struct CosmoModalHosts {
    pub ids: Vec<String>,
}

impl CosmoModalHosts {
    /// Whether a host with this id exists.
    pub open spec fn has_host(self, id: Seq<char>) -> bool {
        hosts_have(self.ids@, id)
    }

    /// No two hosts share an id.
    pub open spec fn wf(self) -> bool {
        forall|i: int, j: int|
            0 <= i < j < self.ids@.len() ==> (#[trigger] self.ids@[i])@ != (#[trigger] self.ids@[j])@
    }

    /// A document without hosts.
    pub fn new() -> (hosts: Self)
        ensures
            hosts.wf(),
            hosts.ids@.len() == 0,
    {
        CosmoModalHosts { ids: Vec::new() }
    }

    /// The position of the host with this id, if it exists.
    pub fn find(&self, id: &str) -> (found: Option<usize>)
        ensures
            match found {
                Some(at) => at < self.ids@.len() && self.ids@[at as int]@ == id@,
                None => !self.has_host(id@),
            },
    {
        let mut at: usize = 0;
        while at < self.ids.len()
            invariant
                at <= self.ids@.len(),
                forall|i: int| 0 <= i < at ==> (#[trigger] self.ids@[i])@ != id@,
            decreases self.ids@.len() - at,
        {
            if str_eq(self.ids[at].as_str(), id) {
                return Some(at);
            }
            at = at + 1;
        }
        None
    }

    /// Mounts the dialog with this id: its host is used again if it exists
    /// and appended otherwise. Afterwards the dialog has its host, and every
    /// other dialog has what it had.
    pub fn mount(&mut self, id: &str) -> (action: CosmoModalHostAction)
        requires
            old(self).wf(),
            old(self).ids@.len() < usize::MAX,
        ensures
            final(self).wf(),
            final(self).has_host(id@),
            action == if old(self).has_host(id@) {
                CosmoModalHostAction::Reuse
            } else {
                CosmoModalHostAction::CreateAndAppend
            },
            is_mounted(old(self).ids@, id@, final(self).ids@),
    {
        let found = self.find(id);
        let action = modal_host_action(found.is_some());
        match action {
            CosmoModalHostAction::Reuse => {
                proof {
                    assert(self.ids@[found.unwrap() as int]@ == id@);
                }
            },
            CosmoModalHostAction::CreateAndAppend => {
                let ghost before = self.ids@;
                self.ids.push(String::from_str(id));
                proof {
                    assert(self.ids@.drop_last() =~= before);
                    assert(self.ids@[before.len() as int]@ == id@);
                    assert forall|i: int, j: int| 0 <= i < j < self.ids@.len() implies (
                    #[trigger] self.ids@[i])@ != (#[trigger] self.ids@[j])@ by {
                        if j < before.len() {
                            assert(before[i]@ != before[j]@);
                        } else {
                            assert(before[i]@ != id@);
                        }
                    }
                }
            },
        }
        action
    }

    /// Unmounts the dialog with this id: its host is removed if it exists.
    /// Afterwards the dialog has no host, and the other hosts are what they
    /// were, in their order.
    pub fn unmount(&mut self, id: &str)
        requires
            old(self).wf(),
        ensures
            final(self).wf(),
            !final(self).has_host(id@),
            is_unmounted(old(self).ids@, id@, final(self).ids@),
    {
        match self.find(id) {
            Some(at) => {
                let ghost before = self.ids@;
                self.ids.remove(at);
                proof {
                    assert(self.ids@ =~= before.remove(at as int));
                    assert forall|i: int, j: int| 0 <= i < j < self.ids@.len() implies (
                    #[trigger] self.ids@[i])@ != (#[trigger] self.ids@[j])@ by {
                        let bi = if i < at { i } else { i + 1 };
                        let bj = if j < at { j } else { j + 1 };
                        assert(before[bi]@ != before[bj]@);
                    }
                    assert forall|i: int| 0 <= i < self.ids@.len() implies (
                    #[trigger] self.ids@[i])@ != id@ by {
                        let bi = if i < at { i } else { i + 1 };
                        if bi < at {
                            assert(before[bi]@ != before[at as int]@);
                        } else {
                            assert(before[at as int]@ != before[bi]@);
                        }
                    }
                    assert(before[at as int]@ == id@);
                }
            },
            None => {},
        }
    }
}

/// Mounting a dialog again, as every redraw does, changes nothing.
pub proof fn lemma_mount_again(before: Seq<String>, id: Seq<char>, first: Seq<String>, second: Seq<String>)
    requires
        is_mounted(before, id, first),
        is_mounted(first, id, second),
    ensures
        second == first,
{
    if !hosts_have(before, id) {
        assert(first[first.len() - 1]@ == id);
    }
}

/// A dialog that is mounted and then unmounted leaves the hosts as they were
/// before it came.
pub proof fn lemma_mount_then_unmount(
    before: Seq<String>,
    id: Seq<char>,
    mounted: Seq<String>,
    after: Seq<String>,
)
    requires
        !hosts_have(before, id),
        is_mounted(before, id, mounted),
        is_unmounted(mounted, id, after),
    ensures
        after == before,
{
    let top = mounted.len() - 1;
    assert(mounted[top]@ == id);
    let at = choose|at: int|
        0 <= at < mounted.len() && (#[trigger] mounted[at])@ == id && after == mounted.remove(at);
    if at < top {
        assert(mounted.drop_last()[at] == mounted[at]);
        assert(before[at]@ == id);
    }
    assert(mounted.remove(top) =~= mounted.drop_last());
}

/// Among hosts with distinct ids a dialog has one host: the place of an id
/// is the only place of that id.
pub proof fn lemma_one_host_per_dialog(hosts: CosmoModalHosts, id: Seq<char>, at: int)
    requires
        hosts.wf(),
        0 <= at < hosts.ids@.len(),
        hosts.ids@[at]@ == id,
    ensures
        forall|i: int| 0 <= i < hosts.ids@.len() && (#[trigger] hosts.ids@[i])@ == id ==> i == at,
{
    assert forall|i: int| 0 <= i < hosts.ids@.len() && (#[trigger] hosts.ids@[i])@ == id implies i
        == at by {
        if i < at {
            assert(hosts.ids@[i]@ != hosts.ids@[at]@);
        } else if at < i {
            assert(hosts.ids@[at]@ != hosts.ids@[i]@);
        }
    }
}

} // verus!
