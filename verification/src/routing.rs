//! The routes of the documentation site and the path of each.

use vstd::prelude::*;

verus! {

/// The top-level routes: the three sections, each with its root, and home.
#[derive(PartialEq, Eq, Structural, Clone, Copy, Debug)]
pub enum DocsRoute {
    Home,
    CosmoRoot,
    Cosmo,
    ControlsRoot,
    Controls,
    LayoutRoot,
    Layout,
}

/// The pages of the section about Cosmo itself.
#[derive(PartialEq, Eq, Structural, Clone, Copy, Debug)]
pub enum CosmoRoute {
    About,
    Typography,
    Theme,
    Customize,
}

/// The pages of the section about controls.
#[derive(PartialEq, Eq, Structural, Clone, Copy, Debug)]
pub enum ControlsRoute {
    Html,
    Message,
    SideList,
    TabControl,
    Toolbar,
    Dialog,
}

/// The pages of the section about layout.
#[derive(PartialEq, Eq, Structural, Clone, Copy, Debug)]
pub enum LayoutRoute {
    Base,
    Showcase,
}

impl DocsRoute {
    /// The path of this route. The routes `Cosmo`, `Controls` and `Layout`
    /// stand for everything below their section.
    pub open spec fn path(self) -> Seq<char> {
        match self {
            DocsRoute::Home => "/"@,
            DocsRoute::CosmoRoot => "/cosmo"@,
            DocsRoute::Cosmo => "/cosmo/*"@,
            DocsRoute::ControlsRoot => "/controls"@,
            DocsRoute::Controls => "/controls/*"@,
            DocsRoute::LayoutRoot => "/layout"@,
            DocsRoute::Layout => "/layout/*"@,
        }
    }

    /// The path of this route.
    pub fn to_path(&self) -> (path: String)
        ensures
            path@ == self.path(),
    {
        String::from_str(
            match self {
                DocsRoute::Home => "/",
                DocsRoute::CosmoRoot => "/cosmo",
                DocsRoute::Cosmo => "/cosmo/*",
                DocsRoute::ControlsRoot => "/controls",
                DocsRoute::Controls => "/controls/*",
                DocsRoute::LayoutRoot => "/layout",
                DocsRoute::Layout => "/layout/*",
            },
        )
    }

    /// The route that a path without a route of its own leads to.
    pub fn not_found_route() -> (route: Self)
        ensures
            route == DocsRoute::Home,
    {
        DocsRoute::Home
    }
}

impl CosmoRoute {
    /// The path of this page.
    pub open spec fn path(self) -> Seq<char> {
        match self {
            CosmoRoute::About => "/cosmo/about"@,
            CosmoRoute::Typography => "/cosmo/typography"@,
            CosmoRoute::Theme => "/cosmo/theme"@,
            CosmoRoute::Customize => "/cosmo/customize"@,
        }
    }

    /// The path of this page.
    pub fn to_path(&self) -> (path: String)
        ensures
            path@ == self.path(),
    {
        String::from_str(
            match self {
                CosmoRoute::About => "/cosmo/about",
                CosmoRoute::Typography => "/cosmo/typography",
                CosmoRoute::Theme => "/cosmo/theme",
                CosmoRoute::Customize => "/cosmo/customize",
            },
        )
    }
}

impl ControlsRoute {
    /// The path of this page.
    pub open spec fn path(self) -> Seq<char> {
        match self {
            ControlsRoute::Html => "/controls/html"@,
            ControlsRoute::Message => "/controls/message"@,
            ControlsRoute::SideList => "/controls/side-list"@,
            ControlsRoute::TabControl => "/controls/tab-control"@,
            ControlsRoute::Toolbar => "/controls/toolbar"@,
            ControlsRoute::Dialog => "/controls/dialog"@,
        }
    }

    /// The path of this page.
    pub fn to_path(&self) -> (path: String)
        ensures
            path@ == self.path(),
    {
        String::from_str(
            match self {
                ControlsRoute::Html => "/controls/html",
                ControlsRoute::Message => "/controls/message",
                ControlsRoute::SideList => "/controls/side-list",
                ControlsRoute::TabControl => "/controls/tab-control",
                ControlsRoute::Toolbar => "/controls/toolbar",
                ControlsRoute::Dialog => "/controls/dialog",
            },
        )
    }
}

impl LayoutRoute {
    /// The path of this page.
    pub open spec fn path(self) -> Seq<char> {
        match self {
            LayoutRoute::Base => "/layout/base"@,
            LayoutRoute::Showcase => "/layout/showcase"@,
        }
    }

    /// The path of this page.
    pub fn to_path(&self) -> (path: String)
        ensures
            path@ == self.path(),
    {
        String::from_str(
            match self {
                LayoutRoute::Base => "/layout/base",
                LayoutRoute::Showcase => "/layout/showcase",
            },
        )
    }
}

} // verus!
