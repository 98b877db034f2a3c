//! The hierarchical menu model: an ordered tree, one submenu level deep,
//! of labelled items (possibly disabled) and separators. It is the pure,
//! deterministic rendering of one snapshot; the platform tray surface
//! displays it and reports clicks by item identifier.

use vstd::prelude::*;

verus! {

/// One labelled menu item. A disabled item is informational; an enabled one
/// dispatches its identifier when clicked.
#[derive(Clone, Debug, PartialEq, Eq)]
pub struct MenuEntry {
    pub id: String,
    pub label: String,
    pub disabled: bool,
}

#[verifier::ext_equal]
pub struct MenuEntryView {
    pub id: Seq<char>,
    pub label: Seq<char>,
    pub disabled: bool,
}

impl View for MenuEntry {
    type V = MenuEntryView;

    open spec fn view(&self) -> MenuEntryView {
        MenuEntryView { id: self.id@, label: self.label@, disabled: self.disabled }
    }
}

/// A node inside a resource submenu.
#[derive(Clone, Debug, PartialEq, Eq)]
pub enum SubNode {
    Entry(MenuEntry),
    Separator,
}

#[verifier::ext_equal]
pub enum SubNodeView {
    Entry(MenuEntryView),
    Separator,
}

impl View for SubNode {
    type V = SubNodeView;

    open spec fn view(&self) -> SubNodeView {
        match self {
            SubNode::Entry(e) => SubNodeView::Entry(e@),
            SubNode::Separator => SubNodeView::Separator,
        }
    }
}

/// One resource's submenu: the resource name as its label, ordered nodes
/// inside.
#[derive(Clone, Debug, PartialEq, Eq)]
pub struct Submenu {
    pub label: String,
    pub nodes: Vec<SubNode>,
}

#[verifier::ext_equal]
pub struct SubmenuView {
    pub label: Seq<char>,
    pub nodes: Seq<SubNodeView>,
}

impl View for Submenu {
    type V = SubmenuView;

    open spec fn view(&self) -> SubmenuView {
        SubmenuView { label: self.label@, nodes: self.nodes@.map_values(|n: SubNode| n@) }
    }
}

/// A top-level node: an item, a separator, or a resource submenu.
#[derive(Clone, Debug, PartialEq, Eq)]
pub enum MenuNode {
    Entry(MenuEntry),
    Separator,
    Submenu(Submenu),
}

#[verifier::ext_equal]
pub enum MenuNodeView {
    Entry(MenuEntryView),
    Separator,
    Submenu(SubmenuView),
}

impl View for MenuNode {
    type V = MenuNodeView;

    open spec fn view(&self) -> MenuNodeView {
        match self {
            MenuNode::Entry(e) => MenuNodeView::Entry(e@),
            MenuNode::Separator => MenuNodeView::Separator,
            MenuNode::Submenu(s) => MenuNodeView::Submenu(s@),
        }
    }
}

/// The whole menu: the ordered top-level nodes.
#[derive(Clone, Debug, PartialEq, Eq)]
pub struct MenuSpec {
    pub nodes: Vec<MenuNode>,
}

#[verifier::ext_equal]
pub struct MenuSpecView {
    pub nodes: Seq<MenuNodeView>,
}

impl View for MenuSpec {
    type V = MenuSpecView;

    open spec fn view(&self) -> MenuSpecView {
        MenuSpecView { nodes: self.nodes@.map_values(|n: MenuNode| n@) }
    }
}

} // verus!
