//! The abstract menu tree: leaf items with stable identifiers, predefined
//! platform items, separators, and ordered groups, composed into a tree whose
//! child order is display order.
//!
//! Well-formedness asks that item identifiers are pairwise distinct across the
//! whole tree and that no two items share an accelerator.

use vstd::prelude::*;
use crate::ids::MenuId;
use crate::ids::spec_id_str;

verus! {

/// A platform-neutral accelerator: a modifier set and a key. Translation to
/// platform key-codes is the host runtime's concern.
#[derive(Clone, Copy, Debug, PartialEq, Eq, Structural)]
pub struct Accel {
    /// The platform's primary command modifier (Cmd on mac, Ctrl elsewhere).
    pub cmd_or_ctrl: bool,
    pub shift: bool,
    pub key: char,
}

/// A standard lifecycle or editing item supplied by the host platform's own
/// menu vocabulary. These carry no identifier and never reach the dispatcher.
#[derive(Clone, Copy, Debug, PartialEq, Eq, Structural)]
pub enum PredefinedKind {
    About,
    Services,
    Hide,
    HideOthers,
    ShowAll,
    Quit,
    Undo,
    Redo,
    Cut,
    Copy,
    Paste,
    SelectAll,
}

/// A selectable leaf item. Created once at build time; immutable thereafter.
pub struct MenuItem {
    /// Unique across the whole tree; its string form is the dispatch contract.
    pub id: MenuId,
    pub label: String,
    pub enabled: bool,
    pub accel: Option<Accel>,
}

/// One entry of a group: a selectable item, a nested group, a predefined
/// platform item, or a visual separator.
pub enum MenuEntry {
    Item(MenuItem),
    Group(MenuGroup),
    Predefined { kind: PredefinedKind, title: Option<String> },
    Separator,
}

/// A submenu: a labelled, ordered sequence of entries. The order is display
/// order and is significant. Ownership makes the structure a tree: no cycles.
pub struct MenuGroup {
    pub label: String,
    pub enabled: bool,
    pub entries: Vec<MenuEntry>,
}

/// The root composite: an ordered sequence of top-level groups, built once
/// per session and then handed to the host runtime.
pub struct MenuTree {
    pub groups: Vec<MenuGroup>,
}

/// The selectable items of one entry, in display order.
pub open spec fn entry_items(e: MenuEntry) -> Seq<MenuItem>
    decreases e,
{
    match e {
        MenuEntry::Item(it) => seq![it],
        MenuEntry::Group(g) => entries_items(g.entries@),
        MenuEntry::Predefined { .. } => Seq::empty(),
        MenuEntry::Separator => Seq::empty(),
    }
}

/// The selectable items of a sequence of entries, in display order.
pub open spec fn entries_items(s: Seq<MenuEntry>) -> Seq<MenuItem>
    decreases s,
{
    if s.len() == 0 {
        Seq::empty()
    } else {
        entry_items(s[0]) + entries_items(s.drop_first())
    }
}

/// The selectable items of a sequence of groups, in display order.
pub open spec fn groups_items(s: Seq<MenuGroup>) -> Seq<MenuItem>
    decreases s,
{
    if s.len() == 0 {
        Seq::empty()
    } else {
        entries_items(s[0].entries@) + groups_items(s.drop_first())
    }
}

/// The typed identifiers of a sequence of items, in the same order.
pub open spec fn items_ids(s: Seq<MenuItem>) -> Seq<MenuId> {
    s.map_values(|it: MenuItem| it.id)
}

impl MenuTree {
    /// Every selectable item of the tree, in display order.
    pub open spec fn items(self) -> Seq<MenuItem> {
        groups_items(self.groups@)
    }

    /// The typed identifiers of the tree's items, in display order.
    pub open spec fn item_ids(self) -> Seq<MenuId> {
        items_ids(self.items())
    }

    /// Item identifiers are pairwise distinct across the whole tree.
    pub open spec fn ids_distinct(self) -> bool {
        forall|i: int, j: int|
            0 <= i < self.items().len() && 0 <= j < self.items().len() && i != j
                ==> (#[trigger] self.items()[i]).id != (#[trigger] self.items()[j]).id
    }

    /// No two items of the tree share an accelerator.
    pub open spec fn accels_distinct(self) -> bool {
        forall|i: int, j: int|
            0 <= i < self.items().len() && 0 <= j < self.items().len() && i != j
                && (#[trigger] self.items()[i]).accel is Some
                && (#[trigger] self.items()[j]).accel is Some
                ==> self.items()[i].accel != self.items()[j].accel
    }

    /// A well-formed tree: unique identifiers and unambiguous accelerators.
    pub open spec fn wf(self) -> bool {
        self.ids_distinct() && self.accels_distinct()
    }
}

/// Law: in a tree with pairwise distinct typed identifiers, the items' string
/// identifiers are pairwise distinct as well, since the string scheme is
/// injective.
pub proof fn lemma_wf_tree_id_strings_distinct(t: MenuTree, i: int, j: int)
    requires
        t.ids_distinct(),
        0 <= i < t.items().len(),
        0 <= j < t.items().len(),
        i != j,
    ensures
        spec_id_str(t.items()[i].id) != spec_id_str(t.items()[j].id),
{
    crate::ids::lemma_id_str_injective(t.items()[i].id, t.items()[j].id);
}

} // verus!
