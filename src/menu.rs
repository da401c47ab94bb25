use vstd::prelude::*;

use crate::keymap::Action;

verus! {

/// An icon shown beside a menu entry.
#[derive(Clone, Copy, Debug, PartialEq, Eq, Structural)]
pub enum IconName {
    Ellipsis,
    Search,
    GitHub,
}

/// One entry of a menu.
#[allow(inconsistent_fields)]
pub enum MenuNode {
    Item { label: String, action: Action, icon: Option<IconName> },
    Separator,
    /// Shows a snapshot of a boolean; activating it fires `action`, which is
    /// expected to toggle the state it reflects.
    Checkable { label: String, checked: bool, action: Action },
    Link { label: String, icon: IconName, uri: String },
    Submenu { label: String, children: MenuTree },
}

/// An ordered menu, built by appending entries in call order.
pub struct MenuTree {
    pub items: Vec<MenuNode>,
}

/// What activating an entry asks of its owner.
#[derive(Clone, Copy, Debug, PartialEq, Eq, Structural)]
pub enum MenuActivation {
    /// Dispatch this action.
    Fire(Action),
    /// Open the submenu at this index as a nested overlay.
    OpenSubmenu(usize),
    /// Open the link at this index.
    OpenLink(usize),
    /// Nothing to do: a separator, or no entry at that index.
    Nothing,
}

/// Whether keyboard navigation can land on entry `i`.
pub open spec fn selectable(items: Seq<MenuNode>, i: int) -> bool {
    !(items[i] is Separator)
}

/// `j` is the entry that moving down from `current` selects: the next
/// selectable entry after `current`, wrapping round to the first.
pub open spec fn is_next_selection(items: Seq<MenuNode>, current: Option<usize>, j: int) -> bool {
    &&& 0 <= j < items.len()
    &&& selectable(items, j)
    &&& match current {
        None => forall|k: int| 0 <= k < j ==> !#[trigger] selectable(items, k),
        Some(c) => (c < j && forall|k: int| c < k < j ==> !#[trigger] selectable(items, k)) || (
        (forall|k: int| c < k < items.len() ==> !#[trigger] selectable(items, k)) && forall|k: int|
            0 <= k < j ==> !#[trigger] selectable(items, k)),
    }
}

/// `j` is the entry that moving up from `current` selects: the previous
/// selectable entry before `current`, wrapping round to the last.
pub open spec fn is_prev_selection(items: Seq<MenuNode>, current: Option<usize>, j: int) -> bool {
    &&& 0 <= j < items.len()
    &&& selectable(items, j)
    &&& match current {
        None => forall|k: int| j < k < items.len() ==> !#[trigger] selectable(items, k),
        Some(c) => (j < c && forall|k: int| j < k < c && k < items.len() ==> !#[trigger] selectable(items, k)) || (
        (forall|k: int| 0 <= k < c && k < items.len() ==> !#[trigger] selectable(items, k))
            && forall|k: int| j < k < items.len() ==> !#[trigger] selectable(items, k)),
    }
}

impl MenuTree {
    pub fn new() -> (r: MenuTree)
        ensures
            r.items@.len() == 0,
    {
        MenuTree { items: Vec::new() }
    }

    /// Appends an action entry.
    pub fn menu(self, label: &str, action: Action) -> (r: MenuTree)
        ensures
            r.items@.len() == self.items@.len() + 1,
            forall|k: int| 0 <= k < self.items@.len() ==> #[trigger] r.items@[k] == self.items@[k],
            r.items@.last() matches MenuNode::Item { label: l, action: a, icon: i } && l@ == label@
                && a == action && i is None,
    {
        self.push(MenuNode::Item { label: String::from_str(label), action, icon: None })
    }

    /// Appends an action entry with an icon.
    pub fn menu_with_icon(self, label: &str, icon: IconName, action: Action) -> (r: MenuTree)
        ensures
            r.items@.len() == self.items@.len() + 1,
            forall|k: int| 0 <= k < self.items@.len() ==> #[trigger] r.items@[k] == self.items@[k],
            r.items@.last() matches MenuNode::Item { label: l, action: a, icon: i } && l@ == label@
                && a == action && i == Some(icon),
    {
        self.push(MenuNode::Item { label: String::from_str(label), action, icon: Some(icon) })
    }

    /// Appends a checkable entry showing `checked`.
    pub fn menu_with_check(self, label: &str, checked: bool, action: Action) -> (r: MenuTree)
        ensures
            r.items@.len() == self.items@.len() + 1,
            forall|k: int| 0 <= k < self.items@.len() ==> #[trigger] r.items@[k] == self.items@[k],
            r.items@.last() matches MenuNode::Checkable { label: l, checked: c, action: a } && l@
                == label@ && c == checked && a == action,
    {
        self.push(MenuNode::Checkable { label: String::from_str(label), checked, action })
    }

    /// Appends a link entry with an icon.
    pub fn link_with_icon(self, label: &str, icon: IconName, uri: &str) -> (r: MenuTree)
        ensures
            r.items@.len() == self.items@.len() + 1,
            forall|k: int| 0 <= k < self.items@.len() ==> #[trigger] r.items@[k] == self.items@[k],
            r.items@.last() matches MenuNode::Link { label: l, icon: i, uri: u } && l@ == label@
                && i == icon && u@ == uri@,
    {
        self.push(
            MenuNode::Link { label: String::from_str(label), icon, uri: String::from_str(uri) },
        )
    }

    /// Appends a separator.
    pub fn separator(self) -> (r: MenuTree)
        ensures
            r.items@ == self.items@.push(MenuNode::Separator),
    {
        self.push(MenuNode::Separator)
    }

    /// Appends a submenu holding the entries of `children`.
    pub fn submenu(self, label: &str, children: MenuTree) -> (r: MenuTree)
        ensures
            r.items@.len() == self.items@.len() + 1,
            forall|k: int| 0 <= k < self.items@.len() ==> #[trigger] r.items@[k] == self.items@[k],
            r.items@.last() matches MenuNode::Submenu { label: l, children: c } && l@ == label@
                && c.items@ == children.items@,
    {
        self.push(MenuNode::Submenu { label: String::from_str(label), children })
    }

    fn push(self, node: MenuNode) -> (r: MenuTree)
        ensures
            r.items@ == self.items@.push(node),
    {
        let mut items = self.items;
        items.push(node);
        MenuTree { items }
    }

    fn is_separator(&self, i: usize) -> (r: bool)
        requires
            i < self.items@.len(),
        ensures
            r == !selectable(self.items@, i as int),
    {
        match &self.items[i] {
            MenuNode::Separator => true,
            _ => false,
        }
    }

    /// The entry that moving down from `current` selects, skipping separators
    /// and wrapping round; `None` when no entry can be selected.
    pub fn select_next(&self, current: Option<usize>) -> (r: Option<usize>)
        ensures
            r is None <==> forall|k: int| 0 <= k < self.items@.len() ==> !#[trigger] selectable(
                self.items@,
                k,
            ),
            r matches Some(j) ==> is_next_selection(self.items@, current, j as int),
    {
        let n = self.items.len();
        let start: usize = match current {
            Some(c) => if c < n {
                c + 1
            } else {
                n
            },
            None => 0,
        };
        let mut i: usize = start;
        while i < n
            invariant
                start <= i <= n,
                n == self.items@.len(),
                current is None ==> start == 0,
                current matches Some(c) ==> (c < n ==> start == c + 1) && (c >= n ==> start == n),
                forall|k: int| start <= k < i ==> !#[trigger] selectable(self.items@, k),
            decreases n - i,
        {
            if !self.is_separator(i) {
                return Some(i);
            }
            i = i + 1;
        }
        let mut w: usize = 0;
        while w < n
            invariant
                w <= n,
                n == self.items@.len(),
                current is None ==> start == 0,
                current matches Some(c) ==> (c < n ==> start == c + 1) && (c >= n ==> start == n),
                forall|k: int| start <= k < n ==> !#[trigger] selectable(self.items@, k),
                forall|k: int| 0 <= k < w ==> !#[trigger] selectable(self.items@, k),
            decreases n - w,
        {
            if !self.is_separator(w) {
                return Some(w);
            }
            w = w + 1;
        }
        None
    }

    /// The entry that moving up from `current` selects, skipping separators
    /// and wrapping round; `None` when no entry can be selected.
    pub fn select_prev(&self, current: Option<usize>) -> (r: Option<usize>)
        ensures
            r is None <==> forall|k: int| 0 <= k < self.items@.len() ==> !#[trigger] selectable(
                self.items@,
                k,
            ),
            r matches Some(j) ==> is_prev_selection(self.items@, current, j as int),
    {
        let n = self.items.len();
        let end: usize = match current {
            Some(c) => if c < n {
                c
            } else {
                n
            },
            None => 0,
        };
        let mut i: usize = end;
        while i > 0
            invariant
                i <= end <= n,
                n == self.items@.len(),
                current is None ==> end == 0,
                current matches Some(c) ==> (c < n ==> end == c) && (c >= n ==> end == n),
                forall|k: int| i <= k < end ==> !#[trigger] selectable(self.items@, k),
            decreases i,
        {
            if !self.is_separator(i - 1) {
                return Some(i - 1);
            }
            i = i - 1;
        }
        let mut w: usize = n;
        while w > 0
            invariant
                w <= n,
                end <= n,
                n == self.items@.len(),
                current is None ==> end == 0,
                current matches Some(c) ==> (c < n ==> end == c) && (c >= n ==> end == n),
                forall|k: int| 0 <= k < end ==> !#[trigger] selectable(self.items@, k),
                forall|k: int| w <= k < n ==> !#[trigger] selectable(self.items@, k),
            decreases w,
        {
            if !self.is_separator(w - 1) {
                return Some(w - 1);
            }
            w = w - 1;
        }
        None
    }

    /// What activating the entry at `index` asks for: an action entry or a
    /// checkable entry fires its action, a submenu opens, a link opens.
    pub fn activate(&self, index: usize) -> (r: MenuActivation)
        ensures
            index >= self.items@.len() ==> r == MenuActivation::Nothing,
            index < self.items@.len() ==> r == match self.items@[index as int] {
                MenuNode::Item { action, .. } => MenuActivation::Fire(action),
                MenuNode::Checkable { action, .. } => MenuActivation::Fire(action),
                MenuNode::Submenu { .. } => MenuActivation::OpenSubmenu(index),
                MenuNode::Link { .. } => MenuActivation::OpenLink(index),
                MenuNode::Separator => MenuActivation::Nothing,
            },
    {
        if index >= self.items.len() {
            return MenuActivation::Nothing;
        }
        match &self.items[index] {
            MenuNode::Item { action, .. } => MenuActivation::Fire(*action),
            MenuNode::Checkable { action, .. } => MenuActivation::Fire(*action),
            MenuNode::Submenu { .. } => MenuActivation::OpenSubmenu(index),
            MenuNode::Link { .. } => MenuActivation::OpenLink(index),
            MenuNode::Separator => MenuActivation::Nothing,
        }
    }
}

} // verus!
