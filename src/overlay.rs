use vstd::prelude::*;

use crate::anchor::{
    pointer_placement,
    pointer_placement_spec,
    resolve,
    submenu_placement,
    submenu_placement_spec,
    resolve_spec,
    AnchorCorner,
    Placement,
};
use crate::geometry::{Point, Rect, Size};

verus! {

#[derive(Clone, Copy, Debug, PartialEq, Eq, Structural)]
pub enum MouseButton {
    Left,
    Right,
}

/// Whether an overlay is presented. Opening and closing complete within the
/// call that starts them, so an overlay is observed only in these two states.
#[derive(Clone, Copy, Debug, PartialEq, Eq, Structural)]
pub enum OverlayState {
    Closed,
    Open,
}

/// Where an overlay's content comes from. The manager only carries this tag:
/// a builder is run by the owner on each open, and a stateful view is owned
/// elsewhere and reused, so closing never tears it down.
#[derive(Clone, Copy, Debug, PartialEq, Eq, Structural)]
pub enum ContentProvider {
    Builder(u64),
    View(u64),
}

/// How an overlay is anchored and triggered.
#[derive(Clone, Copy, Debug, PartialEq, Eq, Structural)]
pub struct OverlayConfig {
    pub corner: AnchorCorner,
    pub button: MouseButton,
    pub window_embedded: bool,
}

impl OverlayConfig {
    /// Anchored top-left, opened by the left button, floating.
    pub fn new() -> (r: OverlayConfig)
        ensures
            r == (OverlayConfig {
                corner: AnchorCorner::TopLeft,
                button: MouseButton::Left,
                window_embedded: false,
            }),
    {
        OverlayConfig {
            corner: AnchorCorner::TopLeft,
            button: MouseButton::Left,
            window_embedded: false,
        }
    }
}

/// One overlay in the arena. `parent` is the index of the overlay it is a
/// submenu of; `trigger` is the id of the element that opens it, looked up
/// afresh whenever it opens.
#[derive(Clone, Copy, Debug, PartialEq, Eq, Structural)]
pub struct Overlay {
    pub parent: Option<usize>,
    pub trigger: u64,
    pub config: OverlayConfig,
    pub content: ContentProvider,
    pub state: OverlayState,
    pub placement: Option<Placement>,
}

/// Overlay `i` is `root` or lies under it, through any number of parents.
pub open spec fn descends(s: Seq<Overlay>, i: int, root: int) -> bool
    decreases i,
{
    if i == root {
        true
    } else if 0 <= i < s.len() {
        match s[i].parent {
            Some(p) => if (p as int) < i {
                descends(s, p as int, root)
            } else {
                false
            },
            None => false,
        }
    } else {
        false
    }
}

pub open spec fn is_open(s: Seq<Overlay>, i: int) -> bool {
    s[i].state == OverlayState::Open
}

pub open spec fn is_top_level(s: Seq<Overlay>, i: int) -> bool {
    s[i].parent is None
}

pub open spec fn closed(o: Overlay) -> Overlay {
    Overlay { state: OverlayState::Closed, placement: None, ..o }
}

pub open spec fn opened(o: Overlay, placement: Placement) -> Overlay {
    Overlay { state: OverlayState::Open, placement: Some(placement), ..o }
}

pub open spec fn with_embedded(o: Overlay, embedded: bool) -> Overlay {
    Overlay { config: OverlayConfig { window_embedded: embedded, ..o.config }, ..o }
}

/// The arena after closing `id`: it and everything under it are closed.
pub open spec fn after_close(s: Seq<Overlay>, id: int) -> Seq<Overlay> {
    Seq::new(s.len(), |i: int| if descends(s, i, id) { closed(s[i]) } else { s[i] })
}

/// The arena after opening the closed overlay `id` at `placement`. A
/// top-level overlay first closes every other overlay; a submenu opens only
/// under an open parent.
pub open spec fn after_open(s: Seq<Overlay>, id: int, placement: Placement) -> Seq<Overlay> {
    if !(0 <= id < s.len()) || is_open(s, id) {
        s
    } else {
        match s[id].parent {
            None => Seq::new(
                s.len(),
                |i: int| if i == id { opened(s[i], placement) } else { closed(s[i]) },
            ),
            Some(p) => if is_open(s, p as int) {
                s.update(id, opened(s[id], placement))
            } else {
                s
            },
        }
    }
}

/// The placement an overlay gets when `button` opens it: a right-button
/// overlay goes to the pointer, any other to its trigger's anchor corner.
pub open spec fn click_placement(
    config: OverlayConfig,
    pointer: Point,
    trigger: Option<Rect>,
    surface: Size,
) -> Placement {
    if config.button == MouseButton::Right {
        pointer_placement_spec(pointer, config.window_embedded)
    } else {
        resolve_spec(trigger, config.corner, surface, config.window_embedded)
    }
}

/// The floating surfaces of one window and their open/close lifecycle.
pub struct OverlayManager {
    overlays: Vec<Overlay>,
}

impl View for OverlayManager {
    type V = Seq<Overlay>;

    closed spec fn view(&self) -> Seq<Overlay> {
        self.overlays@
    }
}

impl OverlayManager {
    /// Parents come before their submenus, so the tree has no cycle; an open
    /// submenu has an open parent; at most one top-level overlay is open.
    pub open spec fn wf(&self) -> bool {
        &&& forall|i: int|
            0 <= i < self@.len() ==> (#[trigger] self@[i].parent matches Some(p) ==> (p as int)
                < i)
        &&& forall|i: int|
            0 <= i < self@.len() && #[trigger] is_open(self@, i) && self@[i].parent is Some
                ==> is_open(self@, self@[i].parent->0 as int)
        &&& forall|i: int, j: int|
            0 <= i < self@.len() && 0 <= j < self@.len() && #[trigger] is_open(self@, i)
                && #[trigger] is_open(self@, j) && is_top_level(self@, i) && is_top_level(
                self@,
                j,
            ) ==> i == j
    }

    pub fn new() -> (r: OverlayManager)
        ensures
            r.wf(),
            r@.len() == 0,
    {
        OverlayManager { overlays: Vec::new() }
    }

    pub fn len(&self) -> (r: usize)
        ensures
            r == self@.len(),
    {
        self.overlays.len()
    }

    /// Declares a closed overlay, as a submenu of `parent` when given, and
    /// returns its id; `None` when `parent` is not a declared overlay.
    pub fn add(
        &mut self,
        config: OverlayConfig,
        trigger: u64,
        content: ContentProvider,
        parent: Option<usize>,
    ) -> (r: Option<usize>)
        requires
            old(self).wf(),
            old(self)@.len() < usize::MAX,
        ensures
            final(self).wf(),
            (parent matches Some(p) && p >= old(self)@.len()) ==> r is None && final(self)@ == old(self)@,
            !(parent matches Some(p) && p >= old(self)@.len()) ==> r == Some(old(self)@.len() as usize)
                && final(self)@ == old(self)@.push(
                Overlay {
                    parent,
                    trigger,
                    config,
                    content,
                    state: OverlayState::Closed,
                    placement: None,
                },
            ),
    {
        match parent {
            Some(p) => if p >= self.overlays.len() {
                return None;
            },
            None => {},
        }
        let id = self.overlays.len();
        self.overlays.push(
            Overlay {
                parent,
                trigger,
                config,
                content,
                state: OverlayState::Closed,
                placement: None,
            },
        );
        proof {
            assert forall|i: int|
                0 <= i < self@.len() && #[trigger] is_open(self@, i) implies i < id
                && is_open(old(self)@, i) by {}
        }
        Some(id)
    }

    pub fn is_open(&self, id: usize) -> (r: bool)
        ensures
            r == (id < self@.len() && is_open(self@, id as int)),
    {
        id < self.overlays.len() && self.overlays[id].state == OverlayState::Open
    }

    pub fn get(&self, id: usize) -> (r: Option<Overlay>)
        ensures
            id < self@.len() ==> r == Some(self@[id as int]),
            id >= self@.len() ==> r is None,
    {
        if id < self.overlays.len() {
            Some(self.overlays[id])
        } else {
            None
        }
    }

    /// For each overlay, whether it is `id` or lies under it.
    fn subtree_marks(&self, id: usize) -> (r: Vec<bool>)
        ensures
            r@.len() == self@.len(),
            forall|k: int| 0 <= k < self@.len() ==> r@[k] == descends(self@, k, id as int),
    {
        let mut marks: Vec<bool> = Vec::new();
        let n = self.overlays.len();
        let mut i: usize = 0;
        while i < n
            invariant
                i <= n,
                n == self@.len(),
                marks@.len() == i,
                forall|k: int| 0 <= k < i ==> marks@[k] == descends(self@, k, id as int),
            decreases n - i,
        {
            let m = if i == id {
                true
            } else {
                match self.overlays[i].parent {
                    Some(p) => p < i && marks[p],
                    None => false,
                }
            };
            marks.push(m);
            i = i + 1;
        }
        marks
    }

    /// Closes `id` and, through any depth of nesting, every overlay under it.
    /// The content of each overlay is left as it was.
    pub fn close(&mut self, id: usize)
        requires
            old(self).wf(),
        ensures
            final(self).wf(),
            final(self)@ == after_close(old(self)@, id as int),
    {
        let marks = self.subtree_marks(id);
        let n = self.overlays.len();
        let mut i: usize = 0;
        while i < n
            invariant
                i <= n,
                n == self@.len(),
                n == old(self)@.len(),
                marks@.len() == n,
                forall|k: int| 0 <= k < n ==> marks@[k] == descends(old(self)@, k, id as int),
                forall|k: int|
                    0 <= k < i ==> self@[k] == after_close(old(self)@, id as int)[k],
                forall|k: int| i <= k < n ==> self@[k] == old(self)@[k],
            decreases n - i,
        {
            if marks[i] {
                let mut o = self.overlays[i];
                o.state = OverlayState::Closed;
                o.placement = None;
                self.overlays.set(i, o);
            }
            i = i + 1;
        }
        proof {
            let s = old(self)@;
            assert(self@ == after_close(s, id as int));
            assert forall|c: int|
                0 <= c < self@.len() && #[trigger] is_open(self@, c) && self@[c].parent is Some
                    implies is_open(self@, self@[c].parent->0 as int) by {
                let p = s[c].parent->0 as int;
                assert(!descends(s, c, id as int));
                assert(self@[c] == s[c]);
                assert(is_open(s, c));
                assert(s[c].parent matches Some(q) ==> (q as int) < c);
                assert(!descends(s, p, id as int));
                assert(is_open(s, p));
                assert(self@[p] == s[p]);
            }
            assert forall|i: int|
                0 <= i < self@.len() && #[trigger] is_open(self@, i) implies is_open(s, i)
                && is_top_level(self@, i) == is_top_level(s, i) by {
                assert(self@[i] == s[i]);
            }
            assert forall|i: int|
                0 <= i < self@.len() implies (#[trigger] self@[i].parent matches Some(q) ==> (q as int)
                < i) by {
                assert(self@[i].parent == s[i].parent);
            }
        }
    }

    fn open_placed(&mut self, id: usize, placement: Placement)
        requires
            old(self).wf(),
            id < old(self)@.len(),
        ensures
            final(self).wf(),
            final(self)@ == after_open(old(self)@, id as int, placement),
    {
        if self.overlays[id].state == OverlayState::Open {
            return;
        }
        let mut o = self.overlays[id];
        match o.parent {
            Some(p) => {
                assert(old(self)@[id as int].parent matches Some(q) ==> (q as int) < id);
                if self.overlays[p].state == OverlayState::Open {
                    o.state = OverlayState::Open;
                    o.placement = Some(placement);
                    self.overlays.set(id, o);
                    proof {
                        let s = old(self)@;
                        assert forall|c: int|
                            0 <= c < self@.len() && #[trigger] is_open(self@, c)
                                && self@[c].parent is Some implies is_open(
                            self@,
                            self@[c].parent->0 as int,
                        ) by {
                            if c != id {
                                assert(self@[c] == s[c]);
                                assert(is_open(s, c));
                                assert(s[c].parent->0 != id);
                            }
                        }
                        assert forall|i: int|
                            0 <= i < self@.len() && #[trigger] is_open(self@, i) && is_top_level(
                                self@,
                                i,
                            ) implies is_open(s, i) by {
                            assert(self@[i] == s[i]);
                        }
                        assert forall|i: int|
                            0 <= i < self@.len() implies (#[trigger] self@[i].parent matches Some(
                                q,
                            ) ==> (q as int) < i) by {
                            assert(self@[i].parent == s[i].parent);
                        }
                    }
                }
            },
            None => {
                let n = self.overlays.len();
                let mut i: usize = 0;
                while i < n
                    invariant
                        i <= n,
                        n == self@.len(),
                        n == old(self)@.len(),
                        id < n,
                        old(self)@[id as int].parent is None,
                        !is_open(old(self)@, id as int),
                        forall|k: int|
                            0 <= k < i ==> self@[k] == after_open(
                                old(self)@,
                                id as int,
                                placement,
                            )[k],
                        forall|k: int| i <= k < n ==> self@[k] == old(self)@[k],
                    decreases n - i,
                {
                    let mut x = self.overlays[i];
                    if i == id {
                        x.state = OverlayState::Open;
                        x.placement = Some(placement);
                    } else {
                        x.state = OverlayState::Closed;
                        x.placement = None;
                    }
                    self.overlays.set(i, x);
                    i = i + 1;
                }
                assert(self@ == after_open(old(self)@, id as int, placement));
            },
        }
    }

    /// Opens `id` against its trigger's bounds, as queried now. A top-level
    /// overlay closes every other overlay first; a submenu opens only while
    /// its parent is open. An overlay already open, or an unknown id, is left
    /// as it is.
    pub fn open(&mut self, id: usize, trigger: Option<Rect>, surface: Size)
        requires
            old(self).wf(),
        ensures
            final(self).wf(),
            id >= old(self)@.len() ==> final(self)@ == old(self)@,
            id < old(self)@.len() ==> final(self)@ == after_open(
                old(self)@,
                id as int,
                resolve_spec(
                    trigger,
                    old(self)@[id as int].config.corner,
                    surface,
                    old(self)@[id as int].config.window_embedded,
                ),
            ),
    {
        if id >= self.overlays.len() {
            return;
        }
        let config = self.overlays[id].config;
        let placement = resolve(trigger, config.corner, surface, config.window_embedded);
        self.open_placed(id, placement);
    }

    /// Opens `id` as a submenu beside the menu row that holds it: its
    /// top-left corner meets the row's top-right corner.
    pub fn open_submenu(&mut self, id: usize, row: Rect)
        requires
            old(self).wf(),
        ensures
            final(self).wf(),
            id >= old(self)@.len() ==> final(self)@ == old(self)@,
            id < old(self)@.len() ==> final(self)@ == after_open(
                old(self)@,
                id as int,
                submenu_placement_spec(row),
            ),
    {
        if id >= self.overlays.len() {
            return;
        }
        self.open_placed(id, submenu_placement(row));
    }

    /// A click with `button` on the trigger of `id`. Only the button the
    /// overlay was configured with opens it; a right-button overlay goes to
    /// the pointer. Returns whether the click was taken as a trigger.
    pub fn click_trigger(
        &mut self,
        id: usize,
        button: MouseButton,
        pointer: Point,
        trigger: Option<Rect>,
        surface: Size,
    ) -> (r: bool)
        requires
            old(self).wf(),
        ensures
            final(self).wf(),
            r == (id < old(self)@.len() && old(self)@[id as int].config.button == button),
            !r ==> final(self)@ == old(self)@,
            r ==> final(self)@ == after_open(
                old(self)@,
                id as int,
                click_placement(old(self)@[id as int].config, pointer, trigger, surface),
            ),
    {
        if id >= self.overlays.len() {
            return false;
        }
        let config = self.overlays[id].config;
        if config.button != button {
            return false;
        }
        let placement = match config.button {
            MouseButton::Right => pointer_placement(pointer, config.window_embedded),
            MouseButton::Left => resolve(trigger, config.corner, surface, config.window_embedded),
        };
        self.open_placed(id, placement);
        true
    }

    /// Renders `id` with `embedded` as its window-embedded flag from now on,
    /// leaving its state and placement as they are.
    pub fn set_window_embedded(&mut self, id: usize, embedded: bool)
        requires
            old(self).wf(),
        ensures
            final(self).wf(),
            id >= old(self)@.len() ==> final(self)@ == old(self)@,
            id < old(self)@.len() ==> final(self)@ == old(self)@.update(
                id as int,
                with_embedded(old(self)@[id as int], embedded),
            ),
    {
        if id >= self.overlays.len() {
            return;
        }
        let mut o = self.overlays[id];
        o.config.window_embedded = embedded;
        self.overlays.set(id, o);
        proof {
            let s = old(self)@;
            assert forall|i: int| 0 <= i < self@.len() implies #[trigger] is_open(self@, i) == is_open(
                s,
                i,
            ) && self@[i].parent == s[i].parent by {}
        }
    }

    /// A press landed on the content of overlay `hit`, or on no overlay.
    /// Unless it landed inside `id` or one of its submenus, a floating `id`
    /// closes with everything under it; a window-embedded one stays. Returns
    /// whether `id` was dismissed.
    pub fn click_outside(&mut self, id: usize, hit: Option<usize>) -> (r: bool)
        requires
            old(self).wf(),
        ensures
            final(self).wf(),
            r == (id < old(self)@.len() && !old(self)@[id as int].config.window_embedded && !(
            hit matches Some(h) && descends(old(self)@, h as int, id as int))),
            r ==> final(self)@ == after_close(old(self)@, id as int),
            !r ==> final(self)@ == old(self)@,
    {
        if id >= self.overlays.len() || self.overlays[id].config.window_embedded {
            return false;
        }
        match hit {
            Some(h) => {
                if h == id {
                    return false;
                }
                if h < self.overlays.len() {
                    let marks = self.subtree_marks(id);
                    if marks[h] {
                        return false;
                    }
                } else {
                    assert(!descends(self@, h as int, id as int));
                }
            },
            None => {},
        }
        self.close(id);
        true
    }
}

/// Closing an overlay leaves it and every overlay nested under it, at any
/// depth, closed.
pub proof fn lemma_close_closes_descendants(s: Seq<Overlay>, id: int, i: int)
    requires
        0 <= i < s.len(),
        descends(s, i, id),
    ensures
        after_close(s, id)[i].state == OverlayState::Closed,
{
}

/// Closing an overlay and opening it again hands back the same content
/// provider for every overlay, so a stateful view is reused, never rebuilt.
pub proof fn lemma_reopen_keeps_content(s: Seq<Overlay>, id: int, placement: Placement)
    ensures
        after_open(after_close(s, id), id, placement).len() == s.len(),
        forall|i: int|
            0 <= i < s.len() ==> (#[trigger] after_open(after_close(s, id), id, placement)[i]).content
                == s[i].content,
{
}

/// Opening a top-level overlay closes any other top-level overlay that was
/// open, and leaves only the new one open.
pub proof fn lemma_top_level_exclusive(s: Seq<Overlay>, a: int, b: int, placement: Placement)
    requires
        0 <= a < s.len(),
        0 <= b < s.len(),
        a != b,
        is_top_level(s, b),
        !is_open(s, b),
    ensures
        !is_open(after_open(s, b, placement), a),
        is_open(after_open(s, b, placement), b),
        forall|i: int|
            0 <= i < s.len() && i != b ==> !#[trigger] is_open(after_open(s, b, placement), i),
{
}

} // verus!
