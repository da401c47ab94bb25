use vstd::prelude::*;

use crate::anchor::AnchorCorner;
use crate::dispatch::{dispatch, dispatch_spec, DispatchOutcome, FocusNode};
use crate::keymap::{parse_chord, Action, Chord, KeyBinding, KeyBindingTable};
use crate::menu::{IconName, MenuNode, MenuTree};
use crate::overlay::{
    after_close,
    with_embedded,
    ContentProvider,
    MouseButton,
    Overlay,
    OverlayConfig,
    OverlayManager,
    OverlayState,
};

verus! {

/// The commands of the popup screen.
#[derive(Clone, Copy, Debug, PartialEq, Eq, Structural)]
pub enum StoryAction {
    Copy,
    Paste,
    Cut,
    SearchAll,
    ToggleWindowMode,
}

/// The tag under which each command is dispatched.
pub open spec fn action_id(a: StoryAction) -> u64 {
    match a {
        StoryAction::Copy => 1,
        StoryAction::Paste => 2,
        StoryAction::Cut => 3,
        StoryAction::SearchAll => 4,
        StoryAction::ToggleWindowMode => 5,
    }
}

/// The command a tag stands for, if it is one of this screen's.
pub open spec fn story_action_of(a: Action) -> Option<StoryAction> {
    if a.id == 1 {
        Some(StoryAction::Copy)
    } else if a.id == 2 {
        Some(StoryAction::Paste)
    } else if a.id == 3 {
        Some(StoryAction::Cut)
    } else if a.id == 4 {
        Some(StoryAction::SearchAll)
    } else if a.id == 5 {
        Some(StoryAction::ToggleWindowMode)
    } else {
        None
    }
}

impl StoryAction {
    /// The tag this command is dispatched under.
    pub fn action(self) -> (r: Action)
        ensures
            r.id == action_id(self),
            story_action_of(r) == Some(self),
    {
        let id: u64 = match self {
            StoryAction::Copy => 1,
            StoryAction::Paste => 2,
            StoryAction::Cut => 3,
            StoryAction::SearchAll => 4,
            StoryAction::ToggleWindowMode => 5,
        };
        Action { id }
    }

    /// The command a dispatched tag stands for, if it is one of this screen's.
    pub fn from_action(a: Action) -> (r: Option<StoryAction>)
        ensures
            r == story_action_of(a),
    {
        if a.id == 1 {
            Some(StoryAction::Copy)
        } else if a.id == 2 {
            Some(StoryAction::Paste)
        } else if a.id == 3 {
            Some(StoryAction::Cut)
        } else if a.id == 4 {
            Some(StoryAction::SearchAll)
        } else if a.id == 5 {
            Some(StoryAction::ToggleWindowMode)
        } else {
            None
        }
    }
}

/// The screen's shortcuts: cmd-c, cmd-v, cmd-x and cmd-shift-f, all global.
pub open spec fn story_binding(c: Chord) -> Option<Action> {
    if c == (Chord { key: 'c', cmd: true, ctrl: false, alt: false, shift: false }) {
        Some(Action { id: action_id(StoryAction::Copy) })
    } else if c == (Chord { key: 'v', cmd: true, ctrl: false, alt: false, shift: false }) {
        Some(Action { id: action_id(StoryAction::Paste) })
    } else if c == (Chord { key: 'x', cmd: true, ctrl: false, alt: false, shift: false }) {
        Some(Action { id: action_id(StoryAction::Cut) })
    } else if c == (Chord { key: 'f', cmd: true, ctrl: false, alt: false, shift: true }) {
        Some(Action { id: action_id(StoryAction::SearchAll) })
    } else {
        None
    }
}

/// `cmd-` before a key reads as that key with the command modifier.
proof fn lemma_parse_cmd(k: char)
    requires
        k != '-',
    ensures
        parse_chord(seq!['c', 'm', 'd', '-', k]) == Some(
            Chord { key: k, cmd: true, ctrl: false, alt: false, shift: false },
        ),
{
    let s = seq!['c', 'm', 'd', '-', k];
    assert(s.subrange(0, 4) =~= seq!['c', 'm', 'd', '-']);
    assert(s.skip(4) =~= seq![k]);
    assert(parse_chord(seq![k]) == Some(
        Chord { key: k, cmd: false, ctrl: false, alt: false, shift: false },
    ));
}

/// `cmd-shift-` before a key reads as that key with command and shift.
proof fn lemma_parse_cmd_shift(k: char)
    requires
        k != '-',
    ensures
        parse_chord(seq!['c', 'm', 'd', '-', 's', 'h', 'i', 'f', 't', '-', k]) == Some(
            Chord { key: k, cmd: true, ctrl: false, alt: false, shift: true },
        ),
{
    let s = seq!['c', 'm', 'd', '-', 's', 'h', 'i', 'f', 't', '-', k];
    let t = seq!['s', 'h', 'i', 'f', 't', '-', k];
    assert(s.subrange(0, 4) =~= seq!['c', 'm', 'd', '-']);
    assert(s.skip(4) =~= t);
    assert(t.subrange(0, 4) != seq!['c', 'm', 'd', '-']) by {
        assert(t.subrange(0, 4)[0] != 'c');
    }
    assert(t.subrange(0, 5) != seq!['c', 't', 'r', 'l', '-']) by {
        assert(t.subrange(0, 5)[0] != 'c');
    }
    assert(t.subrange(0, 4) != seq!['a', 'l', 't', '-']) by {
        assert(t.subrange(0, 4)[0] != 'a');
    }
    assert(t.subrange(0, 6) =~= seq!['s', 'h', 'i', 'f', 't', '-']);
    assert(t.skip(6) =~= seq![k]);
    assert(parse_chord(seq![k]) == Some(
        Chord { key: k, cmd: false, ctrl: false, alt: false, shift: false },
    ));
    assert(parse_chord(t) == Some(Chord { key: k, cmd: false, ctrl: false, alt: false, shift: true }));
}

/// The chord that `text` names, which must be well formed.
fn chord(text: &str) -> (r: Chord)
    requires
        parse_chord(text@) is Some,
    ensures
        r == parse_chord(text@)->0,
{
    match Chord::parse(text) {
        Some(c) => c,
        None => {
            assert(false);
            Chord::cmd('c')
        },
    }
}

/// Builds the key table of the screen.
pub fn init() -> (r: KeyBindingTable)
    ensures
        forall|c: Chord| #[trigger] r.bound(c, None) == story_binding(c),
        forall|c: Chord, x: u64| #[trigger] r.bound(c, Some(x)) is None,
        forall|c: Chord, x: Option<u64>| #[trigger] r.resolves(c, x) == story_binding(c),
{
    proof {
        reveal_strlit("cmd-c");
        reveal_strlit("cmd-v");
        reveal_strlit("cmd-x");
        reveal_strlit("cmd-shift-f");
        lemma_parse_cmd('c');
        lemma_parse_cmd('v');
        lemma_parse_cmd('x');
        lemma_parse_cmd_shift('f');
        assert("cmd-c"@ == seq!['c', 'm', 'd', '-', 'c']);
        assert("cmd-v"@ == seq!['c', 'm', 'd', '-', 'v']);
        assert("cmd-x"@ == seq!['c', 'm', 'd', '-', 'x']);
        assert("cmd-shift-f"@ == seq!['c', 'm', 'd', '-', 's', 'h', 'i', 'f', 't', '-', 'f']);
    }
    let mut table = KeyBindingTable::new();
    table.bind(KeyBinding::new(chord("cmd-c"), StoryAction::Copy.action(), None));
    table.bind(KeyBinding::new(chord("cmd-v"), StoryAction::Paste.action(), None));
    table.bind(KeyBinding::new(chord("cmd-x"), StoryAction::Cut.action(), None));
    table.bind(KeyBinding::new(chord("cmd-shift-f"), StoryAction::SearchAll.action(), None));
    proof {
        assert forall|c: Chord, x: Option<u64>| #[trigger] table.resolves(c, x) == story_binding(
            c,
        ) by {
            assert(table.bound(c, None) == story_binding(c));
            if x is Some {
                assert(table.bound(c, Some(x->0)) is None);
            }
        }
    }
    table
}

/// A small form shown inside a popover. It lives as long as the screen, so
/// what is typed into it survives the popover closing.
pub struct Form {
    pub input: String,
}

impl Form {
    pub fn new() -> (r: Form)
        ensures
            r.input@ == Seq::<char>::empty(),
    {
        Form { input: String::new() }
    }

    /// Text typed into the form's input.
    pub fn type_text(&mut self, text: &str)
        ensures
            final(self).input@ == old(self).input@ + text@,
    {
        self.input.append(text);
    }
}

/// The message a command leaves on the screen.
pub open spec fn message_after(a: StoryAction, message: Seq<char>) -> Seq<char> {
    match a {
        StoryAction::Copy => "You have clicked copy"@,
        StoryAction::Cut => "You have clicked cut"@,
        StoryAction::Paste => "You have clicked paste"@,
        StoryAction::SearchAll => "You have clicked search all"@,
        StoryAction::ToggleWindowMode => message,
    }
}

/// The window-mode flag after a command.
pub open spec fn window_mode_after(a: StoryAction, window_mode: bool) -> bool {
    match a {
        StoryAction::ToggleWindowMode => !window_mode,
        _ => window_mode,
    }
}

/// `n` is an action entry titled `label` that fires `a`, without an icon
/// unless `icon` says otherwise.
pub open spec fn is_entry(n: MenuNode, label: Seq<char>, a: StoryAction, icon: Option<IconName>) -> bool {
    n matches MenuNode::Item { label: l, action, icon: i } && l@ == label && action.id == action_id(a)
        && i == icon
}

/// The entries of the settings submenu of the right-click menu.
pub open spec fn is_settings_menu(items: Seq<MenuNode>) -> bool {
    &&& items.len() == 3
    &&& is_entry(items[0], "Toggle Window Mode"@, StoryAction::ToggleWindowMode, None)
    &&& items[1] is Separator
    &&& is_entry(items[2], "Search All"@, StoryAction::SearchAll, None)
}

/// The popover anchored top-left of its button.
pub const TOP_LEFT_POPOVER: usize = 0;

/// The popover anchored top-right of its button.
pub const TOP_RIGHT_POPOVER: usize = 1;

/// The popover showing the form, anchored bottom-left.
pub const FORM_POPOVER: usize = 2;

/// The popover opened by the right button, anchored bottom-right.
pub const BOTTOM_RIGHT_POPOVER: usize = 3;

/// The screen's right-click menu.
pub const CONTEXT_MENU: usize = 4;

/// The settings submenu of the right-click menu.
pub const SETTINGS_MENU: usize = 5;

/// The menu behind the ellipsis button.
pub const POPUP_MENU: usize = 6;

/// The id under which the screen's form view is shared with its popover.
pub const FORM_VIEW: u64 = 1;

/// The overlay declared at index `i` of the screen, closed, with popovers
/// docked in the window when `window_mode` is set. Each overlay is opened
/// from the element numbered one past its index.
pub open spec fn story_overlay(i: int, window_mode: bool) -> Overlay {
    let (corner, button, content, parent) = if i == 0 {
        (AnchorCorner::TopLeft, MouseButton::Left, ContentProvider::Builder(0), None)
    } else if i == 1 {
        (AnchorCorner::TopRight, MouseButton::Left, ContentProvider::Builder(1), None)
    } else if i == 2 {
        (AnchorCorner::BottomLeft, MouseButton::Left, ContentProvider::View(FORM_VIEW), None)
    } else if i == 3 {
        (AnchorCorner::BottomRight, MouseButton::Right, ContentProvider::Builder(3), None)
    } else if i == 4 {
        (AnchorCorner::TopLeft, MouseButton::Right, ContentProvider::Builder(4), None)
    } else if i == 5 {
        (AnchorCorner::TopLeft, MouseButton::Left, ContentProvider::Builder(5), Some(4usize))
    } else {
        (AnchorCorner::TopLeft, MouseButton::Left, ContentProvider::Builder(6), None)
    };
    Overlay {
        parent,
        trigger: (i + 1) as u64,
        config: OverlayConfig { corner, button, window_embedded: i < 4 && window_mode },
        content,
        state: OverlayState::Closed,
        placement: None,
    }
}

/// The overlays of a freshly opened screen.
pub open spec fn story_overlays(window_mode: bool) -> Seq<Overlay> {
    Seq::new(7, |i: int| story_overlay(i, window_mode))
}

/// `s` with the four popovers docked in the window exactly when
/// `window_mode` is set.
pub open spec fn with_window_mode(s: Seq<Overlay>, window_mode: bool) -> Seq<Overlay> {
    Seq::new(s.len(), |i: int| if i < 4 { with_embedded(s[i], window_mode) } else { s[i] })
}

fn declare(
    m: &mut OverlayManager,
    corner: AnchorCorner,
    button: MouseButton,
    content: ContentProvider,
    parent: Option<usize>,
)
    requires
        old(m).wf(),
        old(m)@.len() < 7,
        parent matches Some(p) ==> p < old(m)@.len(),
    ensures
        final(m).wf(),
        final(m)@ == old(m)@.push(
            Overlay {
                parent,
                trigger: (old(m)@.len() + 1) as u64,
                config: OverlayConfig { corner, button, window_embedded: false },
                content,
                state: OverlayState::Closed,
                placement: None,
            },
        ),
{
    let trigger = m.len() as u64 + 1;
    let config = OverlayConfig { corner, button, window_embedded: false };
    m.add(config, trigger, content, parent);
}

/// The popup screen: a status message, whether popovers dock inside the
/// window, and the form shown by one of its popovers.
pub struct PopupStory {
    pub focus: u64,
    pub form: Form,
    pub message: String,
    pub window_mode: bool,
    pub overlays: OverlayManager,
}

impl PopupStory {
    /// The screen's overlays are well formed and are the seven it declares.
    pub open spec fn wf(&self) -> bool {
        self.overlays.wf() && self.overlays@.len() == 7
    }

    /// A fresh screen whose focusable root has id `focus`.
    pub fn view(focus: u64) -> (r: PopupStory)
        ensures
            r.focus == focus,
            r.form.input@ == Seq::<char>::empty(),
            r.message@ == Seq::<char>::empty(),
            !r.window_mode,
            r.wf(),
            r.overlays@ == story_overlays(false),
    {
        let mut overlays = OverlayManager::new();
        declare(
            &mut overlays,
            AnchorCorner::TopLeft,
            MouseButton::Left,
            ContentProvider::Builder(0),
            None,
        );
        declare(
            &mut overlays,
            AnchorCorner::TopRight,
            MouseButton::Left,
            ContentProvider::Builder(1),
            None,
        );
        declare(
            &mut overlays,
            AnchorCorner::BottomLeft,
            MouseButton::Left,
            ContentProvider::View(FORM_VIEW),
            None,
        );
        declare(
            &mut overlays,
            AnchorCorner::BottomRight,
            MouseButton::Right,
            ContentProvider::Builder(3),
            None,
        );
        declare(
            &mut overlays,
            AnchorCorner::TopLeft,
            MouseButton::Right,
            ContentProvider::Builder(4),
            None,
        );
        declare(
            &mut overlays,
            AnchorCorner::TopLeft,
            MouseButton::Left,
            ContentProvider::Builder(5),
            Some(CONTEXT_MENU),
        );
        declare(
            &mut overlays,
            AnchorCorner::TopLeft,
            MouseButton::Left,
            ContentProvider::Builder(6),
            None,
        );
        assert(overlays@ =~= story_overlays(false));
        PopupStory {
            focus,
            form: Form::new(),
            message: String::new(),
            window_mode: false,
            overlays,
        }
    }

    /// Carries the window mode to the four popovers.
    fn sync_window_mode(&mut self)
        requires
            old(self).wf(),
        ensures
            final(self).wf(),
            final(self).overlays@ == with_window_mode(old(self).overlays@, old(self).window_mode),
            final(self).focus == old(self).focus,
            final(self).form == old(self).form,
            final(self).message == old(self).message,
            final(self).window_mode == old(self).window_mode,
    {
        let mode = self.window_mode;
        let mut i: usize = 0;
        while i < 4
            invariant
                i <= 4,
                self.wf(),
                mode == self.window_mode,
                self.window_mode == old(self).window_mode,
                self.focus == old(self).focus,
                self.form == old(self).form,
                self.message == old(self).message,
                forall|k: int|
                    0 <= k < 7 ==> #[trigger] self.overlays@[k] == if k < i {
                        with_embedded(old(self).overlays@[k], mode)
                    } else {
                        old(self).overlays@[k]
                    },
            decreases 4 - i,
        {
            self.overlays.set_window_embedded(i, mode);
            i = i + 1;
        }
        assert(self.overlays@ =~= with_window_mode(old(self).overlays@, mode));
    }

    /// The form's submit button: the form asks to be dismissed, and its
    /// popover closes. What was typed stays in the form.
    pub fn submit_form(&mut self)
        requires
            old(self).wf(),
        ensures
            final(self).wf(),
            final(self).overlays@ == after_close(old(self).overlays@, FORM_POPOVER as int),
            final(self).focus == old(self).focus,
            final(self).form == old(self).form,
            final(self).message == old(self).message,
            final(self).window_mode == old(self).window_mode,
    {
        self.overlays.close(FORM_POPOVER);
    }

    pub fn on_copy(&mut self)
        ensures
            final(self).overlays == old(self).overlays,
            final(self).message@ == "You have clicked copy"@,
            final(self).window_mode == old(self).window_mode,
            final(self).focus == old(self).focus,
            final(self).form == old(self).form,
    {
        self.message = String::from_str("You have clicked copy");
    }

    pub fn on_cut(&mut self)
        ensures
            final(self).overlays == old(self).overlays,
            final(self).message@ == "You have clicked cut"@,
            final(self).window_mode == old(self).window_mode,
            final(self).focus == old(self).focus,
            final(self).form == old(self).form,
    {
        self.message = String::from_str("You have clicked cut");
    }

    pub fn on_paste(&mut self)
        ensures
            final(self).overlays == old(self).overlays,
            final(self).message@ == "You have clicked paste"@,
            final(self).window_mode == old(self).window_mode,
            final(self).focus == old(self).focus,
            final(self).form == old(self).form,
    {
        self.message = String::from_str("You have clicked paste");
    }

    pub fn on_search_all(&mut self)
        ensures
            final(self).overlays == old(self).overlays,
            final(self).message@ == "You have clicked search all"@,
            final(self).window_mode == old(self).window_mode,
            final(self).focus == old(self).focus,
            final(self).form == old(self).form,
    {
        self.message = String::from_str("You have clicked search all");
    }

    pub fn on_toggle_window_mode(&mut self)
        requires
            old(self).wf(),
        ensures
            final(self).wf(),
            final(self).overlays@ == with_window_mode(old(self).overlays@, !old(self).window_mode),
            final(self).window_mode == !old(self).window_mode,
            final(self).message == old(self).message,
            final(self).focus == old(self).focus,
            final(self).form == old(self).form,
    {
        self.window_mode = !self.window_mode;
        self.sync_window_mode();
    }

    /// The window-mode switch was set to `checked`.
    pub fn set_window_mode(&mut self, checked: bool)
        requires
            old(self).wf(),
        ensures
            final(self).wf(),
            final(self).overlays@ == with_window_mode(old(self).overlays@, checked),
            final(self).window_mode == checked,
            final(self).message == old(self).message,
            final(self).focus == old(self).focus,
            final(self).form == old(self).form,
    {
        self.window_mode = checked;
        self.sync_window_mode();
    }

    /// Runs the handler of `action`, once; an action that is not one of this
    /// screen's changes nothing. Returns whether a handler ran.
    pub fn handle_action(&mut self, action: Action) -> (r: bool)
        requires
            old(self).wf(),
        ensures
            final(self).wf(),
            final(self).overlays@ == if story_action_of(action) == Some(StoryAction::ToggleWindowMode) {
                with_window_mode(old(self).overlays@, !old(self).window_mode)
            } else {
                old(self).overlays@
            },
            r == story_action_of(action) is Some,
            final(self).focus == old(self).focus,
            final(self).form == old(self).form,
            match story_action_of(action) {
                Some(a) => final(self).message@ == message_after(a, old(self).message@)
                    && final(self).window_mode == window_mode_after(a, old(self).window_mode),
                None => final(self).message == old(self).message && final(self).window_mode == old(
                    self,
                ).window_mode,
            },
    {
        match StoryAction::from_action(action) {
            Some(StoryAction::Copy) => self.on_copy(),
            Some(StoryAction::Cut) => self.on_cut(),
            Some(StoryAction::Paste) => self.on_paste(),
            Some(StoryAction::SearchAll) => self.on_search_all(),
            Some(StoryAction::ToggleWindowMode) => self.on_toggle_window_mode(),
            None => return false,
        }
        true
    }

    /// The screen's node in a focus chain, with a handler for each of its
    /// commands.
    pub fn focus_node(&self) -> (r: FocusNode)
        ensures
            r.id == self.focus,
            r.context is None,
            r.handlers@ == seq![
                Action { id: action_id(StoryAction::Copy) },
                Action { id: action_id(StoryAction::Cut) },
                Action { id: action_id(StoryAction::Paste) },
                Action { id: action_id(StoryAction::SearchAll) },
                Action { id: action_id(StoryAction::ToggleWindowMode) },
            ],
    {
        let handlers = vec![
            StoryAction::Copy.action(),
            StoryAction::Cut.action(),
            StoryAction::Paste.action(),
            StoryAction::SearchAll.action(),
            StoryAction::ToggleWindowMode.action(),
        ];
        FocusNode { id: self.focus, context: None, handlers }
    }

    /// Routes a key event through `chain`. When the node that consumes it is
    /// this screen's, its handler runs once; otherwise the screen is left as
    /// it was.
    pub fn dispatch_key(&mut self, table: &KeyBindingTable, chord: Chord, chain: &Vec<FocusNode>) -> (r:
        DispatchOutcome)
        requires
            old(self).wf(),
        ensures
            final(self).wf(),
            dispatch_spec(table, chord, chain@, r),
            !(r matches DispatchOutcome::Handled { node, action } && chain@[node as int].id == old(
                self,
            ).focus && story_action_of(action) == Some(StoryAction::ToggleWindowMode))
                ==> final(self).overlays@ == old(self).overlays@,
            final(self).focus == old(self).focus,
            final(self).form == old(self).form,
            match r {
                DispatchOutcome::Handled { node, action } => if chain@[node as int].id == old(
                    self,
                ).focus && story_action_of(action) is Some {
                    final(self).message@ == message_after(
                        story_action_of(action)->0,
                        old(self).message@,
                    ) && final(self).window_mode == window_mode_after(
                        story_action_of(action)->0,
                        old(self).window_mode,
                    )
                } else {
                    final(self).message == old(self).message && final(self).window_mode == old(
                        self,
                    ).window_mode
                },
                DispatchOutcome::NoHandler => final(self).message == old(self).message
                    && final(self).window_mode == old(self).window_mode,
            },
    {
        let r = dispatch(table, chord, chain);
        match r {
            DispatchOutcome::Handled { node, action } => {
                if chain[node].id == self.focus {
                    self.handle_action(action);
                }
            },
            DispatchOutcome::NoHandler => {},
        }
        r
    }

    /// The right-click menu of the screen.
    pub fn context_menu(&self) -> (r: MenuTree)
        ensures
            r.items@.len() == 7,
            is_entry(r.items@[0], "Cut"@, StoryAction::Cut, None),
            is_entry(r.items@[1], "Copy"@, StoryAction::Copy, None),
            is_entry(r.items@[2], "Paste"@, StoryAction::Paste, None),
            r.items@[3] is Separator,
            r.items@[4] matches MenuNode::Submenu { label, children } && label@ == "Settings"@
                && is_settings_menu(children.items@),
            r.items@[5] is Separator,
            is_entry(r.items@[6], "Search All"@, StoryAction::SearchAll, None),
    {
        let settings = MenuTree::new();
        let settings = settings.menu("Toggle Window Mode", StoryAction::ToggleWindowMode.action());
        let settings = settings.separator();
        let settings = settings.menu("Search All", StoryAction::SearchAll.action());
        let m = MenuTree::new();
        let m = m.menu("Cut", StoryAction::Cut.action());
        let m = m.menu("Copy", StoryAction::Copy.action());
        let m = m.menu("Paste", StoryAction::Paste.action());
        let m = m.separator();
        let m = m.submenu("Settings", settings);
        let m = m.separator();
        m.menu("Search All", StoryAction::SearchAll.action())
    }

    /// The menu behind the ellipsis button; its check entry shows the
    /// current window mode.
    pub fn popup_menu(&self) -> (r: MenuTree)
        ensures
            r.items@.len() == 9,
            is_entry(r.items@[0], "Copy"@, StoryAction::Copy, None),
            is_entry(r.items@[1], "Cut"@, StoryAction::Cut, None),
            is_entry(r.items@[2], "Paste"@, StoryAction::Paste, None),
            r.items@[3] is Separator,
            is_entry(r.items@[4], "Search"@, StoryAction::SearchAll, Some(IconName::Search)),
            r.items@[5] is Separator,
            r.items@[6] matches MenuNode::Checkable { label, checked, action } && label@
                == "Window Mode"@ && checked == self.window_mode && action.id == action_id(
                StoryAction::ToggleWindowMode,
            ),
            r.items@[7] is Separator,
            r.items@[8] matches MenuNode::Link { label, icon, uri } && label@ == "GitHub Repository"@
                && icon == IconName::GitHub && uri@ == "https://github.com/huacnlee/gpui-component"@,
    {
        let m = MenuTree::new();
        let m = m.menu("Copy", StoryAction::Copy.action());
        let m = m.menu("Cut", StoryAction::Cut.action());
        let m = m.menu("Paste", StoryAction::Paste.action());
        let m = m.separator();
        let m = m.menu_with_icon("Search", IconName::Search, StoryAction::SearchAll.action());
        let m = m.separator();
        let m = m.menu_with_check(
            "Window Mode",
            self.window_mode,
            StoryAction::ToggleWindowMode.action(),
        );
        let m = m.separator();
        m.link_with_icon(
            "GitHub Repository",
            IconName::GitHub,
            "https://github.com/huacnlee/gpui-component",
        )
    }
}

} // verus!
