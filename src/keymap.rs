use vstd::prelude::*;

verus! {

/// A logical command, independent of the input that triggered it.
#[derive(Clone, Copy, Debug, PartialEq, Eq, Structural)]
pub struct Action {
    pub id: u64,
}

/// A keyboard shortcut: a key together with the modifiers held with it.
#[derive(Clone, Copy, Debug, PartialEq, Eq, Structural)]
pub struct Chord {
    pub key: char,
    pub cmd: bool,
    pub ctrl: bool,
    pub alt: bool,
    pub shift: bool,
}

/// `s` begins with `p`.
pub open spec fn starts_with(s: Seq<char>, p: Seq<char>) -> bool {
    p.len() <= s.len() && s.subrange(0, p.len() as int) == p
}

/// `r` with the given modifiers added.
pub open spec fn with_mods(r: Option<Chord>, cmd: bool, ctrl: bool, alt: bool, shift: bool) -> Option<
    Chord,
> {
    match r {
        Some(c) => Some(
            Chord {
                key: c.key,
                cmd: c.cmd || cmd,
                ctrl: c.ctrl || ctrl,
                alt: c.alt || alt,
                shift: c.shift || shift,
            },
        ),
        None => None,
    }
}

/// The chord written as `s`: modifiers `cmd`, `ctrl`, `alt` and `shift`,
/// each followed by `-`, then a single key other than `-`.
pub open spec fn parse_chord(s: Seq<char>) -> Option<Chord>
    decreases s.len(),
{
    if s.len() == 1 && s[0] != '-' {
        Some(Chord { key: s[0], cmd: false, ctrl: false, alt: false, shift: false })
    } else if starts_with(s, seq!['c', 'm', 'd', '-']) {
        with_mods(parse_chord(s.skip(4)), true, false, false, false)
    } else if starts_with(s, seq!['c', 't', 'r', 'l', '-']) {
        with_mods(parse_chord(s.skip(5)), false, true, false, false)
    } else if starts_with(s, seq!['a', 'l', 't', '-']) {
        with_mods(parse_chord(s.skip(4)), false, false, true, false)
    } else if starts_with(s, seq!['s', 'h', 'i', 'f', 't', '-']) {
        with_mods(parse_chord(s.skip(6)), false, false, false, true)
    } else {
        None
    }
}

/// Whether `v` holds `w` from position `i` on.
fn prefix_at(v: &Vec<char>, i: usize, w: &Vec<char>) -> (r: bool)
    requires
        i <= v@.len(),
    ensures
        r == starts_with(v@.skip(i as int), w@),
{
    if w.len() > v.len() - i {
        return false;
    }
    let vl = v.len();
    let mut k: usize = 0;
    while k < w.len()
        invariant
            vl == v@.len(),
            k <= w@.len(),
            i + w@.len() <= v@.len(),
            forall|j: int| 0 <= j < k ==> v@[i + j] == w@[j],
        decreases w@.len() - k,
    {
        if v[i + k] != w[k] {
            proof {
                let t = v@.skip(i as int);
                if starts_with(t, w@) {
                    assert(t.subrange(0, w@.len() as int)[k as int] == w@[k as int]);
                }
            }
            return false;
        }
        k = k + 1;
    }
    assert(v@.skip(i as int).subrange(0, w@.len() as int) =~= w@);
    true
}

impl Chord {
    /// The key with the command modifier.
    pub fn cmd(key: char) -> (r: Chord)
        ensures
            r == (Chord { key, cmd: true, ctrl: false, alt: false, shift: false }),
    {
        Chord { key, cmd: true, ctrl: false, alt: false, shift: false }
    }

    /// The key with the command and shift modifiers.
    pub fn cmd_shift(key: char) -> (r: Chord)
        ensures
            r == (Chord { key, cmd: true, ctrl: false, alt: false, shift: true }),
    {
        Chord { key, cmd: true, ctrl: false, alt: false, shift: true }
    }

    /// Reads a chord written as modifiers joined to a key by `-`, such as
    /// `cmd-shift-f`; `None` when the text is not of that form.
    pub fn parse(text: &str) -> (r: Option<Chord>)
        ensures
            r == parse_chord(text@),
    {
        let n = text.unicode_len();
        let mut v: Vec<char> = Vec::new();
        let mut i: usize = 0;
        while i < n
            invariant
                i <= n,
                n == text@.len(),
                v@ == text@.subrange(0, i as int),
            decreases n - i,
        {
            v.push(text.get_char(i));
            i = i + 1;
        }
        assert(v@ == text@);
        Chord::parse_chars(&v)
    }

    fn parse_chars(v: &Vec<char>) -> (r: Option<Chord>)
        ensures
            r == parse_chord(v@),
    {
        let cmd_word = vec!['c', 'm', 'd', '-'];
        let ctrl_word = vec!['c', 't', 'r', 'l', '-'];
        let alt_word = vec!['a', 'l', 't', '-'];
        let shift_word = vec!['s', 'h', 'i', 'f', 't', '-'];
        assert(cmd_word@ == seq!['c', 'm', 'd', '-']);
        assert(ctrl_word@ == seq!['c', 't', 'r', 'l', '-']);
        assert(alt_word@ == seq!['a', 'l', 't', '-']);
        assert(shift_word@ == seq!['s', 'h', 'i', 'f', 't', '-']);
        let mut cmd = false;
        let mut ctrl = false;
        let mut alt = false;
        let mut shift = false;
        let mut i: usize = 0;
        assert(v@.skip(0) == v@);
        while i < v.len()
            invariant
                i <= v@.len(),
                cmd_word@ == seq!['c', 'm', 'd', '-'],
                ctrl_word@ == seq!['c', 't', 'r', 'l', '-'],
                alt_word@ == seq!['a', 'l', 't', '-'],
                shift_word@ == seq!['s', 'h', 'i', 'f', 't', '-'],
                parse_chord(v@) == with_mods(parse_chord(v@.skip(i as int)), cmd, ctrl, alt, shift),
            decreases v@.len() - i,
        {
            let ghost rest = v@.skip(i as int);
            if v.len() - i == 1 && v[i] != '-' {
                let c = Chord { key: v[i], cmd, ctrl, alt, shift };
                return Some(c);
            }
            if prefix_at(v, i, &cmd_word) {
                assert(rest.skip(4) == v@.skip(i + 4));
                cmd = true;
                i = i + 4;
            } else if prefix_at(v, i, &ctrl_word) {
                assert(rest.skip(5) == v@.skip(i + 5));
                ctrl = true;
                i = i + 5;
            } else if prefix_at(v, i, &alt_word) {
                assert(rest.skip(4) == v@.skip(i + 4));
                alt = true;
                i = i + 4;
            } else if prefix_at(v, i, &shift_word) {
                assert(rest.skip(6) == v@.skip(i + 6));
                shift = true;
                i = i + 6;
            } else {
                return None;
            }
        }
        None
    }
}

/// One registered shortcut, global when `context` is `None`.
#[derive(Clone, Copy, Debug, PartialEq, Eq, Structural)]
pub struct KeyBinding {
    pub chord: Chord,
    pub action: Action,
    pub context: Option<u64>,
}

impl KeyBinding {
    pub fn new(chord: Chord, action: Action, context: Option<u64>) -> (r: KeyBinding)
        ensures
            r == (KeyBinding { chord, action, context }),
    {
        KeyBinding { chord, action, context }
    }
}

/// The action bound to `chord` in exactly `context`: the latest matching
/// registration wins.
pub open spec fn bound_action(bs: Seq<KeyBinding>, chord: Chord, context: Option<u64>) -> Option<
    Action,
>
    decreases bs.len(),
{
    if bs.len() == 0 {
        None
    } else if bs.last().chord == chord && bs.last().context == context {
        Some(bs.last().action)
    } else {
        bound_action(bs.drop_last(), chord, context)
    }
}

/// The action that `chord` means inside `context`: a binding scoped to that
/// context first, then a global one.
pub open spec fn resolve_in(bs: Seq<KeyBinding>, chord: Chord, context: Option<u64>) -> Option<
    Action,
> {
    match context {
        Some(c) => match bound_action(bs, chord, Some(c)) {
            Some(a) => Some(a),
            None => bound_action(bs, chord, None),
        },
        None => bound_action(bs, chord, None),
    }
}

/// The table of key bindings, built once at start-up and read by dispatch.
pub struct KeyBindingTable {
    bindings: Vec<KeyBinding>,
}

impl View for KeyBindingTable {
    type V = Seq<KeyBinding>;

    /// The registrations, oldest first.
    closed spec fn view(&self) -> Seq<KeyBinding> {
        self.bindings@
    }
}

impl KeyBindingTable {
    /// The action `chord` is bound to in exactly `context`.
    pub open spec fn bound(&self, chord: Chord, context: Option<u64>) -> Option<Action> {
        bound_action(self@, chord, context)
    }

    /// The action `chord` resolves to inside `context`.
    pub open spec fn resolves(&self, chord: Chord, context: Option<u64>) -> Option<Action> {
        resolve_in(self@, chord, context)
    }

    pub fn new() -> (r: KeyBindingTable)
        ensures
            r@ == Seq::<KeyBinding>::empty(),
            forall|c: Chord, x: Option<u64>| #[trigger] r.bound(c, x) == None::<Action>,
    {
        KeyBindingTable { bindings: Vec::new() }
    }

    /// Registers a binding. A chord registered again in the same context
    /// takes the new action.
    pub fn bind(&mut self, binding: KeyBinding)
        ensures
            final(self)@ == old(self)@.push(binding),
            forall|c: Chord, x: Option<u64>| #[trigger]
                final(self).bound(c, x) == if c == binding.chord && x == binding.context {
                    Some(binding.action)
                } else {
                    old(self).bound(c, x)
                },
    {
        self.bindings.push(binding);
        assert(self@.drop_last() == old(self)@);
    }

    /// Registers each binding in order.
    pub fn bind_keys(&mut self, bindings: &Vec<KeyBinding>)
        ensures
            final(self)@ == old(self)@ + bindings@,
    {
        let mut i: usize = 0;
        while i < bindings.len()
            invariant
                i <= bindings@.len(),
                self@ == old(self)@ + bindings@.subrange(0, i as int),
            decreases bindings@.len() - i,
        {
            self.bind(bindings[i]);
            assert(bindings@.subrange(0, i + 1) == bindings@.subrange(0, i as int).push(
                bindings@[i as int],
            ));
            i = i + 1;
        }
        assert(bindings@.subrange(0, bindings@.len() as int) == bindings@);
    }

    /// The action bound to `chord` in exactly `context`.
    pub fn lookup(&self, chord: Chord, context: Option<u64>) -> (r: Option<Action>)
        ensures
            r == self.bound(chord, context),
    {
        let mut i: usize = self.bindings.len();
        assert(self@.subrange(0, i as int) == self@);
        while i > 0
            invariant
                i <= self@.len(),
                bound_action(self@, chord, context) == bound_action(
                    self@.subrange(0, i as int),
                    chord,
                    context,
                ),
            decreases i,
        {
            let b = self.bindings[i - 1];
            proof {
                let pre = self@.subrange(0, i as int);
                assert(pre.drop_last() == self@.subrange(0, i - 1));
            }
            if b.chord == chord && b.context == context {
                return Some(b.action);
            }
            i = i - 1;
        }
        None
    }

    /// The action `chord` resolves to inside `context`: scoped first, then global.
    pub fn resolve(&self, chord: Chord, context: Option<u64>) -> (r: Option<Action>)
        ensures
            r == self.resolves(chord, context),
    {
        match context {
            Some(c) => match self.lookup(chord, Some(c)) {
                Some(a) => Some(a),
                None => self.lookup(chord, None),
            },
            None => self.lookup(chord, None),
        }
    }
}

} // verus!
