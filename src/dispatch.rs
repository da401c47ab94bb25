use vstd::prelude::*;

use crate::keymap::{Action, Chord, KeyBindingTable};

verus! {

/// One node of the focus chain: the key context it opens, if any, and the
/// actions it has handlers for.
pub struct FocusNode {
    pub id: u64,
    pub context: Option<u64>,
    pub handlers: Vec<Action>,
}

/// What became of a key event.
#[derive(Clone, Copy, Debug, PartialEq, Eq, Structural)]
pub enum DispatchOutcome {
    /// The node at `node` in the chain consumed the event; its handler for
    /// `action` runs once.
    Handled { node: usize, action: Action },
    /// No node in the chain handles the event; it falls through to default
    /// handling.
    NoHandler,
}

/// The action that `node` takes for `chord`, if it has a handler for what the
/// chord means in the node's context.
pub open spec fn handled_at(table: &KeyBindingTable, chord: Chord, node: &FocusNode) -> Option<
    Action,
> {
    match table.resolves(chord, node.context) {
        Some(a) => if node.handlers@.contains(a) {
            Some(a)
        } else {
            None
        },
        None => None,
    }
}

/// The outcome of bubbling `chord` from the focused node (index 0) toward the
/// root: the first node with a matching handler consumes it.
pub open spec fn dispatch_spec(
    table: &KeyBindingTable,
    chord: Chord,
    chain: Seq<FocusNode>,
    r: DispatchOutcome,
) -> bool {
    match r {
        DispatchOutcome::Handled { node, action } => node < chain.len() && handled_at(
            table,
            chord,
            &chain[node as int],
        ) == Some(action) && forall|j: int|
            0 <= j < node ==> #[trigger] handled_at(table, chord, &chain[j]) is None,
        DispatchOutcome::NoHandler => forall|j: int|
            0 <= j < chain.len() ==> #[trigger] handled_at(table, chord, &chain[j]) is None,
    }
}

fn has_handler(handlers: &Vec<Action>, action: Action) -> (r: bool)
    ensures
        r == handlers@.contains(action),
{
    let mut i: usize = 0;
    while i < handlers.len()
        invariant
            i <= handlers@.len(),
            forall|j: int| 0 <= j < i ==> handlers@[j] != action,
        decreases handlers@.len() - i,
    {
        if handlers[i] == action {
            return true;
        }
        i = i + 1;
    }
    false
}

/// Bubbles a key event through the focus chain, focused node first, and
/// reports which node consumes it.
pub fn dispatch(table: &KeyBindingTable, chord: Chord, chain: &Vec<FocusNode>) -> (r:
    DispatchOutcome)
    ensures
        dispatch_spec(table, chord, chain@, r),
{
    let mut i: usize = 0;
    while i < chain.len()
        invariant
            i <= chain@.len(),
            forall|j: int| 0 <= j < i ==> #[trigger] handled_at(table, chord, &chain@[j]) is None,
        decreases chain@.len() - i,
    {
        let node = &chain[i];
        match table.resolve(chord, node.context) {
            Some(a) => {
                if has_handler(&node.handlers, a) {
                    return DispatchOutcome::Handled { node: i, action: a };
                }
            },
            None => {},
        }
        i = i + 1;
    }
    DispatchOutcome::NoHandler
}

/// When some node of the chain handles what the chord resolves to, dispatch
/// consumes the event at exactly one node, with exactly one action.
pub proof fn lemma_dispatch_handles_bound_chord(
    table: &KeyBindingTable,
    chord: Chord,
    chain: Seq<FocusNode>,
    k: int,
    r: DispatchOutcome,
)
    requires
        0 <= k < chain.len(),
        handled_at(table, chord, &chain[k]) is Some,
        dispatch_spec(table, chord, chain, r),
    ensures
        r is Handled,
        r matches DispatchOutcome::Handled { node, action } && node <= k && handled_at(
            table,
            chord,
            &chain[node as int],
        ) == Some(action) && table.resolves(chord, chain[node as int].context) == Some(action),
{
}

/// When no node of the chain handles what the chord resolves to, dispatch
/// reports that nothing handled it.
pub proof fn lemma_dispatch_unhandled_chord(
    table: &KeyBindingTable,
    chord: Chord,
    chain: Seq<FocusNode>,
    r: DispatchOutcome,
)
    requires
        forall|j: int| 0 <= j < chain.len() ==> #[trigger] handled_at(table, chord, &chain[j]) is None,
        dispatch_spec(table, chord, chain, r),
    ensures
        r == DispatchOutcome::NoHandler,
{
}

} // verus!
