//! The default keybinding tables of the Helix-style driver.

use vstd::prelude::*;

verus! {

use crate::events::{EventV, HelixEvent, HelixNormal, ReedlineEvent};
use crate::keybindings::{
    Keybindings, NodeV, combo, control_bindings, edit_bindings, navigation_bindings,
    selection_bindings, add_common_control_bindings, add_common_edit_bindings,
    add_common_navigation_bindings, add_common_selection_bindings,
};
use crate::keys::{KeyCode, KeyCombination, KeyModifiers};

/// The default Helix Normal-mode table: the common control, navigation and
/// selection bindings, plus the Normal-mode commands.
pub open spec fn helix_normal_default_bindings() -> Map<KeyCombination, NodeV> {
    selection_bindings(navigation_bindings(control_bindings(Map::empty()))).insert(
        combo(KeyModifiers::spec_none(), KeyCode::Esc),
        NodeV::Event(EventV::Helix(HelixEvent::NormalMode)),
    ).insert(
        combo(KeyModifiers::spec_none(), KeyCode::Char('i')),
        NodeV::Event(EventV::Helix(HelixEvent::Normal(HelixNormal::InsertMode))),
    ).insert(
        combo(KeyModifiers::spec_none(), KeyCode::Char('v')),
        NodeV::Event(EventV::Helix(HelixEvent::Normal(HelixNormal::SelectMode))),
    ).insert(
        combo(KeyModifiers::spec_none(), KeyCode::Char('h')),
        NodeV::Event(EventV::Helix(HelixEvent::Normal(HelixNormal::MoveCharLeft))),
    ).insert(
        combo(KeyModifiers::spec_none(), KeyCode::Char('j')),
        NodeV::Event(EventV::Helix(HelixEvent::Normal(HelixNormal::MoveVisualLineDown))),
    ).insert(
        combo(KeyModifiers::spec_none(), KeyCode::Char('k')),
        NodeV::Event(EventV::Helix(HelixEvent::Normal(HelixNormal::MoveVisualLineUp))),
    ).insert(
        combo(KeyModifiers::spec_none(), KeyCode::Char('l')),
        NodeV::Event(EventV::Helix(HelixEvent::Normal(HelixNormal::MoveCharRight))),
    ).insert(
        combo(KeyModifiers::spec_none(), KeyCode::Char('w')),
        NodeV::Event(EventV::Helix(HelixEvent::Normal(HelixNormal::MoveNextWordStart))),
    ).insert(
        combo(KeyModifiers::spec_none(), KeyCode::Char('b')),
        NodeV::Event(EventV::Helix(HelixEvent::Normal(HelixNormal::MovePrevWordStart))),
    ).insert(
        combo(KeyModifiers::spec_none(), KeyCode::Char('e')),
        NodeV::Event(EventV::Helix(HelixEvent::Normal(HelixNormal::MoveNextWordEnd))),
    ).insert(
        combo(KeyModifiers::spec_shift(), KeyCode::Char('w')),
        NodeV::Event(EventV::Helix(HelixEvent::Normal(HelixNormal::MoveNextLongWordStart))),
    ).insert(
        combo(KeyModifiers::spec_shift(), KeyCode::Char('b')),
        NodeV::Event(EventV::Helix(HelixEvent::Normal(HelixNormal::MovePrevLongWordStart))),
    ).insert(
        combo(KeyModifiers::spec_shift(), KeyCode::Char('e')),
        NodeV::Event(EventV::Helix(HelixEvent::Normal(HelixNormal::MoveNextLongWordEnd))),
    )
}

/// The default Helix Insert-mode table: the four common binding sets, with
/// Escape returning to Normal mode.
pub open spec fn helix_insert_default_bindings() -> Map<KeyCombination, NodeV> {
    selection_bindings(edit_bindings(navigation_bindings(control_bindings(Map::empty())))).insert(
        combo(KeyModifiers::spec_none(), KeyCode::Esc),
        NodeV::Event(EventV::Helix(HelixEvent::NormalMode)),
    )
}

/// Default Helix normal mode keybindings
pub fn default_helix_normal_keybindings() -> (r: Keybindings)
    ensures
        r.wf(),
        r@ == helix_normal_default_bindings(),
{
    let mut kb = Keybindings::new();

    add_common_control_bindings(&mut kb);
    add_common_navigation_bindings(&mut kb);
    add_common_selection_bindings(&mut kb);

    kb.bind_single(
        KeyModifiers::none(),
        KeyCode::Esc,
        ReedlineEvent::Helix(HelixEvent::NormalMode),
    );
    kb.bind_single(
        KeyModifiers::none(),
        KeyCode::Char('i'),
        ReedlineEvent::Helix(HelixEvent::Normal(HelixNormal::InsertMode)),
    );
    kb.bind_single(
        KeyModifiers::none(),
        KeyCode::Char('v'),
        ReedlineEvent::Helix(HelixEvent::Normal(HelixNormal::SelectMode)),
    );
    kb.bind_single(
        KeyModifiers::none(),
        KeyCode::Char('h'),
        ReedlineEvent::Helix(HelixEvent::Normal(HelixNormal::MoveCharLeft)),
    );
    kb.bind_single(
        KeyModifiers::none(),
        KeyCode::Char('j'),
        ReedlineEvent::Helix(HelixEvent::Normal(HelixNormal::MoveVisualLineDown)),
    );
    kb.bind_single(
        KeyModifiers::none(),
        KeyCode::Char('k'),
        ReedlineEvent::Helix(HelixEvent::Normal(HelixNormal::MoveVisualLineUp)),
    );
    kb.bind_single(
        KeyModifiers::none(),
        KeyCode::Char('l'),
        ReedlineEvent::Helix(HelixEvent::Normal(HelixNormal::MoveCharRight)),
    );
    kb.bind_single(
        KeyModifiers::none(),
        KeyCode::Char('w'),
        ReedlineEvent::Helix(HelixEvent::Normal(HelixNormal::MoveNextWordStart)),
    );
    kb.bind_single(
        KeyModifiers::none(),
        KeyCode::Char('b'),
        ReedlineEvent::Helix(HelixEvent::Normal(HelixNormal::MovePrevWordStart)),
    );
    kb.bind_single(
        KeyModifiers::none(),
        KeyCode::Char('e'),
        ReedlineEvent::Helix(HelixEvent::Normal(HelixNormal::MoveNextWordEnd)),
    );
    kb.bind_single(
        KeyModifiers::shift(),
        KeyCode::Char('w'),
        ReedlineEvent::Helix(HelixEvent::Normal(HelixNormal::MoveNextLongWordStart)),
    );
    kb.bind_single(
        KeyModifiers::shift(),
        KeyCode::Char('b'),
        ReedlineEvent::Helix(HelixEvent::Normal(HelixNormal::MovePrevLongWordStart)),
    );
    kb.bind_single(
        KeyModifiers::shift(),
        KeyCode::Char('e'),
        ReedlineEvent::Helix(HelixEvent::Normal(HelixNormal::MoveNextLongWordEnd)),
    );

    kb
}

/// Default Helix insert keybindings
pub fn default_helix_insert_keybindings() -> (r: Keybindings)
    ensures
        r.wf(),
        r@ == helix_insert_default_bindings(),
{
    let mut kb = Keybindings::new();

    add_common_control_bindings(&mut kb);
    add_common_navigation_bindings(&mut kb);
    add_common_edit_bindings(&mut kb);
    add_common_selection_bindings(&mut kb);

    kb.bind_single(
        KeyModifiers::none(),
        KeyCode::Esc,
        ReedlineEvent::Helix(HelixEvent::NormalMode),
    );

    kb
}

} // verus!
