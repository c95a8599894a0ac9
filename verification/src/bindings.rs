//! Key bindings and the actions they stand for.
//!
//! A binding names a set of modifiers and a keysym. It matches a key press
//! when exactly its modifiers are held and its keysym is among those that the
//! pressed key produces. Of several matching bindings the first in the table
//! decides.

use vstd::prelude::*;

verus! {

/// The modifier keys that a binding distinguishes.
#[derive(Clone, Copy, Debug, PartialEq, Eq, Structural)]
pub struct Modifiers {
    pub ctrl: bool,
    pub alt: bool,
    pub shift: bool,
    /// The "super" or "logo" key.
    pub logo: bool,
}

/// A direction in which the keyboard focus can move.
#[derive(Clone, Copy, Debug, PartialEq, Eq, Structural)]
pub enum FocusDirection {
    Left,
    Right,
    Up,
    Down,
}

/// The way in which an output lays out its windows.
#[derive(Clone, Copy, Debug, PartialEq, Eq, Structural)]
pub enum Orientation {
    Horizontal,
    Vertical,
}

/// What the compositor does when a binding matches.
#[derive(Clone, Debug, PartialEq, Eq)]
pub enum Action {
    /// Stop the compositor.
    Terminate,
    /// Show or hide the debug overlay.
    ToggleDebug,
    /// Ask the focused window to close.
    CloseFocused,
    /// Show the workspace of the given key number.
    SwitchWorkspace(u8),
    /// Move the focused window to the workspace of the given key number.
    MoveWindowToWorkspace(u8),
    /// Move the keyboard focus.
    MoveFocus(FocusDirection),
    /// Change how the active output lays out its windows.
    SetOutputOrientation(Orientation),
    /// Run a shell command.
    SpawnCommand(String),
}

/// One line of the binding table.
#[derive(Clone, Debug, PartialEq, Eq)]
pub struct KeyBinding {
    pub modifiers: Modifiers,
    pub key: u32,
    pub action: Action,
}

impl Modifiers {
    /// No modifier held.
    pub fn none() -> (modifiers: Modifiers)
        ensures
            modifiers == (Modifiers { ctrl: false, alt: false, shift: false, logo: false }),
    {
        Modifiers { ctrl: false, alt: false, shift: false, logo: false }
    }

    /// Tests whether exactly the same modifiers are held.
    pub fn same_as(&self, other: &Modifiers) -> (same: bool)
        ensures
            same == (*self == *other),
    {
        self.ctrl == other.ctrl && self.alt == other.alt && self.shift == other.shift && self.logo
            == other.logo
    }
}

impl Action {
    /// A copy of the action.
    pub fn duplicate(&self) -> (copy: Action)
        ensures
            copy == *self,
    {
        match self {
            Action::Terminate => Action::Terminate,
            Action::ToggleDebug => Action::ToggleDebug,
            Action::CloseFocused => Action::CloseFocused,
            Action::SwitchWorkspace(n) => Action::SwitchWorkspace(*n),
            Action::MoveWindowToWorkspace(n) => Action::MoveWindowToWorkspace(*n),
            Action::MoveFocus(direction) => Action::MoveFocus(*direction),
            Action::SetOutputOrientation(orientation) => Action::SetOutputOrientation(
                *orientation,
            ),
            Action::SpawnCommand(command) => Action::SpawnCommand(command.clone()),
        }
    }
}

/// The workspace that a key number stands for: the keys `1` to `9` name the
/// first nine workspaces, the key `0` the tenth.
pub open spec fn spec_workspace_index(key_number: u8) -> int {
    if key_number == 0 {
        9
    } else {
        key_number - 1
    }
}

/// The workspace that a key number stands for.
pub fn workspace_index(key_number: u8) -> (index: usize)
    ensures
        index == spec_workspace_index(key_number),
{
    if key_number == 0 {
        9
    } else {
        (key_number - 1) as usize
    }
}

/// Whether `binding` matches a press with exactly `modifiers` held of a key
/// that produces `syms`.
pub open spec fn binding_matches(binding: KeyBinding, modifiers: Modifiers, syms: Seq<u32>) -> bool {
    binding.modifiers == modifiers && syms.contains(binding.key)
}

/// The place of the first binding at or after `from` that matches.
pub open spec fn first_match_from(
    table: Seq<KeyBinding>,
    modifiers: Modifiers,
    syms: Seq<u32>,
    from: int,
) -> Option<int>
    decreases table.len() - from,
{
    if from < 0 || from >= table.len() {
        None
    } else if binding_matches(table[from], modifiers, syms) {
        Some(from)
    } else {
        first_match_from(table, modifiers, syms, from + 1)
    }
}

/// The place of the first matching binding of the table.
pub open spec fn first_match(table: Seq<KeyBinding>, modifiers: Modifiers, syms: Seq<u32>) -> Option<
    int,
> {
    first_match_from(table, modifiers, syms, 0)
}

/// The action that the table yields for a press.
pub open spec fn resolve(table: Seq<KeyBinding>, modifiers: Modifiers, syms: Seq<u32>) -> Option<
    Action,
> {
    match first_match(table, modifiers, syms) {
        Some(i) => Some(table[i].action),
        None => None,
    }
}

/// Tests whether `key` is among `syms`.
pub fn produces(syms: &Vec<u32>, key: u32) -> (found: bool)
    ensures
        found == syms@.contains(key),
{
    let mut i: usize = 0;
    while i < syms.len()
        invariant
            i <= syms.len(),
            forall|j: int| 0 <= j < i ==> syms@[j] != key,
        decreases syms.len() - i,
    {
        if syms[i] == key {
            return true;
        }
        i += 1;
    }
    false
}

/// Finds the first binding of the table that matches a press with exactly
/// `modifiers` held of a key that produces `syms`.
pub fn find_binding(table: &Vec<KeyBinding>, modifiers: &Modifiers, syms: &Vec<u32>) -> (place:
    Option<usize>)
    ensures
        place.is_some() == first_match(table@, *modifiers, syms@).is_some(),
        place matches Some(i) ==> first_match(table@, *modifiers, syms@) == Some(i as int),
        place matches Some(i) ==> i < table@.len() && binding_matches(
            table@[i as int],
            *modifiers,
            syms@,
        ),
{
    let mut i: usize = 0;
    while i < table.len()
        invariant
            i <= table.len(),
            first_match(table@, *modifiers, syms@) == first_match_from(
                table@,
                *modifiers,
                syms@,
                i as int,
            ),
        decreases table.len() - i,
    {
        if table[i].modifiers.same_as(modifiers) && produces(syms, table[i].key) {
            return Some(i);
        }
        i += 1;
    }
    None
}

/// Yields the action of the first binding of the table that matches, or
/// nothing where none does.
pub fn resolve_action<'a>(
    table: &'a Vec<KeyBinding>,
    modifiers: &Modifiers,
    syms: &Vec<u32>,
) -> (action: Option<&'a Action>)
    ensures
        action.is_some() == resolve(table@, *modifiers, syms@).is_some(),
        action matches Some(a) ==> resolve(table@, *modifiers, syms@) == Some(*a),
{
    match find_binding(table, modifiers, syms) {
        Some(i) => Some(&table[i].action),
        None => None,
    }
}

/// The first match lies within the table and matches, and no binding before
/// it does; there is none exactly where no binding matches.
pub proof fn lemma_first_match(
    table: Seq<KeyBinding>,
    modifiers: Modifiers,
    syms: Seq<u32>,
    from: int,
)
    requires
        0 <= from,
    ensures
        match first_match_from(table, modifiers, syms, from) {
            Some(i) => from <= i < table.len() && binding_matches(table[i], modifiers, syms)
                && forall|j: int| from <= j < i ==> !binding_matches(table[j], modifiers, syms),
            None => forall|j: int|
                from <= j < table.len() ==> !binding_matches(table[j], modifiers, syms),
        },
    decreases table.len() - from,
{
    if from < table.len() && !binding_matches(table[from], modifiers, syms) {
        lemma_first_match(table, modifiers, syms, from + 1);
    }
}

/// A press yields an action only from a binding whose modifiers are exactly
/// those held and whose keysym the key produces; with any other modifiers
/// held, or another key, that binding stays silent.
pub proof fn lemma_resolved_binding_matches(
    table: Seq<KeyBinding>,
    modifiers: Modifiers,
    syms: Seq<u32>,
)
    ensures
        first_match(table, modifiers, syms) matches Some(i) ==> table[i].modifiers == modifiers
            && syms.contains(table[i].key),
        resolve(table, modifiers, syms).is_some() <==> exists|j: int|
            0 <= j < table.len() && binding_matches(#[trigger] table[j], modifiers, syms),
{
    lemma_first_match(table, modifiers, syms, 0);
}

} // verus!
