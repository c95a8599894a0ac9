//! The keyboard pipeline: what becomes of a key event, and what a bound
//! action sets in motion.
//!
//! Each key event gets one of four verdicts, the first that applies:
//! the release of a key whose press was swallowed is swallowed too; the
//! debug overlay takes the event where it is offered it and wants it; a
//! press that matches a binding sets that binding's action in motion; any
//! other event goes on to the client that has the keyboard focus. Whatever
//! swallows an event other than such a release puts the key on record, so
//! that its release is swallowed in turn.

use vstd::prelude::*;
use crate::bindings::{
    Action, KeyBinding, Modifiers, find_binding, first_match, spec_workspace_index,
    workspace_index,
};
use crate::events::{DispatchError, Effect, fails_with, yields};
use crate::keys::{without_first, lemma_add_then_filter, lemma_filter_never_grows};
use crate::seat::{SeatView, active_output, spec_active_output};
use crate::state::{Common, Overlay, spec_keyboard_taker, spec_owner};

verus! {

/// What becomes of a key event.
#[derive(Clone, Copy, Debug, PartialEq, Eq, Structural)]
pub enum KeyVerdict {
    /// It is the release of a key whose press was swallowed, and is
    /// swallowed without more ado.
    Suppressed,
    /// The part of the debug overlay at this place takes it.
    Overlay(usize),
    /// The binding at this place of the table matches it.
    Bound(usize),
    /// It goes on to the client.
    Forward,
}

/// The verdict on a key event of the seat at place `seat`, which has
/// `suppressed` on record.
pub open spec fn spec_key_verdict(
    suppressed: Seq<u32>,
    overlay: Overlay,
    table: Seq<KeyBinding>,
    seat: int,
    keycode: u32,
    pressed: bool,
    modifiers: Modifiers,
    syms: Seq<u32>,
) -> KeyVerdict {
    if !pressed && suppressed.contains(keycode) {
        KeyVerdict::Suppressed
    } else {
        match spec_keyboard_taker(overlay, seat) {
            Some(i) => KeyVerdict::Overlay(i as usize),
            None => match first_match(table, modifiers, syms) {
                Some(b) => if pressed {
                    KeyVerdict::Bound(b as usize)
                } else {
                    KeyVerdict::Forward
                },
                None => KeyVerdict::Forward,
            },
        }
    }
}

/// The record of suppressed keys after a key event with the given verdict.
pub open spec fn spec_suppressed_after(suppressed: Seq<u32>, verdict: KeyVerdict, keycode: u32) -> Seq<
    u32,
> {
    match verdict {
        KeyVerdict::Suppressed => without_first(suppressed, keycode),
        KeyVerdict::Overlay(_) => suppressed.push(keycode),
        KeyVerdict::Bound(_) => suppressed.push(keycode),
        KeyVerdict::Forward => suppressed,
    }
}

/// What an action asks the compositor to carry out, for the seat at place
/// `seat`, which is on the output `output`. Stopping and toggling the debug
/// overlay are changes of the state and ask for nothing.
pub open spec fn spec_action_effects(action: Action, seat: usize, output: u64) -> Seq<Effect> {
    match action {
        Action::Terminate => seq![],
        Action::ToggleDebug => seq![],
        Action::CloseFocused => seq![Effect::CloseFocused { seat, output }],
        Action::SwitchWorkspace(n) => seq![
            Effect::ActivateWorkspace {
                seat,
                output,
                workspace: spec_workspace_index(n) as usize,
            },
        ],
        Action::MoveWindowToWorkspace(n) => seq![
            Effect::MoveWindowToWorkspace {
                seat,
                output,
                workspace: spec_workspace_index(n) as usize,
            },
        ],
        Action::MoveFocus(direction) => seq![Effect::MoveFocus { seat, output, direction }],
        Action::SetOutputOrientation(orientation) => seq![
            Effect::SetOrientation { seat, output, orientation },
        ],
        Action::SpawnCommand(command) => seq![Effect::Spawn { command }],
    }
}

/// Whether the compositor is to stop after `action`.
pub open spec fn spec_stop_after(stop: bool, action: Action) -> bool {
    stop || action == Action::Terminate
}

/// Whether the debug overlay is shown after `action`.
pub open spec fn spec_overlay_shown_after(shown: bool, action: Action) -> bool {
    if action == Action::ToggleDebug {
        !shown
    } else {
        shown
    }
}

/// What a key event with the given verdict asks the compositor to carry out.
pub open spec fn spec_key_effects(
    verdict: KeyVerdict,
    table: Seq<KeyBinding>,
    seat: usize,
    output: u64,
    keycode: u32,
    pressed: bool,
    time: u32,
    modifiers: Modifiers,
) -> Seq<Effect> {
    match verdict {
        KeyVerdict::Suppressed => seq![],
        KeyVerdict::Overlay(interceptor) => seq![
            Effect::OverlayKey { interceptor, keycode, pressed, modifiers },
        ],
        KeyVerdict::Bound(b) => spec_action_effects(table[b as int].action, seat, output),
        KeyVerdict::Forward => seq![Effect::Key { seat, keycode, pressed, time }],
    }
}

/// The action that a verdict sets in motion, if any.
pub open spec fn spec_bound_action(verdict: KeyVerdict, table: Seq<KeyBinding>) -> Option<Action> {
    match verdict {
        KeyVerdict::Bound(b) => Some(table[b as int].action),
        _ => None,
    }
}

/// How a key event from the device `device` changes the state from `old` to
/// `new`, and what it yields.
///
/// An event from a device that no seat owns changes and yields nothing. One
/// from a device of a seat without a keyboard is a fault. Any other event
/// is judged. The seat's suppressed keys follow from the judgement, a bound
/// action may stop the compositor or toggle the debug overlay, and the
/// effects are those that the judgement calls for.
pub open spec fn keyboard_post(
    old: Common,
    new: Common,
    device: Seq<char>,
    keycode: u32,
    pressed: bool,
    time: u32,
    modifiers: Modifiers,
    syms: Seq<u32>,
    result: Result<Vec<Effect>, DispatchError>,
) -> bool {
    match spec_owner(old.seats@, device) {
        None => new == old && yields(result, seq![]),
        Some(s) => if !old.seats@[s].keyboard {
            new == old && fails_with(result, DispatchError::MissingKeyboard { seat: s as usize })
        } else {
            let seat = old.seats@[s];
            let verdict = spec_key_verdict(
                seat@.suppressed_keys,
                old.overlay,
                old.key_bindings@,
                s,
                keycode,
                pressed,
                modifiers,
                syms,
            );
            let action = spec_bound_action(verdict, old.key_bindings@);
            &&& new.seats@.len() == old.seats@.len()
            &&& forall|j: int|
                0 <= j < old.seats@.len() && j != s ==> new.seats@[j] == old.seats@[j]
            &&& new.seats@[s]@ == (SeatView {
                suppressed_keys: spec_suppressed_after(seat@.suppressed_keys, verdict, keycode),
                ..seat@
            })
            &&& new.seats@[s].devices == seat.devices
            &&& new.last_active_seat == old.last_active_seat
            &&& new.screens == old.screens
            &&& new.key_bindings == old.key_bindings
            &&& new.overlay.interceptors == old.overlay.interceptors
            &&& new.overlay.active == (match action {
                Some(a) => spec_overlay_shown_after(old.overlay.active, a),
                None => old.overlay.active,
            })
            &&& new.should_stop == (match action {
                Some(a) => spec_stop_after(old.should_stop, a),
                None => old.should_stop,
            })
            &&& yields(
                result,
                spec_key_effects(
                    verdict,
                    old.key_bindings@,
                    s as usize,
                    spec_active_output(seat@, old),
                    keycode,
                    pressed,
                    time,
                    modifiers,
                ),
            )
        },
    }
}

impl Common {
    /// Gives the verdict on a key event of the seat at place `seat`, and
    /// brings that seat's record of suppressed keys up to date.
    pub fn filter_key(
        &mut self,
        seat: usize,
        keycode: u32,
        pressed: bool,
        modifiers: &Modifiers,
        syms: &Vec<u32>,
    ) -> (verdict: KeyVerdict)
        requires
            seat < old(self).seats@.len(),
        ensures
            verdict == spec_key_verdict(
                old(self).seats@[seat as int]@.suppressed_keys,
                old(self).overlay,
                old(self).key_bindings@,
                seat as int,
                keycode,
                pressed,
                *modifiers,
                syms@,
            ),
            verdict matches KeyVerdict::Bound(b) ==> b < old(self).key_bindings@.len(),
            final(self).differs_in_seat(*old(self), seat as int),
            final(self).seats@[seat as int]@ == (SeatView {
                suppressed_keys: spec_suppressed_after(
                    old(self).seats@[seat as int]@.suppressed_keys,
                    verdict,
                    keycode,
                ),
                ..old(self).seats@[seat as int]@
            }),
            final(self).seats@[seat as int].devices == old(self).seats@[seat as int].devices,
    {
        if !pressed && self.seats[seat].suppressed_keys.filter(keycode) {
            return KeyVerdict::Suppressed;
        }
        match self.overlay.keyboard_taker(seat) {
            Some(interceptor) => {
                self.seats[seat].suppressed_keys.add(keycode);
                return KeyVerdict::Overlay(interceptor);
            },
            None => {},
        }
        if pressed {
            match find_binding(&self.key_bindings, modifiers, syms) {
                Some(b) => {
                    self.seats[seat].suppressed_keys.add(keycode);
                    return KeyVerdict::Bound(b);
                },
                None => {},
            }
        }
        KeyVerdict::Forward
    }

    /// Sets `action` in motion for the seat at place `seat`.
    pub fn run_action(&mut self, seat: usize, action: &Action) -> (effects: Vec<Effect>)
        requires
            seat < old(self).seats@.len(),
            old(self).screens@.len() > 0,
        ensures
            effects@ == spec_action_effects(
                *action,
                seat,
                spec_active_output(old(self).seats@[seat as int]@, *old(self)),
            ),
            final(self).should_stop == spec_stop_after(old(self).should_stop, *action),
            final(self).overlay.active == spec_overlay_shown_after(
                old(self).overlay.active,
                *action,
            ),
            final(self).overlay.interceptors == old(self).overlay.interceptors,
            final(self).seats == old(self).seats,
            final(self).last_active_seat == old(self).last_active_seat,
            final(self).screens == old(self).screens,
            final(self).key_bindings == old(self).key_bindings,
    {
        let output = active_output(&self.seats[seat], self);
        let mut effects: Vec<Effect> = Vec::new();
        match action {
            Action::Terminate => {
                self.should_stop = true;
            },
            Action::ToggleDebug => {
                self.overlay.active = !self.overlay.active;
            },
            Action::CloseFocused => {
                effects.push(Effect::CloseFocused { seat, output });
            },
            Action::SwitchWorkspace(n) => {
                effects.push(
                    Effect::ActivateWorkspace { seat, output, workspace: workspace_index(*n) },
                );
            },
            Action::MoveWindowToWorkspace(n) => {
                effects.push(
                    Effect::MoveWindowToWorkspace { seat, output, workspace: workspace_index(*n) },
                );
            },
            Action::MoveFocus(direction) => {
                effects.push(Effect::MoveFocus { seat, output, direction: *direction });
            },
            Action::SetOutputOrientation(orientation) => {
                effects.push(Effect::SetOrientation { seat, output, orientation: *orientation });
            },
            Action::SpawnCommand(command) => {
                effects.push(Effect::Spawn { command: command.clone() });
            },
        }
        assert(effects@ =~= spec_action_effects(
            *action,
            seat,
            spec_active_output(old(self).seats@[seat as int]@, *old(self)),
        ));
        effects
    }

    /// Routes a key event from the device `device`.
    pub fn keyboard(
        &mut self,
        device: &String,
        keycode: u32,
        pressed: bool,
        time: u32,
        modifiers: &Modifiers,
        syms: &Vec<u32>,
    ) -> (result: Result<Vec<Effect>, DispatchError>)
        requires
            old(self).wf(),
        ensures
            final(self).wf(),
            keyboard_post(
                *old(self),
                *final(self),
                device@,
                keycode,
                pressed,
                time,
                *modifiers,
                syms@,
                result,
            ),
    {
        let seat = match self.seat_of_device(device) {
            Some(seat) => seat,
            None => {
                return Ok(Vec::new());
            },
        };
        if !self.seats[seat].keyboard {
            return Err(DispatchError::MissingKeyboard { seat });
        }
        let verdict = self.filter_key(seat, keycode, pressed, modifiers, syms);
        let mut effects: Vec<Effect> = Vec::new();
        match verdict {
            KeyVerdict::Suppressed => {},
            KeyVerdict::Overlay(interceptor) => {
                effects.push(
                    Effect::OverlayKey { interceptor, keycode, pressed, modifiers: *modifiers },
                );
            },
            KeyVerdict::Bound(b) => {
                let action = self.key_bindings[b].action.duplicate();
                effects = self.run_action(seat, &action);
            },
            KeyVerdict::Forward => {
                effects.push(Effect::Key { seat, keycode, pressed, time });
            },
        }
        proof {
            assert(effects@ =~= spec_key_effects(
                verdict,
                old(self).key_bindings@,
                seat,
                spec_active_output(old(self).seats@[seat as int]@, *old(self)),
                keycode,
                pressed,
                time,
                *modifiers,
            ));
            assert forall|i: int| 0 <= i < self.seats@.len() implies (#[trigger] self.seats@[i]).wf() by {
                if i != seat {
                    assert(self.seats@[i] == old(self).seats@[i]);
                }
            }
        }
        Ok(effects)
    }
}

/// A key press that is swallowed, by the debug overlay or by a binding, puts
/// the key on record; the release that follows is swallowed too, whatever
/// the overlay and the bindings then are, and takes exactly one record of the
/// key away, so that every key is on record as often as before the press.
pub proof fn lemma_swallowed_press_then_release(
    suppressed: Seq<u32>,
    overlay: Overlay,
    table: Seq<KeyBinding>,
    seat: int,
    keycode: u32,
    modifiers: Modifiers,
    syms: Seq<u32>,
    overlay_at_release: Overlay,
    table_at_release: Seq<KeyBinding>,
    modifiers_at_release: Modifiers,
)
    requires
        spec_key_verdict(suppressed, overlay, table, seat, keycode, true, modifiers, syms)
            != KeyVerdict::Forward,
    ensures
        ({
            let press = spec_key_verdict(
                suppressed,
                overlay,
                table,
                seat,
                keycode,
                true,
                modifiers,
                syms,
            );
            let held = spec_suppressed_after(suppressed, press, keycode);
            let release = spec_key_verdict(
                held,
                overlay_at_release,
                table_at_release,
                seat,
                keycode,
                false,
                modifiers_at_release,
                syms,
            );
            let after = spec_suppressed_after(held, release, keycode);
            &&& press != KeyVerdict::Suppressed
            &&& held == suppressed.push(keycode)
            &&& release == KeyVerdict::Suppressed
            &&& after.len() == suppressed.len()
            &&& after.to_multiset() == suppressed.to_multiset()
        }),
{
    let held = suppressed.push(keycode);
    assert(held[suppressed.len() as int] == keycode);
    lemma_add_then_filter(suppressed, keycode);
}

/// A key press that goes on to the client leaves the record of suppressed
/// keys as it is, and the release that follows never lengthens it.
pub proof fn lemma_forwarded_press_then_release(
    suppressed: Seq<u32>,
    overlay: Overlay,
    table: Seq<KeyBinding>,
    seat: int,
    keycode: u32,
    modifiers: Modifiers,
    syms: Seq<u32>,
)
    requires
        spec_key_verdict(suppressed, overlay, table, seat, keycode, true, modifiers, syms)
            == KeyVerdict::Forward,
    ensures
        ({
            let held = spec_suppressed_after(suppressed, KeyVerdict::Forward, keycode);
            let release = spec_key_verdict(
                held,
                overlay,
                table,
                seat,
                keycode,
                false,
                modifiers,
                syms,
            );
            let after = spec_suppressed_after(held, release, keycode);
            &&& held == suppressed
            &&& after.len() <= suppressed.len()
            &&& !suppressed.contains(keycode) ==> release == KeyVerdict::Forward && after
                == suppressed
        }),
{
    lemma_filter_never_grows(suppressed, keycode);
}

} // verus!
