//! The entry point: one event in, the state brought up to date, and the
//! effects of the event out.
//!
//! Events are handled one at a time and to the end. Each is routed by its
//! kind; the seat it concerns is the one that owns the device it comes from.
//! An event from a device that no seat owns, and an event of a kind that is
//! not routed, changes nothing and has no effect.

use vstd::prelude::*;
use crate::events::{DispatchError, Effect, InputEvent, yields};
use crate::geometry::Position;
use crate::hotplug::{device_added_post, device_removed_post};
use crate::keyboard::keyboard_post;
use crate::pointer::{
    pointer_axis_post, pointer_button_post, pointer_motion_absolute_post, pointer_motion_post,
    spec_screen_for,
};
use crate::seat::spec_active_output;
use crate::state::{
    Common, lemma_owner, lemma_screen_holding, lemma_screen_of_output, spec_active_screen,
    spec_owner,
};

verus! {

/// Whether `result` is a success whose effects meet `post`.
pub open spec fn succeeds_with(
    result: Result<Vec<Effect>, DispatchError>,
    post: spec_fn(Seq<Effect>) -> bool,
) -> bool {
    match result {
        Ok(list) => post(list@),
        Err(_) => false,
    }
}

/// How `event` changes the state from `old` to `new`, and what it yields:
/// for each kind of event, what the handler of that kind brings about.
pub open spec fn process_input_event_post(
    old: Common,
    new: Common,
    event: InputEvent,
    result: Result<Vec<Effect>, DispatchError>,
) -> bool {
    match event {
        InputEvent::DeviceAdded { device, capabilities } => succeeds_with(
            result,
            |effects: Seq<Effect>| device_added_post(old, new, device@, capabilities, effects),
        ),
        InputEvent::DeviceRemoved { device } => succeeds_with(
            result,
            |effects: Seq<Effect>| device_removed_post(old, new, device@, effects),
        ),
        InputEvent::Keyboard { device, keycode, pressed, time, modifiers, syms } => keyboard_post(
            old,
            new,
            device@,
            keycode,
            pressed,
            time,
            modifiers,
            syms@,
            result,
        ),
        InputEvent::PointerMotion { device, delta, time } => pointer_motion_post(
            old,
            new,
            device@,
            delta,
            time,
            result,
        ),
        InputEvent::PointerMotionAbsolute {
            device,
            position,
            time,
        } => pointer_motion_absolute_post(old, new, device@, position, time, result),
        InputEvent::PointerButton { device, button, pressed, time } => pointer_button_post(
            old,
            new,
            device@,
            button,
            pressed,
            time,
            result,
        ),
        InputEvent::PointerAxis {
            device,
            source,
            horizontal,
            vertical,
            time,
        } => pointer_axis_post(old, new, device@, source, horizontal, vertical, time, result),
        InputEvent::Other => new == old && yields(result, seq![]),
    }
}

impl Common {
    /// Handles one event of the input backend: brings the state up to date
    /// and returns, in order, what the compositor is to carry out.
    ///
    /// Fails, with the state unchanged, where a key or pointer event comes
    /// from a device of a seat that lacks the keyboard or pointer to handle
    /// it.
    pub fn process_input_event(&mut self, event: InputEvent) -> (result: Result<
        Vec<Effect>,
        DispatchError,
    >)
        requires
            old(self).wf(),
        ensures
            final(self).wf(),
            process_input_event_post(*old(self), *final(self), event, result),
            result.is_err() ==> *final(self) == *old(self),
    {
        match event {
            InputEvent::DeviceAdded { device, capabilities } => Ok(
                self.device_added(device, capabilities),
            ),
            InputEvent::DeviceRemoved { device } => Ok(self.device_removed(&device)),
            InputEvent::Keyboard {
                device,
                keycode,
                pressed,
                time,
                modifiers,
                syms,
            } => self.keyboard(&device, keycode, pressed, time, &modifiers, &syms),
            InputEvent::PointerMotion { device, delta, time } => self.pointer_motion(
                &device,
                delta,
                time,
            ),
            InputEvent::PointerMotionAbsolute {
                device,
                position,
                time,
            } => self.pointer_motion_absolute(&device, position, time),
            InputEvent::PointerButton { device, button, pressed, time } => self.pointer_button(
                &device,
                button,
                pressed,
                time,
            ),
            InputEvent::PointerAxis {
                device,
                source,
                horizontal,
                vertical,
                time,
            } => self.pointer_axis(&device, source, horizontal, vertical, time),
            InputEvent::Other => Ok(Vec::new()),
        }
    }
}

/// After a relative motion the pointer lies within the output that it is
/// then on, from that output's corner to the corner opposite, however far
/// the motion would have carried it; and the seat names that output as the
/// one it is on.
pub proof fn lemma_motion_stays_on_output(
    old: Common,
    new: Common,
    device: Seq<char>,
    delta: Position,
    time: u32,
    result: Result<Vec<Effect>, DispatchError>,
)
    requires
        old.wf(),
        pointer_motion_post(old, new, device, delta, time, result),
        result.is_ok(),
        spec_owner(old.seats@, device).is_some(),
    ensures
        ({
            let s = spec_owner(old.seats@, device).unwrap();
            let seat = old.seats@[s];
            let t = spec_screen_for(
                old,
                seat.pointer_location.spec_moved_by(delta),
                spec_active_screen(seat@, old),
            );
            &&& 0 <= s < old.seats@.len()
            &&& 0 <= t < old.screens@.len()
            &&& new.screens@[t].output == old.screens@[t].output
            &&& new.screens@[t].output.geometry.bounds(new.seats@[s].pointer_location)
            &&& spec_active_output(new.seats@[s]@, new) == new.screens@[t].output.id
        }),
{
    let s = spec_owner(old.seats@, device).unwrap();
    lemma_owner(old.seats@, device, 0);
    let seat = old.seats@[s];
    let moved = seat.pointer_location.spec_moved_by(delta);
    lemma_screen_of_output(old.screens@, spec_active_output(seat@, old), 0);
    lemma_screen_holding(old.screens@, moved, 0);
    let t = spec_screen_for(old, moved, spec_active_screen(seat@, old));
    assert(new.seats@[s]@.pointer_location == new.seats@[s].pointer_location);
    assert(new.seats@[s]@.active_output == new.seats@[s].active_output);
    if t != 0 {
        assert(new.screens@[0] == old.screens@[0]);
    }
}

} // verus!
