//! The pointer pipeline: motion, buttons and scrolling.

use vstd::prelude::*;
use crate::events::{DispatchError, Effect, fails_with, yields};
use crate::geometry::{
    Location, Position, UNITS_PER_PIXEL, clamp_int, round_to_pixel, rounded_pixels_between,
    saturating_sum, sum_saturating,
};
use crate::hit_test::{Hit, spec_focus_under, spec_surface_under};
use crate::scene::Screen;
use crate::scroll::{AxisInput, AxisSource, axis_frame, spec_axis_frame};
use crate::seat::{ActiveOutput, SeatView, active_output, spec_active_output};
use crate::state::{Common, screen_holding_from, spec_active_screen, spec_owner, spec_pointer_taker};
use crate::windows::{handle_window_movement, spec_windows_after_move};

verus! {

impl Screen {
    /// `p`, a position in the coordinates that all outputs share, in the
    /// coordinates of the workspace that this screen shows. Each coordinate
    /// saturates at the ends of `i64`.
    pub open spec fn spec_space_relative(self, p: Position) -> Position {
        Position {
            x: clamp_int(
                p.x - UNITS_PER_PIXEL * (self.output.geometry.x - self.space.output_geometry.x),
                i64::MIN as int,
                i64::MAX as int,
            ) as i64,
            y: clamp_int(
                p.y - UNITS_PER_PIXEL * (self.output.geometry.y - self.space.output_geometry.y),
                i64::MIN as int,
                i64::MAX as int,
            ) as i64,
        }
    }

    /// The place that `offset` names, counted from the output's corner, in
    /// the coordinates that all outputs share.
    pub open spec fn spec_absolute(self, offset: Position) -> Position {
        Position {
            x: saturating_sum(self.output.geometry.x * UNITS_PER_PIXEL, offset.x as int) as i64,
            y: saturating_sum(self.output.geometry.y * UNITS_PER_PIXEL, offset.y as int) as i64,
        }
    }

    /// Brings `p` into the coordinates of the workspace that this screen
    /// shows.
    pub fn space_relative(&self, p: Position) -> (relative: Position)
        ensures
            relative == self.spec_space_relative(p),
    {
        let dx: i64 = UNITS_PER_PIXEL * (self.output.geometry.x as i64
            - self.space.output_geometry.x as i64);
        let dy: i64 = UNITS_PER_PIXEL * (self.output.geometry.y as i64
            - self.space.output_geometry.y as i64);
        Position { x: sum_saturating(p.x, -dx), y: sum_saturating(p.y, -dy) }
    }

    /// The place that `offset` names, counted from the output's corner.
    pub fn absolute(&self, offset: Position) -> (place: Position)
        ensures
            place == self.spec_absolute(offset),
    {
        Position {
            x: sum_saturating(self.output.geometry.x as i64 * UNITS_PER_PIXEL, offset.x),
            y: sum_saturating(self.output.geometry.y as i64 * UNITS_PER_PIXEL, offset.y),
        }
    }
}

/// `position` in whole pixels.
pub open spec fn spec_rounded(position: Position) -> Location {
    Location { x: round_to_pixel(position.x as int) as i64, y: round_to_pixel(position.y as int) as i64 }
}

/// The surface of a hit, if there is a hit.
pub open spec fn surface_of(under: Option<Hit>) -> Option<u64> {
    match under {
        Some(hit) => Some(hit.surface),
        None => None,
    }
}

/// What a motion of the pointer of the seat at place `seat` yields: the
/// motion event for the client, and for the first seat a report to the debug
/// overlay, if there is one.
pub open spec fn spec_motion_effects(
    seat: usize,
    position: Position,
    under: Option<Hit>,
    time: u32,
    overlay_present: bool,
) -> Seq<Effect> {
    let motion = seq![Effect::Motion { seat, position, under, time }];
    if seat == 0 && overlay_present {
        motion + seq![Effect::OverlayMotion { location: spec_rounded(position) }]
    } else {
        motion
    }
}

/// How putting the pointer of the seat at place `s` at `position` on the
/// screen at place `t` changes the state from `old` to `new`, and what it
/// yields: the seat remembers the position, and with `follow` also the
/// output, where that is another than before; a window that is being moved
/// and lies under the pointer is moved; and the client learns of the motion.
pub open spec fn pointer_placed(
    old: Common,
    new: Common,
    s: int,
    t: int,
    position: Position,
    follow: bool,
    time: u32,
    result: Result<Vec<Effect>, DispatchError>,
) -> bool {
    let seat = old.seats@[s];
    let screen = old.screens@[t];
    let relative = screen.spec_space_relative(position);
    let under = spec_surface_under(position, relative, screen.output, screen.space);
    &&& new.seats@.len() == old.seats@.len()
    &&& forall|j: int| 0 <= j < old.seats@.len() && j != s ==> new.seats@[j] == old.seats@[j]
    &&& new.seats@[s]@ == (SeatView {
        pointer_location: position,
        active_output: if follow && screen.output.id != spec_active_output(seat@, old) {
            Some(ActiveOutput(screen.output.id))
        } else {
            seat.active_output
        },
        ..seat@
    })
    &&& new.seats@[s].devices == seat.devices
    &&& new.screens@.len() == old.screens@.len()
    &&& forall|j: int|
        0 <= j < old.screens@.len() && j != t ==> new.screens@[j] == old.screens@[j]
    &&& new.screens@[t].output == screen.output
    &&& new.screens@[t].space.output_geometry == screen.space.output_geometry
    &&& new.screens@[t].space.windows@ == spec_windows_after_move(
        screen.space.windows@,
        surface_of(under),
    )
    &&& new.last_active_seat == old.last_active_seat
    &&& new.key_bindings == old.key_bindings
    &&& new.overlay == old.overlay
    &&& new.should_stop == old.should_stop
    &&& yields(
        result,
        spec_motion_effects(
            s as usize,
            position,
            under,
            time,
            old.overlay.interceptors@.len() > 0,
        ),
    )
}

/// The place of the screen on which a pointer at `moved` is: the first
/// screen whose output holds `moved`, or the screen at place `current` where
/// none does.
pub open spec fn spec_screen_for(old: Common, moved: Position, current: int) -> int {
    match screen_holding_from(old.screens@, moved, 0) {
        Some(i) => i,
        None => current,
    }
}

/// How a relative motion from the device `device` changes the state from
/// `old` to `new`, and what it yields. The pointer goes to its old place
/// plus `delta`, then to the nearest place of the output that it is then on.
pub open spec fn pointer_motion_post(
    old: Common,
    new: Common,
    device: Seq<char>,
    delta: Position,
    time: u32,
    result: Result<Vec<Effect>, DispatchError>,
) -> bool {
    match spec_owner(old.seats@, device) {
        None => new == old && yields(result, seq![]),
        Some(s) => if !old.seats@[s].pointer {
            new == old && fails_with(result, DispatchError::MissingPointer { seat: s as usize })
        } else {
            let seat = old.seats@[s];
            let moved = seat.pointer_location.spec_moved_by(delta);
            let t = spec_screen_for(old, moved, spec_active_screen(seat@, old));
            pointer_placed(
                old,
                new,
                s,
                t,
                old.screens@[t].output.geometry.spec_clamp(moved),
                true,
                time,
                result,
            )
        },
    }
}

/// How an absolute motion from the device `device` changes the state from
/// `old` to `new`, and what it yields. The pointer goes to `offset`, counted
/// from the corner of the output that the seat is on, and stays on that
/// output.
pub open spec fn pointer_motion_absolute_post(
    old: Common,
    new: Common,
    device: Seq<char>,
    offset: Position,
    time: u32,
    result: Result<Vec<Effect>, DispatchError>,
) -> bool {
    match spec_owner(old.seats@, device) {
        None => new == old && yields(result, seq![]),
        Some(s) => if !old.seats@[s].pointer {
            new == old && fails_with(result, DispatchError::MissingPointer { seat: s as usize })
        } else {
            let t = spec_active_screen(old.seats@[s]@, old);
            pointer_placed(
                old,
                new,
                s,
                t,
                old.screens@[t].spec_absolute(offset),
                false,
                time,
                result,
            )
        },
    }
}

/// The surface that a button event of the seat `seat` gives the keyboard
/// focus to: on a press, unless the pointer is grabbed, the surface under
/// the pointer that takes the focus, if there is one.
pub open spec fn spec_press_focus(old: Common, seat: SeatView, pressed: bool) -> Option<u64> {
    if pressed && !seat.pointer_grabbed {
        let screen = old.screens@[spec_active_screen(seat, old)];
        spec_focus_under(
            screen.spec_space_relative(seat.pointer_location),
            screen.output,
            screen.space,
        )
    } else {
        None
    }
}

/// What a button event of the seat at place `seat` yields: the change of
/// keyboard focus, if there is one, and the button event for the client.
pub open spec fn spec_button_effects(
    seat: usize,
    focus: Option<u64>,
    button: u32,
    pressed: bool,
    time: u32,
) -> Seq<Effect> {
    let event = seq![Effect::Button { seat, button, pressed, time }];
    match focus {
        Some(surface) => seq![Effect::KeyboardFocus { seat, surface }] + event,
        None => event,
    }
}

/// How a button event from the device `device` changes the state from `old`
/// to `new`, and what it yields. Where the debug overlay takes the event,
/// nothing else happens. Else a press may move the keyboard focus, which
/// otherwise stays as it is, and the client gets the event in any case.
pub open spec fn pointer_button_post(
    old: Common,
    new: Common,
    device: Seq<char>,
    button: u32,
    pressed: bool,
    time: u32,
    result: Result<Vec<Effect>, DispatchError>,
) -> bool {
    match spec_owner(old.seats@, device) {
        None => new == old && yields(result, seq![]),
        Some(s) => match spec_pointer_taker(old.overlay, s) {
            Some(i) => new == old && yields(
                result,
                seq![Effect::OverlayButton { interceptor: i as usize, button, pressed }],
            ),
            None => if !old.seats@[s].pointer {
                new == old && fails_with(
                    result,
                    DispatchError::MissingPointer { seat: s as usize },
                )
            } else {
                let seat = old.seats@[s];
                let focus = spec_press_focus(old, seat@, pressed);
                &&& new.differs_in_seat(old, s)
                &&& new.seats@[s]@ == (SeatView {
                    keyboard_focus: match focus {
                        Some(surface) => Some(surface),
                        None => seat.keyboard_focus,
                    },
                    ..seat@
                })
                &&& new.seats@[s].devices == seat.devices
                &&& yields(result, spec_button_effects(s as usize, focus, button, pressed, time))
            },
        },
    }
}

/// How a scroll event from the device `device` changes the state, which is
/// not at all, and what it yields: the event for the debug overlay where
/// that takes it, else the scroll frame for the client.
pub open spec fn pointer_axis_post(
    old: Common,
    new: Common,
    device: Seq<char>,
    source: AxisSource,
    horizontal: AxisInput,
    vertical: AxisInput,
    time: u32,
    result: Result<Vec<Effect>, DispatchError>,
) -> bool {
    &&& new == old
    &&& match spec_owner(old.seats@, device) {
        None => yields(result, seq![]),
        Some(s) => match spec_pointer_taker(old.overlay, s) {
            Some(i) => yields(
                result,
                seq![Effect::OverlayAxis { interceptor: i as usize, horizontal, vertical }],
            ),
            None => if !old.seats@[s].pointer {
                fails_with(result, DispatchError::MissingPointer { seat: s as usize })
            } else {
                yields(
                    result,
                    seq![
                        Effect::Axis {
                            seat: s as usize,
                            frame: spec_axis_frame(time, source, horizontal, vertical),
                        },
                    ],
                )
            },
        },
    }
}

impl Common {
    /// Puts the pointer of the seat at place `seat` at `position` on the
    /// screen at place `target`.
    fn place_pointer(
        &mut self,
        seat: usize,
        target: usize,
        position: Position,
        follow: bool,
        time: u32,
    ) -> (result: Result<Vec<Effect>, DispatchError>)
        requires
            old(self).wf(),
            seat < old(self).seats@.len(),
            target < old(self).screens@.len(),
        ensures
            final(self).wf(),
            pointer_placed(
                *old(self),
                *final(self),
                seat as int,
                target as int,
                position,
                follow,
                time,
                result,
            ),
    {
        let current = active_output(&self.seats[seat], self);
        let id = self.screens[target].output.id;
        let relative = self.screens[target].space_relative(position);
        let under = Common::surface_under(
            position,
            relative,
            &self.screens[target].output,
            &self.screens[target].space,
        );
        let surface = match under {
            Some(hit) => Some(hit.surface),
            None => None,
        };
        handle_window_movement(surface, &mut self.screens[target].space);
        if follow && id != current {
            self.seats[seat].active_output = Some(ActiveOutput(id));
        }
        self.seats[seat].pointer_location = position;
        let mut effects: Vec<Effect> = Vec::new();
        effects.push(Effect::Motion { seat, position, under, time });
        if seat == 0 && self.overlay.interceptors.len() > 0 {
            let location = Location {
                x: rounded_pixels_between(0, position.x),
                y: rounded_pixels_between(0, position.y),
            };
            effects.push(Effect::OverlayMotion { location });
        }
        proof {
            assert(effects@ =~= spec_motion_effects(
                seat,
                position,
                under,
                time,
                old(self).overlay.interceptors@.len() > 0,
            ));
            assert forall|i: int| 0 <= i < self.seats@.len() implies (#[trigger] self.seats@[i]).wf() by {
                if i != seat {
                    assert(self.seats@[i] == old(self).seats@[i]);
                }
            }
        }
        Ok(effects)
    }

    /// Routes a relative motion from the device `device`.
    pub fn pointer_motion(&mut self, device: &String, delta: Position, time: u32) -> (result: Result<
        Vec<Effect>,
        DispatchError,
    >)
        requires
            old(self).wf(),
        ensures
            final(self).wf(),
            pointer_motion_post(*old(self), *final(self), device@, delta, time, result),
    {
        let seat = match self.seat_of_device(device) {
            Some(seat) => seat,
            None => {
                return Ok(Vec::new());
            },
        };
        if !self.seats[seat].pointer {
            return Err(DispatchError::MissingPointer { seat });
        }
        let moved = self.seats[seat].pointer_location.moved_by(delta);
        let target = match self.screen_holding(moved) {
            Some(target) => target,
            None => self.active_screen(seat),
        };
        let position = self.screens[target].output.geometry.clamp(moved);
        self.place_pointer(seat, target, position, true, time)
    }

    /// Routes an absolute motion from the device `device`.
    pub fn pointer_motion_absolute(&mut self, device: &String, offset: Position, time: u32) -> (result:
        Result<Vec<Effect>, DispatchError>)
        requires
            old(self).wf(),
        ensures
            final(self).wf(),
            pointer_motion_absolute_post(*old(self), *final(self), device@, offset, time, result),
    {
        let seat = match self.seat_of_device(device) {
            Some(seat) => seat,
            None => {
                return Ok(Vec::new());
            },
        };
        if !self.seats[seat].pointer {
            return Err(DispatchError::MissingPointer { seat });
        }
        let target = self.active_screen(seat);
        let position = self.screens[target].absolute(offset);
        self.place_pointer(seat, target, position, false, time)
    }

    /// Routes a button event from the device `device`.
    pub fn pointer_button(&mut self, device: &String, button: u32, pressed: bool, time: u32) -> (result:
        Result<Vec<Effect>, DispatchError>)
        requires
            old(self).wf(),
        ensures
            final(self).wf(),
            pointer_button_post(*old(self), *final(self), device@, button, pressed, time, result),
    {
        let mut effects: Vec<Effect> = Vec::new();
        let seat = match self.seat_of_device(device) {
            Some(seat) => seat,
            None => {
                return Ok(effects);
            },
        };
        match self.overlay.pointer_taker(seat) {
            Some(interceptor) => {
                effects.push(Effect::OverlayButton { interceptor, button, pressed });
                assert(effects@ =~= seq![Effect::OverlayButton { interceptor, button, pressed }]);
                return Ok(effects);
            },
            None => {},
        }
        if !self.seats[seat].pointer {
            return Err(DispatchError::MissingPointer { seat });
        }
        let mut focus: Option<u64> = None;
        if pressed && !self.seats[seat].pointer_grabbed {
            let target = self.active_screen(seat);
            let screen = &self.screens[target];
            let relative = screen.space_relative(self.seats[seat].pointer_location);
            focus = Common::focus_under(relative, &screen.output, &screen.space);
        }
        match focus {
            Some(surface) => {
                self.seats[seat].keyboard_focus = Some(surface);
                effects.push(Effect::KeyboardFocus { seat, surface });
            },
            None => {},
        }
        effects.push(Effect::Button { seat, button, pressed, time });
        proof {
            assert(effects@ =~= spec_button_effects(seat, focus, button, pressed, time));
            assert forall|i: int| 0 <= i < self.seats@.len() implies (#[trigger] self.seats@[i]).wf() by {
                if i != seat {
                    assert(self.seats@[i] == old(self).seats@[i]);
                }
            }
        }
        Ok(effects)
    }

    /// Routes a scroll event from the device `device`.
    pub fn pointer_axis(
        &self,
        device: &String,
        source: AxisSource,
        horizontal: AxisInput,
        vertical: AxisInput,
        time: u32,
    ) -> (result: Result<Vec<Effect>, DispatchError>)
        ensures
            pointer_axis_post(*self, *self, device@, source, horizontal, vertical, time, result),
    {
        let mut effects: Vec<Effect> = Vec::new();
        let seat = match self.seat_of_device(device) {
            Some(seat) => seat,
            None => {
                return Ok(effects);
            },
        };
        match self.overlay.pointer_taker(seat) {
            Some(interceptor) => {
                effects.push(Effect::OverlayAxis { interceptor, horizontal, vertical });
                assert(effects@ =~= seq![Effect::OverlayAxis { interceptor, horizontal, vertical }]);
                return Ok(effects);
            },
            None => {},
        }
        if !self.seats[seat].pointer {
            return Err(DispatchError::MissingPointer { seat });
        }
        let frame = axis_frame(time, source, horizontal, vertical);
        effects.push(Effect::Axis { seat, frame });
        assert(effects@ =~= seq![Effect::Axis { seat, frame }]);
        Ok(effects)
    }
}

} // verus!
