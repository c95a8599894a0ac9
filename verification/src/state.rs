//! The compositor state that routing input reads and changes.

use vstd::prelude::*;
use crate::bindings::KeyBinding;
use crate::events::same_place;
use crate::geometry::Position;
use crate::scene::Screen;
use crate::seat::{active_output, spec_active_output, Seat, SeatView};

verus! {

/// A part of the debug overlay that may take input before any client does.
#[derive(Clone, Copy, Debug, PartialEq, Eq, Structural)]
pub struct Interceptor {
    /// Whether it wants the key events of this frame.
    pub wants_keyboard: bool,
    /// Whether it wants the button and scroll events of this frame.
    pub wants_pointer: bool,
}

/// The debug overlay. It is offered the input of the first seat only, and
/// only while it is shown.
#[derive(Clone, Debug, PartialEq, Eq)]
pub struct Overlay {
    /// Whether the overlay is shown.
    pub active: bool,
    /// Its parts, in the order in which they are asked.
    pub interceptors: Vec<Interceptor>,
}

/// The state of the compositor, as far as input is concerned.
pub struct Common {
    /// The seats; the first is the primary seat.
    pub seats: Vec<Seat>,
    /// The place of the seat that receives newly attached devices.
    pub last_active_seat: usize,
    /// The outputs, each with the workspace that it shows.
    pub screens: Vec<Screen>,
    /// The binding table.
    pub key_bindings: Vec<KeyBinding>,
    pub overlay: Overlay,
    /// Whether the compositor has been told to stop.
    pub should_stop: bool,
}

impl Common {
    /// Whether the state is sound: there is an output, the seat that
    /// receives new devices exists, and every seat is sound.
    pub open spec fn wf(&self) -> bool {
        &&& self.screens@.len() > 0
        &&& self.last_active_seat < self.seats@.len()
        &&& forall|i: int| 0 <= i < self.seats@.len() ==> (#[trigger] self.seats@[i]).wf()
    }

    /// Tests whether the state is sound.
    pub fn is_sound(&self) -> (sound: bool)
        ensures
            sound == self.wf(),
    {
        if self.screens.len() == 0 || self.last_active_seat >= self.seats.len() {
            return false;
        }
        let mut i: usize = 0;
        while i < self.seats.len()
            invariant
                i <= self.seats.len(),
                forall|j: int| 0 <= j < i ==> (#[trigger] self.seats@[j]).wf(),
            decreases self.seats.len() - i,
        {
            if !self.seats[i].is_sound() {
                return false;
            }
            i += 1;
        }
        true
    }

    /// Whether this state differs from `old` in nothing but the seat at
    /// place `seat`.
    pub open spec fn differs_in_seat(self, old: Common, seat: int) -> bool {
        &&& self.seats@.len() == old.seats@.len()
        &&& forall|j: int|
            0 <= j < old.seats@.len() && j != seat ==> self.seats@[j] == old.seats@[j]
        &&& self.last_active_seat == old.last_active_seat
        &&& self.screens == old.screens
        &&& self.key_bindings == old.key_bindings
        &&& self.overlay == old.overlay
        &&& self.should_stop == old.should_stop
    }

    /// Puts the state together.
    pub fn new(
        seats: Vec<Seat>,
        last_active_seat: usize,
        screens: Vec<Screen>,
        key_bindings: Vec<KeyBinding>,
        overlay: Overlay,
    ) -> (state: Common)
        ensures
            state.seats == seats,
            state.last_active_seat == last_active_seat,
            state.screens == screens,
            state.key_bindings == key_bindings,
            state.overlay == overlay,
            !state.should_stop,
    {
        Common { seats, last_active_seat, screens, key_bindings, overlay, should_stop: false }
    }
}

/// The place of the first interceptor at or after `from` that wants the key
/// events.
pub open spec fn keyboard_taker_from(interceptors: Seq<Interceptor>, from: int) -> Option<int>
    decreases interceptors.len() - from,
{
    if from < 0 || from >= interceptors.len() {
        None
    } else if interceptors[from].wants_keyboard {
        Some(from)
    } else {
        keyboard_taker_from(interceptors, from + 1)
    }
}

/// The place of the first interceptor at or after `from` that wants the
/// button and scroll events.
pub open spec fn pointer_taker_from(interceptors: Seq<Interceptor>, from: int) -> Option<int>
    decreases interceptors.len() - from,
{
    if from < 0 || from >= interceptors.len() {
        None
    } else if interceptors[from].wants_pointer {
        Some(from)
    } else {
        pointer_taker_from(interceptors, from + 1)
    }
}

/// The interceptor that takes a key event of the seat at place `seat`: the
/// first that wants it, if the overlay is shown and the seat is the first.
pub open spec fn spec_keyboard_taker(overlay: Overlay, seat: int) -> Option<int> {
    if seat == 0 && overlay.active {
        keyboard_taker_from(overlay.interceptors@, 0)
    } else {
        None
    }
}

/// The interceptor that takes a button or scroll event of the seat at place
/// `seat`: the first that wants it, if the overlay is shown and the seat is
/// the first.
pub open spec fn spec_pointer_taker(overlay: Overlay, seat: int) -> Option<int> {
    if seat == 0 && overlay.active {
        pointer_taker_from(overlay.interceptors@, 0)
    } else {
        None
    }
}

impl Overlay {
    /// An overlay without parts, which never takes input.
    pub fn absent() -> (overlay: Overlay)
        ensures
            !overlay.active,
            overlay.interceptors@.len() == 0,
    {
        Overlay { active: false, interceptors: Vec::new() }
    }

    /// Finds the interceptor that takes a key event of the seat at place
    /// `seat`.
    pub fn keyboard_taker(&self, seat: usize) -> (taker: Option<usize>)
        ensures
            same_place(taker, spec_keyboard_taker(*self, seat as int)),
            taker matches Some(i) ==> i < self.interceptors@.len(),
    {
        if seat != 0 || !self.active {
            return None;
        }
        let mut i: usize = 0;
        while i < self.interceptors.len()
            invariant
                i <= self.interceptors.len(),
                seat == 0 && self.active,
                keyboard_taker_from(self.interceptors@, 0) == keyboard_taker_from(
                    self.interceptors@,
                    i as int,
                ),
            decreases self.interceptors.len() - i,
        {
            if self.interceptors[i].wants_keyboard {
                return Some(i);
            }
            i += 1;
        }
        None
    }

    /// Finds the interceptor that takes a button or scroll event of the seat
    /// at place `seat`.
    pub fn pointer_taker(&self, seat: usize) -> (taker: Option<usize>)
        ensures
            same_place(taker, spec_pointer_taker(*self, seat as int)),
            taker matches Some(i) ==> i < self.interceptors@.len(),
    {
        if seat != 0 || !self.active {
            return None;
        }
        let mut i: usize = 0;
        while i < self.interceptors.len()
            invariant
                i <= self.interceptors.len(),
                seat == 0 && self.active,
                pointer_taker_from(self.interceptors@, 0) == pointer_taker_from(
                    self.interceptors@,
                    i as int,
                ),
            decreases self.interceptors.len() - i,
        {
            if self.interceptors[i].wants_pointer {
                return Some(i);
            }
            i += 1;
        }
        None
    }
}

/// The place of the first seat at or after `from` to which the device
/// `device` is attached.
pub open spec fn owner_from(seats: Seq<Seat>, device: Seq<char>, from: int) -> Option<int>
    decreases seats.len() - from,
{
    if from < 0 || from >= seats.len() {
        None
    } else if seats[from]@.devices.dom().contains(device) {
        Some(from)
    } else {
        owner_from(seats, device, from + 1)
    }
}

/// The place of the first seat to which the device `device` is attached.
pub open spec fn spec_owner(seats: Seq<Seat>, device: Seq<char>) -> Option<int> {
    owner_from(seats, device, 0)
}

/// The place of the first screen at or after `from` whose output has the
/// identifier `id`.
pub open spec fn screen_of_output_from(screens: Seq<Screen>, id: u64, from: int) -> Option<int>
    decreases screens.len() - from,
{
    if from < 0 || from >= screens.len() {
        None
    } else if screens[from].output.id == id {
        Some(from)
    } else {
        screen_of_output_from(screens, id, from + 1)
    }
}

/// The place of the first screen at or after `from` whose output holds `p`.
pub open spec fn screen_holding_from(screens: Seq<Screen>, p: Position, from: int) -> Option<int>
    decreases screens.len() - from,
{
    if from < 0 || from >= screens.len() {
        None
    } else if screens[from].output.geometry.spec_contains(p) {
        Some(from)
    } else {
        screen_holding_from(screens, p, from + 1)
    }
}

/// The place of the screen that the seat is on: the first screen with the
/// identifier that the seat names as its active output, or the first screen
/// of all where no screen has that identifier.
pub open spec fn spec_active_screen(seat: SeatView, state: Common) -> int {
    match screen_of_output_from(state.screens@, spec_active_output(seat, state), 0) {
        Some(i) => i,
        None => 0,
    }
}

impl Common {
    /// Finds the first seat to which the device `device` is attached.
    pub fn seat_of_device(&self, device: &String) -> (owner: Option<usize>)
        ensures
            same_place(owner, spec_owner(self.seats@, device@)),
            owner matches Some(i) ==> i < self.seats@.len() && self.seats@[i as int]@.devices.dom().contains(
                device@,
            ),
    {
        let mut i: usize = 0;
        while i < self.seats.len()
            invariant
                i <= self.seats.len(),
                spec_owner(self.seats@, device@) == owner_from(self.seats@, device@, i as int),
            decreases self.seats.len() - i,
        {
            if self.seats[i].devices.has_device(device) {
                return Some(i);
            }
            i += 1;
        }
        None
    }

    /// Finds the first screen whose output has the identifier `id`.
    pub fn screen_of_output(&self, id: u64) -> (place: Option<usize>)
        ensures
            same_place(place, screen_of_output_from(self.screens@, id, 0)),
            place matches Some(i) ==> i < self.screens@.len(),
    {
        let mut i: usize = 0;
        while i < self.screens.len()
            invariant
                i <= self.screens.len(),
                screen_of_output_from(self.screens@, id, 0) == screen_of_output_from(
                    self.screens@,
                    id,
                    i as int,
                ),
            decreases self.screens.len() - i,
        {
            if self.screens[i].output.id == id {
                return Some(i);
            }
            i += 1;
        }
        None
    }

    /// Finds the first screen whose output holds `p`.
    pub fn screen_holding(&self, p: Position) -> (place: Option<usize>)
        ensures
            same_place(place, screen_holding_from(self.screens@, p, 0)),
            place matches Some(i) ==> i < self.screens@.len(),
    {
        let mut i: usize = 0;
        while i < self.screens.len()
            invariant
                i <= self.screens.len(),
                screen_holding_from(self.screens@, p, 0) == screen_holding_from(
                    self.screens@,
                    p,
                    i as int,
                ),
            decreases self.screens.len() - i,
        {
            if self.screens[i].output.geometry.contains(p) {
                return Some(i);
            }
            i += 1;
        }
        None
    }

    /// The place of the screen that the seat at place `seat` is on.
    pub fn active_screen(&self, seat: usize) -> (place: usize)
        requires
            seat < self.seats@.len(),
            self.screens@.len() > 0,
        ensures
            place == spec_active_screen(self.seats@[seat as int]@, *self),
            place < self.screens@.len(),
    {
        let id = active_output(&self.seats[seat], self);
        match self.screen_of_output(id) {
            Some(i) => i,
            None => 0,
        }
    }
}

/// The owner that is found lies among the seats and has the device.
pub proof fn lemma_owner(seats: Seq<Seat>, device: Seq<char>, from: int)
    requires
        0 <= from,
    ensures
        match owner_from(seats, device, from) {
            Some(i) => from <= i < seats.len() && seats[i]@.devices.dom().contains(device)
                && forall|j: int| from <= j < i ==> !seats[j]@.devices.dom().contains(device),
            None => forall|j: int|
                from <= j < seats.len() ==> !seats[j]@.devices.dom().contains(device),
        },
    decreases seats.len() - from,
{
    if from < seats.len() && !seats[from]@.devices.dom().contains(device) {
        lemma_owner(seats, device, from + 1);
    }
}

/// The screen that is found for an identifier lies among the screens and
/// its output has that identifier.
pub proof fn lemma_screen_of_output(screens: Seq<Screen>, id: u64, from: int)
    requires
        0 <= from,
    ensures
        match screen_of_output_from(screens, id, from) {
            Some(i) => from <= i < screens.len() && screens[i].output.id == id,
            None => forall|j: int| from <= j < screens.len() ==> screens[j].output.id != id,
        },
    decreases screens.len() - from,
{
    if from < screens.len() && screens[from].output.id != id {
        lemma_screen_of_output(screens, id, from + 1);
    }
}

/// The screen that is found for a position lies among the screens and its
/// output holds the position.
pub proof fn lemma_screen_holding(screens: Seq<Screen>, p: Position, from: int)
    requires
        0 <= from,
    ensures
        match screen_holding_from(screens, p, from) {
            Some(i) => from <= i < screens.len() && screens[i].output.geometry.spec_contains(p),
            None => forall|j: int|
                from <= j < screens.len() ==> !screens[j].output.geometry.spec_contains(p),
        },
    decreases screens.len() - from,
{
    if from < screens.len() && !screens[from].output.geometry.spec_contains(p) {
        lemma_screen_holding(screens, p, from + 1);
    }
}

} // verus!
