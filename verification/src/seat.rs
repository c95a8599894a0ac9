//! A seat: one user's input devices, and what the compositor remembers
//! about them between events.

use vstd::prelude::*;
use crate::devices::{CapabilitySet, Devices};
use crate::geometry::Position;
use crate::keys::SupressedKeys;
use crate::scene::Output;
use crate::state::Common;

verus! {

/// How the cursor of a seat is drawn.
#[derive(Clone, Copy, Debug, PartialEq, Eq, Structural)]
pub enum CursorStatus {
    /// No cursor is drawn.
    Hidden,
    /// The compositor draws its own cursor.
    Default,
    /// The client surface of this identifier is drawn as the cursor.
    Surface(u64),
}

/// The output that a seat's pointer is on, by its identifier. The seat does
/// not own the output.
#[derive(Clone, Copy, Debug, PartialEq, Eq, Structural)]
pub struct ActiveOutput(pub u64);

/// One user's input devices and their state.
pub struct Seat {
    pub name: String,
    /// The attached devices.
    pub devices: Devices,
    /// The keys whose release is to be swallowed.
    pub suppressed_keys: SupressedKeys,
    /// The output that the pointer is on, once that is known.
    pub active_output: Option<ActiveOutput>,
    pub cursor_status: CursorStatus,
    /// Whether the seat has a keyboard.
    pub keyboard: bool,
    /// Whether the seat has a pointer.
    pub pointer: bool,
    /// Where the pointer is.
    pub pointer_location: Position,
    /// Whether all pointer input is held by one client or window operation.
    pub pointer_grabbed: bool,
    /// The surface that receives key events.
    pub keyboard_focus: Option<u64>,
}

/// A seat as a plain value.
pub struct SeatView {
    pub name: Seq<char>,
    pub devices: Map<Seq<char>, CapabilitySet>,
    pub suppressed_keys: Seq<u32>,
    pub active_output: Option<ActiveOutput>,
    pub cursor_status: CursorStatus,
    pub keyboard: bool,
    pub pointer: bool,
    pub pointer_location: Position,
    pub pointer_grabbed: bool,
    pub keyboard_focus: Option<u64>,
}

impl View for Seat {
    type V = SeatView;

    open spec fn view(&self) -> SeatView {
        SeatView {
            name: self.name@,
            devices: self.devices@,
            suppressed_keys: self.suppressed_keys@,
            active_output: self.active_output,
            cursor_status: self.cursor_status,
            keyboard: self.keyboard,
            pointer: self.pointer,
            pointer_location: self.pointer_location,
            pointer_grabbed: self.pointer_grabbed,
            keyboard_focus: self.keyboard_focus,
        }
    }
}

impl SeatView {
    /// The capabilities that the seat holds active.
    pub open spec fn active(self) -> CapabilitySet {
        CapabilitySet { keyboard: self.keyboard, pointer: self.pointer }
    }
}

impl Seat {
    /// Whether the seat is sound, which every seat made by [`add_seat`] is.
    pub open spec fn wf(&self) -> bool {
        self.devices.wf()
    }

    /// Tests whether the seat is sound.
    pub fn is_sound(&self) -> (sound: bool)
        ensures
            sound == self.wf(),
    {
        self.devices.is_sound()
    }
}

/// Makes the seat `name`: without devices, without a keyboard or pointer,
/// with no suppressed key, no active output and the default cursor.
pub fn add_seat(name: String) -> (seat: Seat)
    ensures
        seat.wf(),
        seat@ == (SeatView {
            name: name@,
            devices: Map::empty(),
            suppressed_keys: Seq::empty(),
            active_output: None,
            cursor_status: CursorStatus::Default,
            keyboard: false,
            pointer: false,
            pointer_location: Position { x: 0, y: 0 },
            pointer_grabbed: false,
            keyboard_focus: None,
        }),
{
    Seat {
        name,
        devices: Devices::new(),
        suppressed_keys: SupressedKeys::new(),
        active_output: None,
        cursor_status: CursorStatus::Default,
        keyboard: false,
        pointer: false,
        pointer_location: Position { x: 0, y: 0 },
        pointer_grabbed: false,
        keyboard_focus: None,
    }
}

/// The identifier of the output that `seat` is on: the one last set, or the
/// first output of `state` where none was ever set.
pub open spec fn spec_active_output(seat: SeatView, state: Common) -> u64 {
    match seat.active_output {
        Some(active) => active.0,
        None => state.screens@[0].output.id,
    }
}

/// The identifier of the output that `seat` is on: the one last set, or the
/// first output of `state` where none was ever set.
pub fn active_output(seat: &Seat, state: &Common) -> (id: u64)
    requires
        seat.active_output.is_some() || state.screens@.len() > 0,
    ensures
        id == spec_active_output(seat@, *state),
{
    match seat.active_output {
        Some(active) => active.0,
        None => state.screens[0].output.id,
    }
}

/// Records that `seat` is on `output`.
pub fn set_active_output(seat: &mut Seat, output: &Output)
    ensures
        final(seat)@ == (SeatView { active_output: Some(ActiveOutput(output.id)), ..old(seat)@ }),
        final(seat).wf() == old(seat).wf(),
        final(seat).devices == old(seat).devices,
{
    seat.active_output = Some(ActiveOutput(output.id));
}

} // verus!
