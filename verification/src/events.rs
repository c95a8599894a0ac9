//! What comes in and what goes out: the events of the input backend, and the
//! effects that the compositor is to carry out for them.

use vstd::prelude::*;
use crate::bindings::{FocusDirection, Modifiers, Orientation};
use crate::devices::CapabilitySet;
use crate::geometry::{Location, Position};
use crate::hit_test::Hit;
use crate::scroll::{AxisFrame, AxisInput, AxisSource};

verus! {

/// The delay, in milliseconds, before a held key begins to repeat.
pub const KEY_REPEAT_DELAY: i32 = 200;

/// The number of repeats per second of a held key.
pub const KEY_REPEAT_RATE: i32 = 25;

/// An event of the input backend. Each names the device it comes from.
#[derive(Clone, Debug, PartialEq, Eq)]
pub enum InputEvent {
    /// A device, which provides `capabilities`, was attached.
    DeviceAdded { device: String, capabilities: CapabilitySet },
    /// A device was detached.
    DeviceRemoved { device: String },
    /// A key went down or up. `modifiers` are the modifiers held after the
    /// event, `syms` the keysyms that the key produces in the current layout.
    Keyboard {
        device: String,
        keycode: u32,
        pressed: bool,
        time: u32,
        modifiers: Modifiers,
        syms: Vec<u32>,
    },
    /// The pointer moved by `delta`.
    PointerMotion { device: String, delta: Position, time: u32 },
    /// The pointer was put at `position`, counted from the corner of the
    /// output that the seat is on.
    PointerMotionAbsolute { device: String, position: Position, time: u32 },
    /// A pointer button went down or up.
    PointerButton { device: String, button: u32, pressed: bool, time: u32 },
    /// The user scrolled.
    PointerAxis {
        device: String,
        source: AxisSource,
        horizontal: AxisInput,
        vertical: AxisInput,
        time: u32,
    },
    /// An event of a kind that is not routed, such as touch or tablet input.
    Other,
}

/// Something for the compositor to carry out. Seats are named by their place
/// in the list of seats, outputs by their identifier.
#[derive(Clone, Debug, PartialEq, Eq)]
pub enum Effect {
    /// Give the seat a keyboard with the default layout.
    AddKeyboard { seat: usize, repeat_delay: i32, repeat_rate: i32 },
    /// Give the seat a pointer.
    AddPointer { seat: usize },
    /// Take the seat's keyboard away.
    RemoveKeyboard { seat: usize },
    /// Take the seat's pointer away.
    RemovePointer { seat: usize },
    /// Send a key event to the seat's keyboard focus.
    Key { seat: usize, keycode: u32, pressed: bool, time: u32 },
    /// Send a motion event to the surface under the pointer.
    Motion { seat: usize, position: Position, under: Option<Hit>, time: u32 },
    /// Send a button event to the seat's pointer focus.
    Button { seat: usize, button: u32, pressed: bool, time: u32 },
    /// Send a scroll event to the seat's pointer focus.
    Axis { seat: usize, frame: AxisFrame },
    /// Give the keyboard focus of the seat to a surface.
    KeyboardFocus { seat: usize, surface: u64 },
    /// Hand a key event to a part of the debug overlay.
    OverlayKey { interceptor: usize, keycode: u32, pressed: bool, modifiers: Modifiers },
    /// Hand a button event to a part of the debug overlay.
    OverlayButton { interceptor: usize, button: u32, pressed: bool },
    /// Hand a scroll event to a part of the debug overlay.
    OverlayAxis { interceptor: usize, horizontal: AxisInput, vertical: AxisInput },
    /// Tell the debug overlay where the pointer is, in whole pixels.
    OverlayMotion { location: Location },
    /// Ask the window that the seat has focused on the output to close.
    CloseFocused { seat: usize, output: u64 },
    /// Show a workspace on the output.
    ActivateWorkspace { seat: usize, output: u64, workspace: usize },
    /// Move the window that the seat has focused to a workspace.
    MoveWindowToWorkspace { seat: usize, output: u64, workspace: usize },
    /// Move the keyboard focus of the seat.
    MoveFocus { seat: usize, output: u64, direction: FocusDirection },
    /// Change how the output lays out its windows.
    SetOrientation { seat: usize, output: u64, orientation: Orientation },
    /// Run a command through the shell and do not wait for it.
    Spawn { command: String },
}

/// A fault in the compositor's own bookkeeping, found while routing an event.
#[derive(Clone, Copy, Debug, PartialEq, Eq, Structural)]
pub enum DispatchError {
    /// A key event came from a device of a seat that has no keyboard.
    MissingKeyboard { seat: usize },
    /// A pointer event came from a device of a seat that has no pointer.
    MissingPointer { seat: usize },
}

/// Whether `found` names the place `place`, or both name none.
pub open spec fn same_place(found: Option<usize>, place: Option<int>) -> bool {
    match found {
        Some(i) => place == Some(i as int),
        None => place.is_none(),
    }
}

/// Whether `result` is a success that yields exactly `effects`.
pub open spec fn yields(result: Result<Vec<Effect>, DispatchError>, effects: Seq<Effect>) -> bool {
    match result {
        Ok(list) => list@ == effects,
        Err(_) => false,
    }
}

/// Whether `result` is the fault `fault`.
pub open spec fn fails_with(result: Result<Vec<Effect>, DispatchError>, fault: DispatchError) -> bool {
    match result {
        Ok(_) => false,
        Err(found) => found == fault,
    }
}

} // verus!
