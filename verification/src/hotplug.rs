//! Devices coming and going.
//!
//! A newly attached device goes to the seat that is marked to receive new
//! devices. A detached device is looked for on every seat. The seat gets a
//! keyboard or a pointer when the first device that provides one arrives,
//! and loses it when the last such device leaves.

use vstd::prelude::*;
use crate::devices::{
    Bookkeeping, CapabilitySet, DeviceChange, lemma_change_tracks_provided, provided,
};
use crate::events::{Effect, KEY_REPEAT_DELAY, KEY_REPEAT_RATE};
use crate::seat::{ActiveOutput, SeatView};
use crate::state::{Common, spec_owner};

verus! {

/// What the compositor is to do for the capabilities that became active on
/// the seat at place `seat`: the keyboard before the pointer.
pub open spec fn spec_activation_effects(seat: usize, activated: CapabilitySet) -> Seq<Effect> {
    let keyboard = if activated.keyboard {
        seq![Effect::AddKeyboard { seat, repeat_delay: 200i32, repeat_rate: 25i32 }]
    } else {
        seq![]
    };
    let pointer = if activated.pointer {
        seq![Effect::AddPointer { seat }]
    } else {
        seq![]
    };
    keyboard + pointer
}

/// What the compositor is to do for the capabilities that ceased to be
/// active on the seat at place `seat`.
pub open spec fn spec_deactivation_effects(seat: usize, deactivated: CapabilitySet) -> Seq<Effect> {
    let keyboard = if deactivated.keyboard {
        seq![Effect::RemoveKeyboard { seat }]
    } else {
        seq![]
    };
    let pointer = if deactivated.pointer {
        seq![Effect::RemovePointer { seat }]
    } else {
        seq![]
    };
    keyboard + pointer
}

/// The seat `seat` after the device `device` with `capabilities` was
/// attached to it, `first_output` being the compositor's first output. The
/// device is on record; what it newly provides is active; and a seat that was
/// on no output and gained a capability is on the first output.
pub open spec fn spec_seat_after_attach(
    seat: SeatView,
    device: Seq<char>,
    capabilities: CapabilitySet,
    first_output: u64,
) -> SeatView {
    let activated = capabilities.spec_minus(provided(seat.devices));
    SeatView {
        devices: seat.devices.insert(device, capabilities),
        keyboard: seat.keyboard || activated.keyboard,
        pointer: seat.pointer || activated.pointer,
        active_output: if seat.active_output.is_none() && activated
            != CapabilitySet::spec_empty() {
            Some(ActiveOutput(first_output))
        } else {
            seat.active_output
        },
        ..seat
    }
}

/// What detaching `device` from the seat `seat` deactivates.
pub open spec fn spec_deactivated(seat: SeatView, device: Seq<char>) -> CapabilitySet {
    seat.devices[device].spec_minus(provided(seat.devices.remove(device)))
}

/// The seat `seat` after the device `device` was detached from it.
pub open spec fn spec_seat_after_detach(seat: SeatView, device: Seq<char>) -> SeatView {
    let deactivated = spec_deactivated(seat, device);
    SeatView {
        devices: seat.devices.remove(device),
        keyboard: seat.keyboard && !deactivated.keyboard,
        pointer: seat.pointer && !deactivated.pointer,
        ..seat
    }
}

/// How attaching the device `device` changes the state from `old` to `new`,
/// and what it yields.
pub open spec fn device_added_post(
    old: Common,
    new: Common,
    device: Seq<char>,
    capabilities: CapabilitySet,
    effects: Seq<Effect>,
) -> bool {
    let s = old.last_active_seat as int;
    let seat = old.seats@[s]@;
    &&& new.differs_in_seat(old, s)
    &&& new.seats@[s]@ == spec_seat_after_attach(
        seat,
        device,
        capabilities,
        old.screens@[0].output.id,
    )
    &&& effects == spec_activation_effects(
        old.last_active_seat,
        capabilities.spec_minus(provided(seat.devices)),
    )
}

/// How detaching the device `device` changes the state from `old` to `new`,
/// and what it yields. A device that no seat owns changes and yields nothing.
pub open spec fn device_removed_post(
    old: Common,
    new: Common,
    device: Seq<char>,
    effects: Seq<Effect>,
) -> bool {
    match spec_owner(old.seats@, device) {
        None => new == old && effects == Seq::<Effect>::empty(),
        Some(s) => {
            let seat = old.seats@[s]@;
            &&& new.differs_in_seat(old, s)
            &&& new.seats@[s]@ == spec_seat_after_detach(seat, device)
            &&& effects == spec_deactivation_effects(s as usize, spec_deactivated(seat, device))
        },
    }
}

impl Common {
    /// Attaches the device `device`, which provides `capabilities`, to the
    /// seat that receives new devices.
    pub fn device_added(&mut self, device: String, capabilities: CapabilitySet) -> (effects: Vec<
        Effect,
    >)
        requires
            old(self).wf(),
        ensures
            final(self).wf(),
            device_added_post(*old(self), *final(self), device@, capabilities, effects@),
    {
        let seat = self.last_active_seat;
        let first_output = self.screens[0].output.id;
        let activated = self.seats[seat].devices.add_device(device, capabilities);
        let mut effects: Vec<Effect> = Vec::new();
        if activated.keyboard {
            self.seats[seat].keyboard = true;
            effects.push(
                Effect::AddKeyboard {
                    seat,
                    repeat_delay: KEY_REPEAT_DELAY,
                    repeat_rate: KEY_REPEAT_RATE,
                },
            );
        }
        if activated.pointer {
            self.seats[seat].pointer = true;
            effects.push(Effect::AddPointer { seat });
        }
        if (activated.keyboard || activated.pointer) && self.seats[seat].active_output.is_none() {
            self.seats[seat].active_output = Some(ActiveOutput(first_output));
        }
        proof {
            assert(effects@ =~= spec_activation_effects(seat, activated));
            assert forall|i: int| 0 <= i < self.seats@.len() implies (#[trigger] self.seats@[i]).wf() by {
                if i != seat {
                    assert(self.seats@[i] == old(self).seats@[i]);
                }
            }
        }
        effects
    }

    /// Detaches the device `device` from the seat that owns it.
    pub fn device_removed(&mut self, device: &String) -> (effects: Vec<Effect>)
        requires
            old(self).wf(),
        ensures
            final(self).wf(),
            device_removed_post(*old(self), *final(self), device@, effects@),
    {
        let mut effects: Vec<Effect> = Vec::new();
        let seat = match self.seat_of_device(device) {
            Some(seat) => seat,
            None => {
                return effects;
            },
        };
        let deactivated = self.seats[seat].devices.remove_device(device);
        if deactivated.keyboard {
            self.seats[seat].keyboard = false;
            effects.push(Effect::RemoveKeyboard { seat });
        }
        if deactivated.pointer {
            self.seats[seat].pointer = false;
            effects.push(Effect::RemovePointer { seat });
        }
        proof {
            assert(effects@ =~= spec_deactivation_effects(seat, deactivated));
            assert forall|i: int| 0 <= i < self.seats@.len() implies (#[trigger] self.seats@[i]).wf() by {
                if i != seat {
                    assert(self.seats@[i] == old(self).seats@[i]);
                }
            }
        }
        effects
    }
}

/// A seat whose keyboard and pointer are exactly what its devices provide
/// stays so when a device is attached or detached, unless attaching anew
/// under an identifier that is attached already withdraws a capability.
pub proof fn lemma_seat_tracks_provided(seat: SeatView, change: DeviceChange, first_output: u64)
    requires
        seat.active() == provided(seat.devices),
        !(Bookkeeping { devices: seat.devices, active: seat.active() }).withdraws(change),
    ensures
        match change {
            DeviceChange::Attach { id, capabilities } => {
                let after = spec_seat_after_attach(seat, id, capabilities, first_output);
                after.active() == provided(after.devices)
            },
            DeviceChange::Detach { id } => seat.devices.dom().contains(id) ==> {
                let after = spec_seat_after_detach(seat, id);
                after.active() == provided(after.devices)
            },
        },
{
    lemma_change_tracks_provided(
        Bookkeeping { devices: seat.devices, active: seat.active() },
        change,
    );
}

} // verus!
