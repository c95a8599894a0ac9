//! The per-seat registry of attached devices and the capabilities they bring.
//!
//! A capability is active on a seat while at least one attached device
//! provides it. Attaching and detaching report which capabilities thereby
//! became active or ceased to be, so that the seat creates and tears down
//! its keyboard and pointer exactly at those moments.

use vstd::prelude::*;

verus! {

/// A category of input that a device can provide.
#[derive(Clone, Copy, Debug, PartialEq, Eq, Structural)]
pub enum Capability {
    Keyboard,
    Pointer,
}

/// A set of capabilities.
#[derive(Clone, Copy, Debug, PartialEq, Eq, Structural)]
pub struct CapabilitySet {
    pub keyboard: bool,
    pub pointer: bool,
}

impl CapabilitySet {
    /// The set without a member.
    pub open spec fn spec_empty() -> CapabilitySet {
        CapabilitySet { keyboard: false, pointer: false }
    }

    /// Whether `capability` is a member.
    pub open spec fn spec_has(self, capability: Capability) -> bool {
        match capability {
            Capability::Keyboard => self.keyboard,
            Capability::Pointer => self.pointer,
        }
    }

    /// The members of either set.
    pub open spec fn spec_union(self, other: CapabilitySet) -> CapabilitySet {
        CapabilitySet {
            keyboard: self.keyboard || other.keyboard,
            pointer: self.pointer || other.pointer,
        }
    }

    /// The members of this set that `other` lacks.
    pub open spec fn spec_minus(self, other: CapabilitySet) -> CapabilitySet {
        CapabilitySet {
            keyboard: self.keyboard && !other.keyboard,
            pointer: self.pointer && !other.pointer,
        }
    }

    /// Whether every member of this set is one of `other`.
    pub open spec fn spec_subset_of(self, other: CapabilitySet) -> bool {
        (self.keyboard ==> other.keyboard) && (self.pointer ==> other.pointer)
    }

    /// The members in the order in which a seat handles them: the keyboard
    /// before the pointer.
    pub open spec fn spec_members(self) -> Seq<Capability> {
        let keyboard = if self.keyboard {
            seq![Capability::Keyboard]
        } else {
            seq![]
        };
        let pointer = if self.pointer {
            seq![Capability::Pointer]
        } else {
            seq![]
        };
        keyboard + pointer
    }

    /// The set without a member.
    pub fn empty() -> (set: CapabilitySet)
        ensures
            set == Self::spec_empty(),
    {
        CapabilitySet { keyboard: false, pointer: false }
    }

    /// Tests whether `capability` is a member.
    pub fn has(&self, capability: Capability) -> (member: bool)
        ensures
            member == self.spec_has(capability),
    {
        match capability {
            Capability::Keyboard => self.keyboard,
            Capability::Pointer => self.pointer,
        }
    }

    /// Tests whether the set has no member.
    pub fn is_empty(&self) -> (none: bool)
        ensures
            none == (*self == Self::spec_empty()),
    {
        !self.keyboard && !self.pointer
    }

    /// The members of either set.
    pub fn union(&self, other: &CapabilitySet) -> (both: CapabilitySet)
        ensures
            both == self.spec_union(*other),
    {
        CapabilitySet {
            keyboard: self.keyboard || other.keyboard,
            pointer: self.pointer || other.pointer,
        }
    }

    /// The members of this set that `other` lacks.
    pub fn minus(&self, other: &CapabilitySet) -> (rest: CapabilitySet)
        ensures
            rest == self.spec_minus(*other),
    {
        CapabilitySet {
            keyboard: self.keyboard && !other.keyboard,
            pointer: self.pointer && !other.pointer,
        }
    }

    /// The members, the keyboard before the pointer.
    pub fn members(&self) -> (list: Vec<Capability>)
        ensures
            list@ == self.spec_members(),
    {
        let mut list: Vec<Capability> = Vec::new();
        if self.keyboard {
            list.push(Capability::Keyboard);
        }
        if self.pointer {
            list.push(Capability::Pointer);
        }
        assert(list@ =~= self.spec_members());
        list
    }
}

/// One attached device: its identifier and what it provides.
struct DeviceEntry {
    id: String,
    capabilities: CapabilitySet,
}

/// The devices attached to one seat, each with the capabilities it provides.
pub struct Devices {
    entries: Vec<DeviceEntry>,
}

/// The capabilities that at least one device of `devices` provides.
pub open spec fn provided(devices: Map<Seq<char>, CapabilitySet>) -> CapabilitySet {
    CapabilitySet {
        keyboard: exists|id: Seq<char>| #[trigger]
            devices.dom().contains(id) && devices[id].keyboard,
        pointer: exists|id: Seq<char>| #[trigger]
            devices.dom().contains(id) && devices[id].pointer,
    }
}

/// Whether no identifier stands twice among `entries`.
spec fn distinct_ids(entries: Seq<DeviceEntry>) -> bool {
    forall|i: int, j: int|
        0 <= i < j < entries.len() ==> (#[trigger] entries[i]).id@ != (#[trigger] entries[j]).id@
}

/// Whether some entry of `entries` carries `id`.
spec fn holds_id(entries: Seq<DeviceEntry>, id: Seq<char>) -> bool {
    exists|i: int| 0 <= i < entries.len() && (#[trigger] entries[i]).id@ == id
}

/// The place of an entry that carries `id`.
spec fn place_of(entries: Seq<DeviceEntry>, id: Seq<char>) -> int {
    choose|i: int| 0 <= i < entries.len() && (#[trigger] entries[i]).id@ == id
}

/// The registry that `entries` stand for.
spec fn registry_of(entries: Seq<DeviceEntry>) -> Map<Seq<char>, CapabilitySet> {
    Map::new(
        |id: Seq<char>| holds_id(entries, id),
        |id: Seq<char>| entries[place_of(entries, id)].capabilities,
    )
}

/// Each entry is found under its own identifier, with its own capabilities.
proof fn lemma_entry_is_registered(entries: Seq<DeviceEntry>, i: int)
    requires
        distinct_ids(entries),
        0 <= i < entries.len(),
    ensures
        registry_of(entries).dom().contains(entries[i].id@),
        registry_of(entries)[entries[i].id@] == entries[i].capabilities,
{
    let id = entries[i].id@;
    assert(holds_id(entries, id));
    let j = place_of(entries, id);
    assert(0 <= j < entries.len() && entries[j].id@ == id);
    if i < j {
        assert(entries[i].id@ != entries[j].id@);
    } else if j < i {
        assert(entries[j].id@ != entries[i].id@);
    }
}

/// What the entries up to `n` provide together.
spec fn provided_upto(entries: Seq<DeviceEntry>, n: int) -> CapabilitySet {
    CapabilitySet {
        keyboard: exists|i: int| 0 <= i < n && (#[trigger] entries[i]).capabilities.keyboard,
        pointer: exists|i: int| 0 <= i < n && (#[trigger] entries[i]).capabilities.pointer,
    }
}

/// What all entries provide together is what their registry provides.
proof fn lemma_provided_by_entries(entries: Seq<DeviceEntry>)
    requires
        distinct_ids(entries),
    ensures
        provided(registry_of(entries)) == provided_upto(entries, entries.len() as int),
{
    let m = registry_of(entries);
    let n = entries.len() as int;
    if provided_upto(entries, n).keyboard {
        let i = choose|i: int| 0 <= i < n && (#[trigger] entries[i]).capabilities.keyboard;
        lemma_entry_is_registered(entries, i);
        assert(m.dom().contains(entries[i].id@) && m[entries[i].id@].keyboard);
    }
    if provided(m).keyboard {
        let id = choose|id: Seq<char>| #[trigger] m.dom().contains(id) && m[id].keyboard;
        let j = place_of(entries, id);
        assert(0 <= j < n && entries[j].capabilities.keyboard);
    }
    if provided_upto(entries, n).pointer {
        let i = choose|i: int| 0 <= i < n && (#[trigger] entries[i]).capabilities.pointer;
        lemma_entry_is_registered(entries, i);
        assert(m.dom().contains(entries[i].id@) && m[entries[i].id@].pointer);
    }
    if provided(m).pointer {
        let id = choose|id: Seq<char>| #[trigger] m.dom().contains(id) && m[id].pointer;
        let j = place_of(entries, id);
        assert(0 <= j < n && entries[j].capabilities.pointer);
    }
}

impl View for Devices {
    type V = Map<Seq<char>, CapabilitySet>;

    closed spec fn view(&self) -> Map<Seq<char>, CapabilitySet> {
        registry_of(self.entries@)
    }
}

impl Devices {
    /// Whether the registry is sound: no identifier is entered twice. Every
    /// registry that this module hands out is, and stays so.
    pub closed spec fn wf(&self) -> bool {
        distinct_ids(self.entries@)
    }

    /// A registry without a device.
    pub fn new() -> (devices: Devices)
        ensures
            devices.wf(),
            devices@ == Map::<Seq<char>, CapabilitySet>::empty(),
    {
        let devices = Devices { entries: Vec::new() };
        assert(devices@ =~= Map::<Seq<char>, CapabilitySet>::empty());
        devices
    }

    /// Tests whether the registry is sound.
    pub fn is_sound(&self) -> (sound: bool)
        ensures
            sound == self.wf(),
    {
        let mut j: usize = 0;
        while j < self.entries.len()
            invariant
                j <= self.entries.len(),
                forall|a: int, b: int|
                    0 <= a < b < j ==> (#[trigger] self.entries@[a]).id@ != (
                    #[trigger] self.entries@[b]).id@,
            decreases self.entries.len() - j,
        {
            let mut i: usize = 0;
            while i < j
                invariant
                    i <= j < self.entries.len(),
                    forall|a: int|
                        0 <= a < i ==> (#[trigger] self.entries@[a]).id@ != self.entries@[j as int].id@,
                decreases j - i,
            {
                if self.entries[i].id == self.entries[j].id {
                    return false;
                }
                i += 1;
            }
            j += 1;
        }
        true
    }

    /// The place of the entry that carries `id`, if there is one.
    fn find(&self, id: &String) -> (place: Option<usize>)
        ensures
            match place {
                Some(i) => i < self.entries@.len() && self.entries@[i as int].id@ == id@,
                None => !holds_id(self.entries@, id@),
            },
            place.is_some() == self@.dom().contains(id@),
    {
        let mut i: usize = 0;
        while i < self.entries.len()
            invariant
                i <= self.entries.len(),
                forall|j: int| 0 <= j < i ==> (#[trigger] self.entries@[j]).id@ != id@,
            decreases self.entries.len() - i,
        {
            if self.entries[i].id == *id {
                assert(holds_id(self.entries@, id@));
                return Some(i);
            }
            i += 1;
        }
        None
    }

    /// What the attached devices provide together.
    pub fn capabilities(&self) -> (all: CapabilitySet)
        requires
            self.wf(),
        ensures
            all == provided(self@),
    {
        let mut all = CapabilitySet { keyboard: false, pointer: false };
        let mut i: usize = 0;
        while i < self.entries.len()
            invariant
                i <= self.entries.len(),
                all == provided_upto(self.entries@, i as int),
            decreases self.entries.len() - i,
        {
            let capabilities = self.entries[i].capabilities;
            all = CapabilitySet {
                keyboard: all.keyboard || capabilities.keyboard,
                pointer: all.pointer || capabilities.pointer,
            };
            i += 1;
        }
        proof {
            lemma_provided_by_entries(self.entries@);
        }
        all
    }

    /// Tests whether the device `id` is attached.
    pub fn has_device(&self, id: &String) -> (attached: bool)
        ensures
            attached == self@.dom().contains(id@),
    {
        self.find(id).is_some()
    }

    /// What the attached device `id` provides.
    pub fn device_capabilities(&self, id: &String) -> (found: Option<CapabilitySet>)
        requires
            self.wf(),
        ensures
            found == (if self@.dom().contains(id@) {
                Some(self@[id@])
            } else {
                None
            }),
    {
        match self.find(id) {
            Some(i) => {
                proof {
                    lemma_entry_is_registered(self.entries@, i as int);
                }
                Some(self.entries[i].capabilities)
            },
            None => None,
        }
    }

    /// The number of attached devices.
    pub fn len(&self) -> (n: usize)
        requires
            self.wf(),
        ensures
            n == self@.dom().len(),
            self@.dom().finite(),
    {
        proof {
            lemma_registry_size(self.entries@);
        }
        self.entries.len()
    }

    /// Attaches the device `id`, which provides `capabilities`, in place of
    /// any device attached under that identifier. Returns the capabilities
    /// that became active: those of the device that no device attached so
    /// far provided.
    pub fn add_device(&mut self, id: String, capabilities: CapabilitySet) -> (activated:
        CapabilitySet)
        requires
            old(self).wf(),
        ensures
            final(self).wf(),
            final(self)@ == old(self)@.insert(id@, capabilities),
            activated == capabilities.spec_minus(provided(old(self)@)),
    {
        let before = self.capabilities();
        let activated = capabilities.minus(&before);
        let ghost old_entries = self.entries@;
        match self.find(&id) {
            Some(i) => {
                let entry = DeviceEntry { id, capabilities };
                self.entries[i] = entry;
                proof {
                    assert(self.entries@ =~= old_entries.update(i as int, entry));
                    lemma_registry_after_update(old_entries, i as int, entry);
                }
            },
            None => {
                let entry = DeviceEntry { id, capabilities };
                self.entries.push(entry);
                proof {
                    lemma_registry_after_push(old_entries, entry);
                }
            },
        }
        activated
    }

    /// Detaches the device `id`. Returns the capabilities that thereby ceased
    /// to be active: those of the device that no device still attached
    /// provides. Detaching a device that is not attached changes nothing and
    /// returns the empty set.
    pub fn remove_device(&mut self, id: &String) -> (deactivated: CapabilitySet)
        requires
            old(self).wf(),
        ensures
            final(self).wf(),
            final(self)@ == old(self)@.remove(id@),
            deactivated == (if old(self)@.dom().contains(id@) {
                old(self)@[id@].spec_minus(provided(final(self)@))
            } else {
                CapabilitySet::spec_empty()
            }),
    {
        let ghost old_entries = self.entries@;
        match self.find(id) {
            Some(i) => {
                proof {
                    lemma_entry_is_registered(old_entries, i as int);
                }
                let entry = self.entries.remove(i);
                proof {
                    lemma_registry_after_remove(old_entries, i as int);
                }
                let rest = self.capabilities();
                entry.capabilities.minus(&rest)
            },
            None => {
                proof {
                    assert(self@ =~= old(self)@.remove(id@));
                }
                CapabilitySet::empty()
            },
        }
    }
}

/// Replacing the entry at `i` by one with the same identifier puts that
/// entry's capabilities under the identifier and leaves the rest.
proof fn lemma_registry_after_update(entries: Seq<DeviceEntry>, i: int, entry: DeviceEntry)
    requires
        distinct_ids(entries),
        0 <= i < entries.len(),
        entries[i].id@ == entry.id@,
    ensures
        distinct_ids(entries.update(i, entry)),
        registry_of(entries.update(i, entry)) == registry_of(entries).insert(
            entry.id@,
            entry.capabilities,
        ),
{
    let after = entries.update(i, entry);
    assert(distinct_ids(after)) by {
        assert forall|a: int, b: int| 0 <= a < b < after.len() implies (#[trigger] after[a]).id@
            != (#[trigger] after[b]).id@ by {
            assert(entries[a].id@ != entries[b].id@);
        }
    }
    let want = registry_of(entries).insert(entry.id@, entry.capabilities);
    assert forall|id: Seq<char>| registry_of(after).dom().contains(id) <==> want.dom().contains(
        id,
    ) by {
        if holds_id(after, id) {
            let j = place_of(after, id);
            assert(entries[j].id@ == id);
        }
        if holds_id(entries, id) {
            let j = place_of(entries, id);
            assert(after[j].id@ == id);
        }
        if id == entry.id@ {
            assert(after[i].id@ == id);
        }
    }
    assert forall|id: Seq<char>| #[trigger] registry_of(after).dom().contains(id) implies registry_of(
        after,
    )[id] == want[id] by {
        let j = place_of(after, id);
        assert(0 <= j < after.len() && after[j].id@ == id);
        lemma_entry_is_registered(after, j);
        if j != i {
            lemma_entry_is_registered(entries, j);
        }
    }
    assert(registry_of(after) =~= want);
}

/// Appending an entry under a new identifier adds it to the registry.
proof fn lemma_registry_after_push(entries: Seq<DeviceEntry>, entry: DeviceEntry)
    requires
        distinct_ids(entries),
        !holds_id(entries, entry.id@),
    ensures
        distinct_ids(entries.push(entry)),
        registry_of(entries.push(entry)) == registry_of(entries).insert(
            entry.id@,
            entry.capabilities,
        ),
{
    let after = entries.push(entry);
    let n = entries.len() as int;
    assert(distinct_ids(after)) by {
        assert forall|a: int, b: int| 0 <= a < b < after.len() implies (#[trigger] after[a]).id@
            != (#[trigger] after[b]).id@ by {
            if b == n {
                assert(entries[a].id@ != entry.id@);
            } else {
                assert(entries[a].id@ != entries[b].id@);
            }
        }
    }
    let want = registry_of(entries).insert(entry.id@, entry.capabilities);
    assert forall|id: Seq<char>| registry_of(after).dom().contains(id) <==> want.dom().contains(
        id,
    ) by {
        if holds_id(after, id) {
            let j = place_of(after, id);
            if j < n {
                assert(entries[j].id@ == id);
            }
        }
        if holds_id(entries, id) {
            let j = place_of(entries, id);
            assert(after[j].id@ == id);
        }
        if id == entry.id@ {
            assert(after[n].id@ == id);
        }
    }
    assert forall|id: Seq<char>| #[trigger] registry_of(after).dom().contains(id) implies registry_of(
        after,
    )[id] == want[id] by {
        let j = place_of(after, id);
        assert(0 <= j < after.len() && after[j].id@ == id);
        lemma_entry_is_registered(after, j);
        if j < n {
            lemma_entry_is_registered(entries, j);
        }
    }
    assert(registry_of(after) =~= want);
}

/// Taking the entry at `i` out takes its identifier out of the registry.
proof fn lemma_registry_after_remove(entries: Seq<DeviceEntry>, i: int)
    requires
        distinct_ids(entries),
        0 <= i < entries.len(),
    ensures
        distinct_ids(entries.remove(i)),
        registry_of(entries.remove(i)) == registry_of(entries).remove(entries[i].id@),
{
    let after = entries.remove(i);
    let gone = entries[i].id@;
    assert(distinct_ids(after)) by {
        assert forall|a: int, b: int| 0 <= a < b < after.len() implies (#[trigger] after[a]).id@
            != (#[trigger] after[b]).id@ by {
            let oa = if a < i { a } else { a + 1 };
            let ob = if b < i { b } else { b + 1 };
            assert(entries[oa].id@ != entries[ob].id@);
        }
    }
    let want = registry_of(entries).remove(gone);
    assert forall|id: Seq<char>| registry_of(after).dom().contains(id) <==> want.dom().contains(
        id,
    ) by {
        if holds_id(after, id) {
            let j = place_of(after, id);
            let oj = if j < i { j } else { j + 1 };
            assert(entries[oj].id@ == id);
            if oj < i {
                assert(entries[oj].id@ != entries[i].id@);
            } else {
                assert(entries[i].id@ != entries[oj].id@);
            }
        }
        if holds_id(entries, id) && id != gone {
            let j = place_of(entries, id);
            let nj = if j < i { j } else { j - 1 };
            assert(after[nj].id@ == id);
        }
    }
    assert forall|id: Seq<char>| #[trigger] registry_of(after).dom().contains(id) implies registry_of(
        after,
    )[id] == want[id] by {
        let j = place_of(after, id);
        assert(0 <= j < after.len() && after[j].id@ == id);
        lemma_entry_is_registered(after, j);
        let oj = if j < i { j } else { j + 1 };
        lemma_entry_is_registered(entries, oj);
    }
    assert(registry_of(after) =~= want);
}

/// A registry has as many devices as it has entries.
proof fn lemma_registry_size(entries: Seq<DeviceEntry>)
    requires
        distinct_ids(entries),
    ensures
        registry_of(entries).dom().finite(),
        registry_of(entries).dom().len() == entries.len(),
    decreases entries.len(),
{
    if entries.len() == 0 {
        assert(registry_of(entries).dom() =~= Set::<Seq<char>>::empty());
    } else {
        let last = entries.len() - 1;
        let front = entries.remove(last);
        lemma_registry_after_remove(entries, last);
        lemma_registry_size(front);
        lemma_entry_is_registered(entries, last);
        let gone = entries[last].id@;
        assert(registry_of(entries).dom() =~= registry_of(front).dom().insert(gone));
    }
}

/// A change to the devices of one seat.
pub enum DeviceChange {
    /// The device `id`, which provides `capabilities`, is attached.
    Attach { id: Seq<char>, capabilities: CapabilitySet },
    /// The device `id` is detached.
    Detach { id: Seq<char> },
}

/// A seat's devices together with the capabilities that the seat holds
/// active, as they follow from what attaching and detaching reported.
pub struct Bookkeeping {
    pub devices: Map<Seq<char>, CapabilitySet>,
    pub active: CapabilitySet,
}

impl Bookkeeping {
    /// A seat without devices and without active capabilities.
    pub open spec fn start() -> Bookkeeping {
        Bookkeeping { devices: Map::empty(), active: CapabilitySet::spec_empty() }
    }

    /// What attaching `capabilities` reports as newly active.
    pub open spec fn activated(self, capabilities: CapabilitySet) -> CapabilitySet {
        capabilities.spec_minus(provided(self.devices))
    }

    /// What detaching `id` reports as no longer active.
    pub open spec fn deactivated(self, id: Seq<char>) -> CapabilitySet {
        if self.devices.dom().contains(id) {
            self.devices[id].spec_minus(provided(self.devices.remove(id)))
        } else {
            CapabilitySet::spec_empty()
        }
    }

    /// The bookkeeping after `change`: the registry as [`Devices::add_device`]
    /// and [`Devices::remove_device`] leave it, and the active set with what
    /// they reported added or taken out.
    pub open spec fn after(self, change: DeviceChange) -> Bookkeeping {
        match change {
            DeviceChange::Attach { id, capabilities } => Bookkeeping {
                devices: self.devices.insert(id, capabilities),
                active: self.active.spec_union(self.activated(capabilities)),
            },
            DeviceChange::Detach { id } => Bookkeeping {
                devices: self.devices.remove(id),
                active: self.active.spec_minus(self.deactivated(id)),
            },
        }
    }

    /// Whether `change` attaches a device anew under an identifier that is
    /// attached already, and thereby withdraws a capability that only the
    /// device under that identifier provided.
    pub open spec fn withdraws(self, change: DeviceChange) -> bool {
        match change {
            DeviceChange::Attach { id, capabilities } => self.devices.dom().contains(id)
                && !self.devices[id].spec_subset_of(
                capabilities.spec_union(provided(self.devices.remove(id))),
            ),
            DeviceChange::Detach { id } => false,
        }
    }

    /// The bookkeeping after the first `n` of `changes`, from the start.
    pub open spec fn replay(changes: Seq<DeviceChange>, n: int) -> Bookkeeping
        decreases n,
    {
        if n <= 0 {
            Self::start()
        } else {
            Self::replay(changes, n - 1).after(changes[n - 1])
        }
    }
}

/// What a registry provides is what one of its devices provides together
/// with what the others provide.
pub proof fn lemma_provided_splits(devices: Map<Seq<char>, CapabilitySet>, id: Seq<char>)
    requires
        devices.dom().contains(id),
    ensures
        provided(devices) == devices[id].spec_union(provided(devices.remove(id))),
{
    let rest = devices.remove(id);
    if provided(devices).keyboard {
        let k = choose|k: Seq<char>| #[trigger] devices.dom().contains(k) && devices[k].keyboard;
        if k != id {
            assert(rest.dom().contains(k) && rest[k].keyboard);
        }
    }
    if provided(rest).keyboard {
        let k = choose|k: Seq<char>| #[trigger] rest.dom().contains(k) && rest[k].keyboard;
        assert(devices.dom().contains(k) && devices[k].keyboard);
    }
    if provided(devices).pointer {
        let k = choose|k: Seq<char>| #[trigger] devices.dom().contains(k) && devices[k].pointer;
        if k != id {
            assert(rest.dom().contains(k) && rest[k].pointer);
        }
    }
    if provided(rest).pointer {
        let k = choose|k: Seq<char>| #[trigger] rest.dom().contains(k) && rest[k].pointer;
        assert(devices.dom().contains(k) && devices[k].pointer);
    }
}

/// One change keeps the active set equal to what the attached devices
/// provide, unless it withdraws a capability by attaching anew. What is
/// reported as newly active was not active, and what is reported as no longer
/// active is provided by no device that stays.
pub proof fn lemma_change_tracks_provided(before: Bookkeeping, change: DeviceChange)
    requires
        before.active == provided(before.devices),
        !before.withdraws(change),
    ensures
        before.after(change).active == provided(before.after(change).devices),
        change matches DeviceChange::Attach { id, capabilities } ==> before.activated(
            capabilities,
        ).spec_minus(before.active) == before.activated(capabilities),
        change matches DeviceChange::Detach { id } ==> before.deactivated(id).spec_minus(
            provided(before.after(change).devices),
        ) == before.deactivated(id),
{
    match change {
        DeviceChange::Attach { id, capabilities } => {
            let after = before.devices.insert(id, capabilities);
            lemma_provided_splits(after, id);
            assert(after.remove(id) =~= before.devices.remove(id));
            if before.devices.dom().contains(id) {
                lemma_provided_splits(before.devices, id);
            } else {
                assert(before.devices.remove(id) =~= before.devices);
            }
        },
        DeviceChange::Detach { id } => {
            if before.devices.dom().contains(id) {
                lemma_provided_splits(before.devices, id);
            } else {
                assert(before.devices.remove(id) =~= before.devices);
            }
        },
    }
}

/// After any sequence of attaching and detaching on one seat, the active
/// capabilities are exactly those that the attached devices provide, as long
/// as no step withdraws a capability by attaching anew under an identifier
/// that is attached already.
pub proof fn lemma_replay_tracks_provided(changes: Seq<DeviceChange>, n: int)
    requires
        0 <= n <= changes.len(),
        forall|k: int|
            0 <= k < n ==> !(#[trigger] Bookkeeping::replay(changes, k)).withdraws(changes[k]),
    ensures
        Bookkeeping::replay(changes, n).active == provided(Bookkeeping::replay(changes, n).devices),
    decreases n,
{
    if n > 0 {
        lemma_replay_tracks_provided(changes, n - 1);
        let before = Bookkeeping::replay(changes, n - 1);
        assert(!before.withdraws(changes[n - 1]));
        lemma_change_tracks_provided(before, changes[n - 1]);
    }
}

} // verus!
