//! Which capabilities each input device contributes to a seat.

use vstd::prelude::*;

use crate::seqs::{
    lemma_filter_end, lemma_filter_keeps_distinct, lemma_filter_members, lemma_filter_start,
    lemma_filter_step,
};

verus! {

/// What an input device can do.
#[derive(Clone, Copy, Debug, PartialEq, Eq, Structural)]
pub enum DeviceCapability {
    Keyboard,
    Pointer,
    Touch,
    TabletTool,
    TabletPad,
    Gesture,
    Switch,
}

/// The capabilities a seat supports, among those a device reports: keyboard
/// first, then pointer.
pub open spec fn supported(reported: Seq<DeviceCapability>) -> Seq<DeviceCapability> {
    let keyboard = if reported.contains(DeviceCapability::Keyboard) {
        seq![DeviceCapability::Keyboard]
    } else {
        Seq::<DeviceCapability>::empty()
    };
    if reported.contains(DeviceCapability::Pointer) {
        keyboard.push(DeviceCapability::Pointer)
    } else {
        keyboard
    }
}

/// The capabilities that some device of the registry has.
pub open spec fn capabilities_of(devices: Map<Seq<char>, Seq<DeviceCapability>>) -> Set<
    DeviceCapability,
> {
    Set::new(
        |c: DeviceCapability|
            exists|id: Seq<char>| #[trigger] devices.contains_key(id) && devices[id].contains(c),
    )
}

/// One registered device.
pub struct DeviceEntry {
    pub id: String,
    pub caps: Vec<DeviceCapability>,
}

/// The registry of one seat: device identity to capability list.
pub struct Devices {
    pub entries: Vec<DeviceEntry>,
}

/// The map that a list of entries stands for; a later entry wins.
pub open spec fn entries_map(entries: Seq<DeviceEntry>) -> Map<Seq<char>, Seq<DeviceCapability>>
    decreases entries.len(),
{
    if entries.len() == 0 {
        Map::empty()
    } else {
        entries_map(entries.drop_last()).insert(entries.last().id@, entries.last().caps@)
    }
}

pub open spec fn distinct_ids(entries: Seq<DeviceEntry>) -> bool {
    forall|i: int, j: int|
        0 <= i < j < entries.len() ==> (#[trigger] entries[i]).id@ != (#[trigger] entries[j]).id@
}

/// Whether some entry belongs to the device `id`.
pub open spec fn has_id(entries: Seq<DeviceEntry>, id: Seq<char>) -> bool {
    exists|i: int| 0 <= i < entries.len() && (#[trigger] entries[i]).id@ == id
}

proof fn lemma_map_domain(entries: Seq<DeviceEntry>)
    ensures
        forall|k: Seq<char>| #[trigger] entries_map(entries).contains_key(k) <==> has_id(entries, k),
    decreases entries.len(),
{
    if entries.len() > 0 {
        let rest = entries.drop_last();
        lemma_map_domain(rest);
        assert forall|k: Seq<char>| #[trigger]
            entries_map(entries).contains_key(k) <==> has_id(entries, k) by {
            if entries_map(entries).contains_key(k) && entries.last().id@ != k {
                assert(entries_map(rest).contains_key(k));
                let i = choose|i: int| 0 <= i < rest.len() && (#[trigger] rest[i]).id@ == k;
            }
            if has_id(entries, k) {
                let i = choose|i: int| 0 <= i < entries.len() && (#[trigger] entries[i]).id@ == k;
                if i < rest.len() {
                    assert(rest[i].id@ == k);
                }
            }
        }
    }
}

proof fn lemma_rest_distinct(entries: Seq<DeviceEntry>)
    requires
        distinct_ids(entries),
        entries.len() > 0,
    ensures
        distinct_ids(entries.drop_last()),
{
    let rest = entries.drop_last();
    assert forall|a: int, b: int| 0 <= a < b < rest.len() implies (#[trigger] rest[a]).id@ != (
    #[trigger] rest[b]).id@ by {
        assert(entries[a].id@ != entries[b].id@);
    }
}

proof fn lemma_map_value(entries: Seq<DeviceEntry>, i: int)
    requires
        distinct_ids(entries),
        0 <= i < entries.len(),
    ensures
        entries_map(entries).contains_key(entries[i].id@),
        entries_map(entries)[entries[i].id@] == entries[i].caps@,
    decreases entries.len(),
{
    if i < entries.len() - 1 {
        lemma_rest_distinct(entries);
        lemma_map_value(entries.drop_last(), i);
    }
}

proof fn lemma_map_remove(entries: Seq<DeviceEntry>, i: int)
    requires
        distinct_ids(entries),
        0 <= i < entries.len(),
    ensures
        entries_map(entries.remove(i)) == entries_map(entries).remove(entries[i].id@),
        distinct_ids(entries.remove(i)),
    decreases entries.len(),
{
    let rest = entries.drop_last();
    let gone = entries.remove(i);
    assert forall|a: int, b: int| 0 <= a < b < gone.len() implies (#[trigger] gone[a]).id@ != (
    #[trigger] gone[b]).id@ by {
        let a2 = if a < i { a } else { a + 1 };
        let b2 = if b < i { b } else { b + 1 };
        assert(entries[a2].id@ != entries[b2].id@);
    }
    if i == entries.len() - 1 {
        lemma_map_domain(rest);
        if has_id(rest, entries[i].id@) {
            let j = choose|j: int| 0 <= j < rest.len() && (#[trigger] rest[j]).id@ == entries[i].id@;
            assert(entries[j].id@ != entries[i].id@);
        }
        assert(gone =~= rest);
        assert(entries_map(gone) =~= entries_map(entries).remove(entries[i].id@));
    } else {
        lemma_rest_distinct(entries);
        lemma_map_remove(rest, i);
        assert(gone.drop_last() =~= rest.remove(i));
        assert(entries[i].id@ != entries[entries.len() - 1].id@);
        assert(entries_map(gone) =~= entries_map(entries).remove(entries[i].id@));
    }
}

impl Devices {
    /// No device occurs twice, and no device has a capability twice.
    pub open spec fn wf(self) -> bool {
        &&& distinct_ids(self.entries@)
        &&& forall|i: int|
            0 <= i < self.entries@.len() ==> (#[trigger] self.entries@[i]).caps@.no_duplicates()
    }

    /// Device identity to capability list.
    pub open spec fn view(self) -> Map<Seq<char>, Seq<DeviceCapability>> {
        entries_map(self.entries@)
    }

    /// The union of the capabilities of the registered devices.
    pub open spec fn capabilities(self) -> Set<DeviceCapability> {
        capabilities_of(self@)
    }

    pub fn new() -> (d: Devices)
        ensures
            d.wf(),
            d@ == Map::<Seq<char>, Seq<DeviceCapability>>::empty(),
    {
        Devices { entries: Vec::new() }
    }

    /// Tests whether the registry is in order.
    pub fn in_order(&self) -> (b: bool)
        ensures
            b == self.wf(),
    {
        let mut i: usize = 0;
        while i < self.entries.len()
            invariant
                i <= self.entries.len(),
                forall|a: int, b: int|
                    0 <= a < b < i ==> (#[trigger] self.entries@[a]).id@ != (
                    #[trigger] self.entries@[b]).id@,
                forall|a: int| 0 <= a < i ==> (#[trigger] self.entries@[a]).caps@.no_duplicates(),
            decreases self.entries.len() - i,
        {
            let mut j: usize = 0;
            while j < i
                invariant
                    j <= i < self.entries.len(),
                    forall|a: int| 0 <= a < j ==> (#[trigger] self.entries@[a]).id@ != self.entries@[i as int].id@,
                decreases i - j,
            {
                if self.entries[j].id == self.entries[i].id {
                    return false;
                }
                j += 1;
            }
            if !distinct_capabilities(&self.entries[i].caps) {
                return false;
            }
            i += 1;
        }
        true
    }

    fn position(&self, id: &String) -> (r: Option<usize>)
        requires
            self.wf(),
        ensures
            r is Some == self@.contains_key(id@),
            r matches Some(i) ==> i < self.entries.len() && self.entries[i as int].id@ == id@,
    {
        proof {
            lemma_map_domain(self.entries@);
        }
        let mut i: usize = 0;
        while i < self.entries.len()
            invariant
                i <= self.entries.len(),
                forall|j: int| 0 <= j < i ==> (#[trigger] self.entries[j]).id@ != id@,
            decreases self.entries.len() - i,
        {
            if self.entries[i].id == *id {
                proof {
                    lemma_map_domain(self.entries@);
                }
                return Some(i);
            }
            i += 1;
        }
        None
    }

    /// Whether the device is registered.
    pub fn has_device(&self, id: &String) -> (b: bool)
        requires
            self.wf(),
        ensures
            b == self@.contains_key(id@),
    {
        self.position(id).is_some()
    }

    /// Whether some registered device has the capability.
    pub fn has_capability(&self, cap: DeviceCapability) -> (b: bool)
        requires
            self.wf(),
        ensures
            b == self.capabilities().contains(cap),
    {
        let mut i: usize = 0;
        while i < self.entries.len()
            invariant
                i <= self.entries.len(),
                self.wf(),
                forall|j: int| 0 <= j < i ==> !(#[trigger] self.entries[j]).caps@.contains(cap),
            decreases self.entries.len() - i,
        {
            if contains_capability(&self.entries[i].caps, cap) {
                proof {
                    lemma_map_value(self.entries@, i as int);
                }
                return true;
            }
            i += 1;
        }
        proof {
            if self.capabilities().contains(cap) {
                let id = choose|id: Seq<char>| #[trigger]
                    self@.contains_key(id) && self@[id].contains(cap);
                lemma_map_domain(self.entries@);
                let j = choose|j: int|
                    0 <= j < self.entries@.len() && (#[trigger] self.entries@[j]).id@ == id;
                lemma_map_value(self.entries@, j);
            }
        }
        false
    }

    /// Those of `caps` that no registered device has.
    fn missing(&self, caps: &Vec<DeviceCapability>) -> (r: Vec<DeviceCapability>)
        requires
            self.wf(),
        ensures
            r@ == caps@.filter(|c: DeviceCapability| !self.capabilities().contains(c)),
    {
        let ghost pred = |c: DeviceCapability| !self.capabilities().contains(c);
        let mut out: Vec<DeviceCapability> = Vec::new();
        let mut i: usize = 0;
        proof {
            lemma_filter_start(caps@, pred);
        }
        while i < caps.len()
            invariant
                i <= caps.len(),
                self.wf(),
                pred == (|c: DeviceCapability| !self.capabilities().contains(c)),
                out@ == caps@.take(i as int).filter(pred),
            decreases caps.len() - i,
        {
            proof {
                lemma_filter_step(caps@, pred, i as int);
            }
            if !self.has_capability(caps[i]) {
                out.push(caps[i]);
            }
            i += 1;
        }
        proof {
            lemma_filter_end(caps@, pred);
        }
        out
    }

    /// Registers a device with the supported ones of the capabilities it
    /// reports, and returns those that no device of the seat had before.
    pub fn add_device(&mut self, id: &String, reported: &Vec<DeviceCapability>) -> (gained: Vec<
        DeviceCapability,
    >)
        requires
            old(self).wf(),
        ensures
            final(self).wf(),
            final(self)@ == old(self)@.insert(id@, supported(reported@)),
            gained@ == supported(reported@).filter(
                |c: DeviceCapability| !old(self).capabilities().contains(c),
            ),
    {
        let mut caps: Vec<DeviceCapability> = Vec::new();
        if contains_capability(reported, DeviceCapability::Keyboard) {
            caps.push(DeviceCapability::Keyboard);
        }
        if contains_capability(reported, DeviceCapability::Pointer) {
            caps.push(DeviceCapability::Pointer);
        }
        let gained = self.missing(&caps);
        match self.position(id) {
            Some(i) => {
                proof {
                    lemma_map_remove(self.entries@, i as int);
                }
                self.entries.remove(i);
            },
            None => {},
        }
        let ghost before = self.entries@;
        proof {
            lemma_map_domain(before);
        }
        self.entries.push(DeviceEntry { id: id.clone(), caps });
        proof {
            assert(self.entries@.drop_last() =~= before);
        }
        gained
    }

    /// Takes a device out of the registry, and returns those of its
    /// capabilities that no remaining device has.
    pub fn remove_device(&mut self, id: &String) -> (lost: Vec<DeviceCapability>)
        requires
            old(self).wf(),
        ensures
            final(self).wf(),
            final(self)@ == old(self)@.remove(id@),
            lost@ == (if old(self)@.contains_key(id@) {
                old(self)@[id@]
            } else {
                Seq::<DeviceCapability>::empty()
            }).filter(|c: DeviceCapability| !final(self).capabilities().contains(c)),
    {
        match self.position(id) {
            Some(i) => {
                proof {
                    lemma_map_remove(self.entries@, i as int);
                    lemma_map_value(self.entries@, i as int);
                }
                let entry = self.entries.remove(i);
                self.missing(&entry.caps)
            },
            None => {
                let empty: Vec<DeviceCapability> = Vec::new();
                self.missing(&empty)
            },
        }
    }
}

/// In a registry that is in order no device has a capability twice.
pub proof fn lemma_capabilities_distinct(devices: Devices, id: Seq<char>)
    requires
        devices.wf(),
        devices@.contains_key(id),
    ensures
        devices@[id].no_duplicates(),
{
    lemma_map_domain(devices.entries@);
    let i = choose|i: int| 0 <= i < devices.entries@.len() && (#[trigger] devices.entries@[i]).id@ == id;
    lemma_map_value(devices.entries@, i);
}

/// Tests whether a capability list holds none twice.
pub fn distinct_capabilities(caps: &Vec<DeviceCapability>) -> (b: bool)
    ensures
        b == caps@.no_duplicates(),
{
    let mut i: usize = 0;
    while i < caps.len()
        invariant
            i <= caps.len(),
            forall|a: int, b: int| 0 <= a < b < i ==> caps@[a] != caps@[b],
        decreases caps.len() - i,
    {
        let mut j: usize = 0;
        while j < i
            invariant
                j <= i < caps.len(),
                forall|a: int| 0 <= a < j ==> caps@[a] != caps@[i as int],
            decreases i - j,
        {
            if caps[j] == caps[i] {
                return false;
            }
            j += 1;
        }
        i += 1;
    }
    true
}

/// Whether a capability list holds `cap`.
pub fn contains_capability(caps: &Vec<DeviceCapability>, cap: DeviceCapability) -> (b: bool)
    ensures
        b == caps@.contains(cap),
{
    let mut i: usize = 0;
    while i < caps.len()
        invariant
            i <= caps.len(),
            forall|j: int| 0 <= j < i ==> caps@[j] != cap,
        decreases caps.len() - i,
    {
        if caps[i] == cap {
            return true;
        }
        i += 1;
    }
    false
}

/// Adding a device reports exactly the capabilities that the seat gains by
/// it, each once: the union after, minus the union before.
pub proof fn lemma_gained_is_difference(
    before: Map<Seq<char>, Seq<DeviceCapability>>,
    id: Seq<char>,
    reported: Seq<DeviceCapability>,
)
    ensures
        ({
            let after = before.insert(id, supported(reported));
            let gained = supported(reported).filter(
                |c: DeviceCapability| !capabilities_of(before).contains(c),
            );
            &&& gained.no_duplicates()
            &&& gained.to_set() == capabilities_of(after).difference(capabilities_of(before))
        }),
{
    let caps = supported(reported);
    let after = before.insert(id, caps);
    let pred = |c: DeviceCapability| !capabilities_of(before).contains(c);
    let gained = caps.filter(pred);
    lemma_filter_members(caps, pred);
    lemma_filter_keeps_distinct(caps, pred);
    assert forall|c: DeviceCapability|
        gained.to_set().contains(c) <==> capabilities_of(after).difference(
            capabilities_of(before),
        ).contains(c) by {
        if gained.contains(c) {
            assert(after.contains_key(id) && after[id].contains(c));
        }
        if capabilities_of(after).contains(c) && !capabilities_of(before).contains(c) {
            let k = choose|k: Seq<char>| #[trigger] after.contains_key(k) && after[k].contains(c);
        }
    }
}

/// Removing a device reports exactly the capabilities that the seat loses
/// by it, each once: the union before, minus the union after.
pub proof fn lemma_lost_is_difference(before: Map<Seq<char>, Seq<DeviceCapability>>, id: Seq<char>)
    requires
        before.contains_key(id) ==> before[id].no_duplicates(),
    ensures
        ({
            let after = before.remove(id);
            let removed = if before.contains_key(id) {
                before[id]
            } else {
                Seq::<DeviceCapability>::empty()
            };
            let lost = removed.filter(|c: DeviceCapability| !capabilities_of(after).contains(c));
            &&& lost.no_duplicates()
            &&& lost.to_set() == capabilities_of(before).difference(capabilities_of(after))
        }),
{
    let after = before.remove(id);
    let removed = if before.contains_key(id) {
        before[id]
    } else {
        Seq::<DeviceCapability>::empty()
    };
    let pred = |c: DeviceCapability| !capabilities_of(after).contains(c);
    let lost = removed.filter(pred);
    lemma_filter_members(removed, pred);
    lemma_filter_keeps_distinct(removed, pred);
    assert forall|c: DeviceCapability|
        lost.to_set().contains(c) <==> capabilities_of(before).difference(
            capabilities_of(after),
        ).contains(c) by {
        if capabilities_of(before).contains(c) && !capabilities_of(after).contains(c) {
            let k = choose|k: Seq<char>| #[trigger] before.contains_key(k) && before[k].contains(c);
            if k != id {
                assert(after.contains_key(k) && after[k].contains(c));
            }
        }
    }
}

/// A seat that adds what it gained to the capabilities it had has the union
/// of its devices' capabilities again. This holds where adding the device
/// takes no capability away, as it does where the device was not registered:
/// one that is registered again with fewer capabilities can take some away
/// without a word.
pub proof fn lemma_gained_tracks_union(
    before: Map<Seq<char>, Seq<DeviceCapability>>,
    id: Seq<char>,
    reported: Seq<DeviceCapability>,
)
    requires
        capabilities_of(before).subset_of(
            capabilities_of(before.insert(id, supported(reported))),
        ),
    ensures
        ({
            let after = before.insert(id, supported(reported));
            let gained = supported(reported).filter(
                |c: DeviceCapability| !capabilities_of(before).contains(c),
            );
            capabilities_of(after) == capabilities_of(before).union(gained.to_set())
        }),
{
    let caps = supported(reported);
    let after = before.insert(id, caps);
    let pred = |c: DeviceCapability| !capabilities_of(before).contains(c);
    let gained = caps.filter(pred);
    lemma_filter_members(caps, pred);
    assert forall|c: DeviceCapability|
        capabilities_of(after).contains(c) <==> capabilities_of(before).union(
            gained.to_set(),
        ).contains(c) by {
        if capabilities_of(after).contains(c) {
            let k = choose|k: Seq<char>| #[trigger] after.contains_key(k) && after[k].contains(c);
        }
        if capabilities_of(before).contains(c) {
            assert(capabilities_of(after).contains(c));
        }
        if gained.contains(c) {
            assert(after.contains_key(id) && after[id].contains(c));
        }
    }
}

/// A device that is not registered takes no capability away when it is
/// added.
pub proof fn lemma_new_device_takes_nothing(
    before: Map<Seq<char>, Seq<DeviceCapability>>,
    id: Seq<char>,
    reported: Seq<DeviceCapability>,
)
    requires
        !before.contains_key(id),
    ensures
        capabilities_of(before).subset_of(
            capabilities_of(before.insert(id, supported(reported))),
        ),
{
    let after = before.insert(id, supported(reported));
    assert forall|c: DeviceCapability| capabilities_of(before).contains(c) implies capabilities_of(
        after,
    ).contains(c) by {
        let k = choose|k: Seq<char>| #[trigger] before.contains_key(k) && before[k].contains(c);
        assert(after.contains_key(k) && after[k].contains(c));
    }
}

/// A seat that takes what it lost from the capabilities it had has the
/// union of its devices' capabilities again.
pub proof fn lemma_lost_tracks_union(before: Map<Seq<char>, Seq<DeviceCapability>>, id: Seq<char>)
    ensures
        ({
            let after = before.remove(id);
            let removed = if before.contains_key(id) {
                before[id]
            } else {
                Seq::<DeviceCapability>::empty()
            };
            let lost = removed.filter(|c: DeviceCapability| !capabilities_of(after).contains(c));
            capabilities_of(after) == capabilities_of(before).difference(lost.to_set())
        }),
{
    let after = before.remove(id);
    let removed = if before.contains_key(id) {
        before[id]
    } else {
        Seq::<DeviceCapability>::empty()
    };
    let pred = |c: DeviceCapability| !capabilities_of(after).contains(c);
    let lost = removed.filter(pred);
    lemma_filter_members(removed, pred);
    assert forall|c: DeviceCapability|
        capabilities_of(after).contains(c) <==> capabilities_of(before).difference(
            lost.to_set(),
        ).contains(c) by {
        if capabilities_of(after).contains(c) {
            let k = choose|k: Seq<char>| #[trigger] after.contains_key(k) && after[k].contains(c);
        }
        if capabilities_of(before).contains(c) && !lost.contains(c) {
            let k = choose|k: Seq<char>| #[trigger] before.contains_key(k) && before[k].contains(c);
            if k != id {
                assert(after.contains_key(k) && after[k].contains(c));
            }
        }
    }
}

} // verus!
