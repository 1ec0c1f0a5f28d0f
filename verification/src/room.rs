use vstd::prelude::*;
use vstd::string::*;
use crate::devices::Device;
use crate::infoprovider::InfoProvider;

verus! {

/// Whether some entry of `entries` is registered under `key`.
pub open spec fn has_key(entries: Seq<(Seq<char>, usize)>, key: Seq<char>) -> bool {
    exists|i: int| 0 <= i < entries.len() && (#[trigger] entries[i]).0 == key
}

/// No name is registered twice.
pub open spec fn distinct_keys(entries: Seq<(Seq<char>, usize)>) -> bool {
    forall|i: int, j: int|
        0 <= i < j < entries.len() ==> (#[trigger] entries[i]).0 != (#[trigger] entries[j]).0
}

/// The registrations after `device` is registered under `key`: unchanged where
/// `key` is taken, else with the new entry at the end.
pub open spec fn with_device(
    entries: Seq<(Seq<char>, usize)>,
    key: Seq<char>,
    device: usize,
) -> Seq<(Seq<char>, usize)> {
    if has_key(entries, key) {
        entries
    } else {
        entries.push((key, device))
    }
}

/// One line per entry, in order: the description of the device that the entry
/// refers to in `devices`, and a line break.
pub open spec fn device_lines(entries: Seq<(Seq<char>, usize)>, devices: Seq<Device>) -> Seq<char>
    decreases entries.len(),
{
    if entries.len() == 0 {
        Seq::empty()
    } else {
        device_lines(entries.drop_last(), devices) + devices[entries.last().1 as int].info()
            + "\n"@
    }
}

/// A named room. It registers devices of a device store under unique names,
/// by their position in the store, and keeps them in the order of
/// registration.
pub struct Room {
    name: String,
    devices: Vec<(String, usize)>,
}

impl Room {
    /// The room's name.
    pub closed spec fn label(&self) -> Seq<char> {
        self.name@
    }

    /// The registrations in order: each a name and a position in the device
    /// store.
    pub closed spec fn entries(&self) -> Seq<(Seq<char>, usize)> {
        self.devices@.map_values(|e: (String, usize)| (e.0@, e.1))
    }

    /// No name is registered twice. A new room has this property, and
    /// registering a device keeps it.
    pub open spec fn wf(&self) -> bool {
        distinct_keys(self.entries())
    }

    /// Every registration refers to one of the first `n` devices of a store.
    pub open spec fn refs_within(&self, n: nat) -> bool {
        forall|i: int| 0 <= i < self.entries().len() ==> (#[trigger] self.entries()[i]).1 < n
    }

    /// The room's report against a device store: its name on a line, then the
    /// line of each registered device.
    pub open spec fn report(&self, devices: Seq<Device>) -> Seq<char> {
        self.label() + "\n"@ + device_lines(self.entries(), devices)
    }

    /// A room without devices.
    pub fn new(name: String) -> (r: Room)
        ensures
            r.label() == name@,
            r.entries() == Seq::<(Seq<char>, usize)>::empty(),
            r.wf(),
    {
        let r = Room { name, devices: Vec::new() };
        assert(r.entries() =~= Seq::<(Seq<char>, usize)>::empty());
        r
    }

    /// Whether a device is registered under `key`.
    pub fn has_device(&self, key: &String) -> (b: bool)
        ensures
            b == has_key(self.entries(), key@),
    {
        let mut i: usize = 0;
        while i < self.devices.len()
            invariant
                i <= self.devices.len(),
                forall|j: int| 0 <= j < i ==> (#[trigger] self.entries()[j]).0 != key@,
            decreases self.devices.len() - i,
        {
            if self.devices[i].0.eq(key) {
                assert(self.entries()[i as int].0 == key@);
                return true;
            }
            i += 1;
        }
        false
    }

    /// Registers the device at position `device` of the store under
    /// `device_name`. Where that name is taken the room stays as it is: the
    /// first registration wins. Returns the room, so that calls can be chained.
    pub fn add_device(&mut self, device_name: String, device: usize) -> (ret: &mut Self)
        ensures
            ret.label() == old(self).label(),
            ret.entries() == with_device(old(self).entries(), device_name@, device),
            old(self).wf() ==> ret.wf(),
            *final(self) == *final(ret),
    {
        if !self.has_device(&device_name) {
            self.devices.push((device_name, device));
            assert(self.entries() =~= old(self).entries().push((device_name@, device)));
        }
        self
    }

    /// Whether every registration refers to one of the first `n` devices of a
    /// store, so that the room can be rendered against a store of that size.
    pub fn fits(&self, n: usize) -> (b: bool)
        ensures
            b == self.refs_within(n as nat),
    {
        let mut i: usize = 0;
        while i < self.devices.len()
            invariant
                i <= self.devices.len(),
                forall|j: int| 0 <= j < i ==> (#[trigger] self.entries()[j]).1 < n,
            decreases self.devices.len() - i,
        {
            if self.devices[i].1 >= n {
                assert(self.entries()[i as int].1 >= n);
                return false;
            }
            i += 1;
        }
        true
    }

    /// Renders the room against the device store: the room's name on a line,
    /// then one line for each registered device, in the order of registration,
    /// with the device's description as it is now.
    pub fn get_info(&self, devices: &Vec<Device>) -> (s: String)
        requires
            self.refs_within(devices@.len()),
        ensures
            s@ == self.report(devices@),
    {
        let mut s = self.name.clone();
        s.append("\n");
        let mut i: usize = 0;
        assert(self.entries().take(0) =~= Seq::<(Seq<char>, usize)>::empty());
        while i < self.devices.len()
            invariant
                i <= self.devices.len(),
                self.devices.len() == self.entries().len(),
                self.refs_within(devices@.len()),
                s@ == self.label() + "\n"@ + device_lines(self.entries().take(i as int), devices@),
            decreases self.devices.len() - i,
        {
            let at: usize = self.devices[i].1;
            assert(self.entries()[i as int].1 == at);
            let line = devices[at].get_info();
            proof {
                let upto = self.entries().take(i as int + 1);
                assert(upto.drop_last() =~= self.entries().take(i as int));
                assert(upto.last() == self.entries()[i as int]);
                assert(self.label() + "\n"@ + device_lines(self.entries().take(i as int), devices@)
                    + line@ + "\n"@ =~= self.label() + "\n"@ + device_lines(upto, devices@));
            }
            s.append(line.as_str());
            s.append("\n");
            i += 1;
        }
        assert(self.entries().take(i as int) =~= self.entries());
        s
    }
}

/// Registering a second device under a name that is taken changes nothing:
/// after two registrations under one name the registrations are those after
/// the first.
pub proof fn lemma_first_registration_wins(
    entries: Seq<(Seq<char>, usize)>,
    key: Seq<char>,
    first: usize,
    second: usize,
)
    ensures
        has_key(with_device(entries, key, first), key),
        with_device(with_device(entries, key, first), key, second) == with_device(
            entries,
            key,
            first,
        ),
{
    let once = with_device(entries, key, first);
    if !has_key(entries, key) {
        assert(once[entries.len() as int].0 == key);
    }
}

/// A room in which `key` is taken reports the same before and after another
/// device is registered under `key`, against any device store.
pub proof fn lemma_taken_name_keeps_report(
    before: Room,
    after: Room,
    key: Seq<char>,
    device: usize,
    devices: Seq<Device>,
)
    requires
        has_key(before.entries(), key),
        after.label() == before.label(),
        after.entries() == with_device(before.entries(), key, device),
    ensures
        after.entries() == before.entries(),
        after.report(devices) == before.report(devices),
{
}

/// A room without devices renders as its name line and nothing more.
pub proof fn lemma_empty_room_report(room: Room, devices: Seq<Device>)
    requires
        room.entries().len() == 0,
    ensures
        room.report(devices) == room.label() + "\n"@,
{
    assert(room.label() + "\n"@ + Seq::<char>::empty() =~= room.label() + "\n"@);
}

} // verus!
