use vstd::prelude::*;
use vstd::string::*;
use crate::devices::Device;
use crate::room::Room;

verus! {

/// The reports of the rooms that `order` refers to in `rooms`, one after the
/// other, in the order of `order`.
pub open spec fn room_sections(order: Seq<usize>, rooms: Seq<Room>, devices: Seq<Device>) -> Seq<
    char,
>
    decreases order.len(),
{
    if order.len() == 0 {
        Seq::empty()
    } else {
        room_sections(order.drop_last(), rooms, devices) + rooms[order.last() as int].report(
            devices,
        )
    }
}

/// A house: rooms of a room store, by their position in the store, in the
/// order in which they were added. A room may be added more than once.
pub struct SmartHouse {
    rooms: Vec<usize>,
}

impl SmartHouse {
    /// The positions of the house's rooms in the room store, in the order in
    /// which they were added.
    pub closed spec fn order(&self) -> Seq<usize> {
        self.rooms@
    }

    /// The line that opens every report of a house.
    pub open spec fn header() -> Seq<char> {
        "***** Отчет *****\n"@
    }

    /// Every room of the house is in `rooms`, and every device registered in
    /// one of them is among the first `n` devices of a store.
    pub open spec fn refs_within(&self, rooms: Seq<Room>, n: nat) -> bool {
        forall|i: int|
            0 <= i < self.order().len() ==> (#[trigger] self.order()[i]) < rooms.len()
                && rooms[self.order()[i] as int].refs_within(n)
    }

    /// The house's report against a room store and a device store: the header
    /// line, then the report of each room, in the order in which the rooms
    /// were added.
    pub open spec fn report(&self, rooms: Seq<Room>, devices: Seq<Device>) -> Seq<char> {
        Self::header() + room_sections(self.order(), rooms, devices)
    }

    /// A house without rooms.
    pub fn new() -> (h: SmartHouse)
        ensures
            h.order() == Seq::<usize>::empty(),
    {
        SmartHouse { rooms: Vec::new() }
    }

    /// Adds the room at position `room` of the room store behind the rooms
    /// that the house has. Returns the house, so that calls can be chained.
    pub fn add_room(&mut self, room: usize) -> (ret: &mut Self)
        ensures
            ret.order() == old(self).order().push(room),
            *final(self) == *final(ret),
    {
        self.rooms.push(room);
        self
    }

    /// Whether the house can be rendered against these stores: every room of
    /// the house is in `rooms`, and every device registered in one of them is
    /// among the first `n` devices.
    pub fn fits(&self, rooms: &Vec<Room>, n: usize) -> (b: bool)
        ensures
            b == self.refs_within(rooms@, n as nat),
    {
        let mut i: usize = 0;
        while i < self.rooms.len()
            invariant
                i <= self.rooms.len(),
                forall|j: int|
                    0 <= j < i ==> (#[trigger] self.order()[j]) < rooms@.len()
                        && rooms@[self.order()[j] as int].refs_within(n as nat),
            decreases self.rooms.len() - i,
        {
            let at: usize = self.rooms[i];
            if at >= rooms.len() || !rooms[at].fits(n) {
                assert(!(self.order()[i as int] < rooms@.len()
                    && rooms@[self.order()[i as int] as int].refs_within(n as nat)));
                return false;
            }
            i += 1;
        }
        true
    }

    /// Renders the house against the stores: the header line, then each
    /// room's report in the order in which the rooms were added, with rooms
    /// and devices as they are now.
    pub fn get_info(&self, rooms: &Vec<Room>, devices: &Vec<Device>) -> (s: String)
        requires
            self.refs_within(rooms@, devices@.len()),
        ensures
            s@ == self.report(rooms@, devices@),
    {
        let mut s = String::from_str("***** Отчет *****\n");
        let mut i: usize = 0;
        assert(self.order().take(0) =~= Seq::<usize>::empty());
        assert(s@ =~= Self::header() + Seq::<char>::empty());
        while i < self.rooms.len()
            invariant
                i <= self.rooms.len(),
                self.refs_within(rooms@, devices@.len()),
                s@ == Self::header() + room_sections(self.order().take(i as int), rooms@, devices@),
            decreases self.rooms.len() - i,
        {
            let at: usize = self.rooms[i];
            assert(self.order()[i as int] == at);
            let section = rooms[at].get_info(devices);
            proof {
                let upto = self.order().take(i as int + 1);
                assert(upto.drop_last() =~= self.order().take(i as int));
                assert(upto.last() == at);
                assert(Self::header() + room_sections(self.order().take(i as int), rooms@, devices@)
                    + section@ =~= Self::header() + room_sections(upto, rooms@, devices@));
            }
            s.append(section.as_str());
            i += 1;
        }
        assert(self.order().take(i as int) =~= self.order());
        s
    }
}

impl Default for SmartHouse {
    fn default() -> (h: SmartHouse)
        ensures
            h.order() == Seq::<usize>::empty(),
    {
        SmartHouse::new()
    }
}

/// Rooms are reported in the order in which they were added: a house with a
/// room added behind the others reports what it reported before, followed by
/// that room's report, whatever the rooms hold.
pub proof fn lemma_added_room_is_reported_last(
    before: SmartHouse,
    after: SmartHouse,
    room: usize,
    rooms: Seq<Room>,
    devices: Seq<Device>,
)
    requires
        after.order() == before.order().push(room),
    ensures
        after.report(rooms, devices) == before.report(rooms, devices) + rooms[room as int].report(
            devices,
        ),
{
    assert(after.order().drop_last() =~= before.order());
    assert(after.report(rooms, devices) =~= before.report(rooms, devices)
        + rooms[room as int].report(devices));
}

/// A house without rooms reports its header line and nothing more.
pub proof fn lemma_empty_house_report(house: SmartHouse, rooms: Seq<Room>, devices: Seq<Device>)
    requires
        house.order().len() == 0,
    ensures
        house.report(rooms, devices) == SmartHouse::header(),
{
    assert(SmartHouse::header() + Seq::<char>::empty() =~= SmartHouse::header());
}

} // verus!
