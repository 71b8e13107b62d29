//! The room registry: one fan-out channel per room name, created on first
//! reference and never removed.
//!
//! The registry is a plain value. Whoever shares it between connections guards
//! it with a lock of their choice and holds that lock for one call only: each
//! method here is a whole critical section, and none of them sends or
//! receives on a channel.

use crate::channel::{bound_of, channel_of, open_channel, share};
use tokio::sync::broadcast::Sender;
use vstd::prelude::*;
use vstd::string::*;

verus! {

/// The number of messages that every room's channel is asked to retain.
pub const ROOM_CAPACITY: usize = 100;

/// The rooms after a reference to `name`, where `fresh` is the channel that
/// the reference would create: a known name changes nothing, a new one is
/// bound to `fresh`.
pub open spec fn joined(rooms: Map<Seq<char>, nat>, name: Seq<char>, fresh: nat) -> Map<
    Seq<char>,
    nat,
> {
    if rooms.contains_key(name) {
        rooms
    } else {
        rooms.insert(name, fresh)
    }
}

/// The rooms after a run of references, each given as the name it asks for
/// and the channel it would create if the name were new.
pub open spec fn rooms_after(start: Map<Seq<char>, nat>, calls: Seq<(Seq<char>, nat)>) -> Map<
    Seq<char>,
    nat,
>
    decreases calls.len(),
{
    if calls.len() == 0 {
        start
    } else {
        joined(rooms_after(start, calls.drop_last()), calls.last().0, calls.last().1)
    }
}

/// The names that a run of references asks for, in call order.
pub open spec fn names_of(calls: Seq<(Seq<char>, nat)>) -> Seq<Seq<char>> {
    calls.map_values(|c: (Seq<char>, nat)| c.0)
}

/// The texts of a list of strings.
pub open spec fn texts(names: Seq<String>) -> Seq<Seq<char>> {
    names.map_values(|s: String| s@)
}

/// A reference to a name that is already a room changes nothing, and one to a
/// new name adds that room and no other.
pub proof fn lemma_reference_adds_at_most_one_room(
    rooms: Map<Seq<char>, nat>,
    name: Seq<char>,
    fresh: nat,
)
    requires
        rooms.dom().finite(),
    ensures
        joined(rooms, name, fresh).dom() == rooms.dom().insert(name),
        joined(rooms, name, fresh).dom().finite(),
        rooms.contains_key(name) ==> joined(rooms, name, fresh) == rooms,
        !rooms.contains_key(name) ==> joined(rooms, name, fresh).dom().len() == rooms.dom().len()
            + 1 && joined(rooms, name, fresh)[name] == fresh,
        forall|other: Seq<char>|
            rooms.contains_key(other) ==> joined(rooms, name, fresh)[other] == rooms[other],
{
    assert(joined(rooms, name, fresh).dom() =~= rooms.dom().insert(name));
}

/// Once a room exists, every later reference, to its name or to any other,
/// leaves it bound to the channel it had.
pub proof fn lemma_room_keeps_its_channel(
    start: Map<Seq<char>, nat>,
    name: Seq<char>,
    later: Seq<(Seq<char>, nat)>,
)
    requires
        start.contains_key(name),
    ensures
        rooms_after(start, later).contains_key(name),
        rooms_after(start, later)[name] == start[name],
    decreases later.len(),
{
    if later.len() > 0 {
        lemma_room_keeps_its_channel(start, name, later.drop_last());
    }
}

/// The first reference to a name creates exactly one room, bound to the
/// channel made for it, and every reference after it finds that same channel.
pub proof fn lemma_one_channel_per_room(
    start: Map<Seq<char>, nat>,
    name: Seq<char>,
    first: nat,
    later: Seq<(Seq<char>, nat)>,
)
    requires
        start.dom().finite(),
        !start.contains_key(name),
    ensures
        joined(start, name, first).dom() == start.dom().insert(name),
        joined(start, name, first).dom().len() == start.dom().len() + 1,
        rooms_after(joined(start, name, first), later).contains_key(name),
        rooms_after(joined(start, name, first), later)[name] == first,
{
    lemma_reference_adds_at_most_one_room(start, name, first);
    lemma_room_keeps_its_channel(joined(start, name, first), name, later);
}

/// Referring to the same name twice leaves the rooms as the first reference
/// left them.
pub proof fn lemma_reference_is_idempotent(
    rooms: Map<Seq<char>, nat>,
    name: Seq<char>,
    first: nat,
    second: nat,
)
    ensures
        joined(joined(rooms, name, first), name, second) == joined(rooms, name, first),
        rooms_after(rooms, seq![(name, first), (name, second)]) == rooms_after(
            rooms,
            seq![(name, first)],
        ),
{
    let once = seq![(name, first)];
    let twice = seq![(name, first), (name, second)];
    assert(twice.drop_last() =~= once);
    assert(once.drop_last() =~= Seq::<(Seq<char>, nat)>::empty());
    assert(rooms_after(rooms, once.drop_last()) == rooms);
    assert(rooms_after(rooms, once) == joined(rooms, name, first));
    assert(rooms_after(rooms, twice) == joined(rooms_after(rooms, once), name, second));
}

/// After a run of references the room names are those that were there
/// before and those that were asked for, whatever the order of the calls.
pub proof fn lemma_rooms_after_calls(start: Map<Seq<char>, nat>, calls: Seq<(Seq<char>, nat)>)
    requires
        start.dom().finite(),
    ensures
        rooms_after(start, calls).dom() == start.dom().union(names_of(calls).to_set()),
        rooms_after(start, calls).dom().finite(),
    decreases calls.len(),
{
    let names = names_of(calls);
    if calls.len() == 0 {
        assert(names.to_set() =~= Set::<Seq<char>>::empty());
        assert(start.dom().union(names.to_set()) =~= start.dom());
    } else {
        let before = calls.drop_last();
        lemma_rooms_after_calls(start, before);
        lemma_reference_adds_at_most_one_room(
            rooms_after(start, before),
            calls.last().0,
            calls.last().1,
        );
        assert(names_of(before) =~= names.drop_last());
        assert(names.last() == calls.last().0);
        assert forall|x: Seq<char>| names.to_set().contains(x) <==> names.drop_last().to_set().contains(
            x,
        ) || x == names.last() by {
            if names.to_set().contains(x) {
                let k = choose|k: int| 0 <= k < names.len() && names[k] == x;
                if k < names.len() - 1 {
                    assert(names.drop_last()[k] == x);
                    assert(names.drop_last().contains(x));
                }
            }
            if names.drop_last().to_set().contains(x) {
                let k = choose|k: int| 0 <= k < names.drop_last().len() && names.drop_last()[k] == x;
                assert(names[k] == x);
                assert(names.contains(x));
            }
            if x == names.last() {
                assert(names[names.len() - 1] == x);
                assert(names.contains(x));
            }
        }
        assert(rooms_after(start, calls).dom() =~= start.dom().union(names.to_set()));
    }
}

/// Starting without rooms, references to N distinct names leave exactly
/// those N rooms.
pub proof fn lemma_distinct_names_make_as_many_rooms(calls: Seq<(Seq<char>, nat)>)
    requires
        names_of(calls).no_duplicates(),
    ensures
        rooms_after(Map::empty(), calls).dom() == names_of(calls).to_set(),
        rooms_after(Map::empty(), calls).dom().finite(),
        rooms_after(Map::empty(), calls).dom().len() == calls.len(),
{
    let none = Map::<Seq<char>, nat>::empty();
    lemma_rooms_after_calls(none, calls);
    assert(none.dom().union(names_of(calls).to_set()) =~= names_of(calls).to_set());
    names_of(calls).unique_seq_to_set();
}

/// Two runs that ask for the same names, in any interleaving and any number
/// of times each, leave rooms of the same names.
pub proof fn lemma_call_order_is_irrelevant(
    start: Map<Seq<char>, nat>,
    a: Seq<(Seq<char>, nat)>,
    b: Seq<(Seq<char>, nat)>,
)
    requires
        start.dom().finite(),
        names_of(a).to_set() == names_of(b).to_set(),
    ensures
        rooms_after(start, a).dom() == rooms_after(start, b).dom(),
{
    lemma_rooms_after_calls(start, a);
    lemma_rooms_after_calls(start, b);
}

struct Room {
    name: String,
    tx: Sender<String>,
}

spec fn named(rooms: Seq<Room>, i: int, name: Seq<char>) -> bool {
    0 <= i < rooms.len() && rooms[i].name@ == name
}

spec fn slot(rooms: Seq<Room>, name: Seq<char>) -> int {
    choose|i: int| named(rooms, i, name)
}

spec fn distinct(rooms: Seq<Room>) -> bool {
    forall|i: int, j: int| #![trigger rooms[i], rooms[j]]
        0 <= i < j < rooms.len() ==> rooms[i].name@ != rooms[j].name@
}

spec fn as_map(rooms: Seq<Room>) -> Map<Seq<char>, nat> {
    Map::new(
        |name: Seq<char>| exists|i: int| named(rooms, i, name),
        |name: Seq<char>| channel_of(rooms[slot(rooms, name)].tx),
    )
}

proof fn lemma_slot(rooms: Seq<Room>, i: int)
    requires
        distinct(rooms),
        0 <= i < rooms.len(),
    ensures
        as_map(rooms).contains_key(rooms[i].name@),
        slot(rooms, rooms[i].name@) == i,
        as_map(rooms)[rooms[i].name@] == channel_of(rooms[i].tx),
{
    let name = rooms[i].name@;
    assert(named(rooms, i, name));
    let k = slot(rooms, name);
    assert(named(rooms, k, name));
    if k < i {
        assert(rooms[k].name@ != rooms[i].name@);
    } else if i < k {
        assert(rooms[i].name@ != rooms[k].name@);
    }
}

proof fn lemma_absent(rooms: Seq<Room>, name: Seq<char>)
    requires
        forall|j: int| 0 <= j < rooms.len() ==> rooms[j].name@ != name,
    ensures
        !as_map(rooms).contains_key(name),
{
    if as_map(rooms).contains_key(name) {
        let k = choose|i: int| named(rooms, i, name);
        assert(named(rooms, k, name));
    }
}

proof fn lemma_push(rooms: Seq<Room>, room: Room)
    requires
        distinct(rooms),
        !as_map(rooms).contains_key(room.name@),
    ensures
        distinct(rooms.push(room)),
        as_map(rooms.push(room)) == as_map(rooms).insert(room.name@, channel_of(room.tx)),
{
    let more = rooms.push(room);
    assert forall|i: int, j: int| 0 <= i < j < more.len() implies more[i].name@ != more[j].name@ by {
        if j == rooms.len() {
            assert(more[i] == rooms[i]);
            if rooms[i].name@ == room.name@ {
                assert(named(rooms, i, room.name@));
            }
        } else {
            assert(more[i] == rooms[i] && more[j] == rooms[j]);
        }
    }
    assert(more[rooms.len() as int] == room);
    let want = as_map(rooms).insert(room.name@, channel_of(room.tx));
    assert forall|name: Seq<char>| as_map(more).contains_key(name) <==> want.contains_key(
        name,
    ) by {
        if as_map(more).contains_key(name) {
            let k = choose|i: int| named(more, i, name);
            if k < rooms.len() {
                assert(more[k] == rooms[k]);
                assert(named(rooms, k, name));
            }
        }
        if want.contains_key(name) {
            if name == room.name@ {
                assert(named(more, rooms.len() as int, name));
            } else {
                let k = choose|i: int| named(rooms, i, name);
                assert(more[k] == rooms[k]);
                assert(named(more, k, name));
            }
        }
    }
    assert forall|name: Seq<char>| as_map(more).contains_key(name) implies as_map(more)[name]
        == want[name] by {
        let k = choose|i: int| named(more, i, name);
        lemma_slot(more, k);
        if k < rooms.len() {
            assert(more[k] == rooms[k]);
            lemma_slot(rooms, k);
        }
    }
    assert(as_map(more) =~= want);
}

/// The shared mapping from room name to fan-out channel.
pub struct RoomRegistry {
    rooms: Vec<Room>,
}

impl View for RoomRegistry {
    type V = Map<Seq<char>, nat>;

    /// The channel of each room, by name.
    closed spec fn view(&self) -> Map<Seq<char>, nat> {
        as_map(self.rooms@)
    }
}

impl RoomRegistry {
    #[verifier::type_invariant]
    spec fn valid(&self) -> bool {
        &&& distinct(self.rooms@)
        &&& forall|i: int|
            0 <= i < self.rooms@.len() ==> bound_of(#[trigger] self.rooms@[i].tx) == ROOM_CAPACITY
    }

    /// A registry without rooms.
    pub fn new() -> (registry: RoomRegistry)
        ensures
            registry@ == Map::<Seq<char>, nat>::empty(),
    {
        let registry = RoomRegistry { rooms: Vec::new() };
        proof {
            assert forall|name: Seq<char>| !as_map(registry.rooms@).contains_key(name) by {
                lemma_absent(registry.rooms@, name);
            }
            assert(registry@ =~= Map::<Seq<char>, nat>::empty());
        }
        registry
    }

    /// Looks `name` up and, if no room has it, creates the room with a new
    /// channel of capacity [`ROOM_CAPACITY`]. Returns a producer handle on the
    /// room's channel in both cases. Names are keys as they stand: nothing is
    /// trimmed or folded.
    pub fn get_or_create(&mut self, name: &str) -> (tx: Sender<String>)
        ensures
            final(self)@ == joined(old(self)@, name@, channel_of(tx)),
            final(self)@.contains_key(name@),
            final(self)@[name@] == channel_of(tx),
            bound_of(tx) == ROOM_CAPACITY,
    {
        proof {
            use_type_invariant(&*self);
        }
        let key = String::from_str(name);
        let mut i: usize = 0;
        while i < self.rooms.len()
            invariant
                *self == *old(self),
                distinct(self.rooms@),
                forall|k: int|
                    0 <= k < self.rooms@.len() ==> bound_of(#[trigger] self.rooms@[k].tx)
                        == ROOM_CAPACITY,
                key@ == name@,
                i <= self.rooms.len(),
                forall|j: int| 0 <= j < i ==> self.rooms@[j].name@ != name@,
            decreases self.rooms.len() - i,
        {
            if self.rooms[i].name == key {
                let tx = share(&self.rooms[i].tx);
                proof {
                    lemma_slot(self.rooms@, i as int);
                }
                return tx;
            }
            i += 1;
        }
        let tx = open_channel(ROOM_CAPACITY);
        let handle = share(&tx);
        let room = Room { name: key, tx };
        proof {
            lemma_absent(self.rooms@, name@);
            lemma_push(self.rooms@, room);
        }
        let mut taken = RoomRegistry { rooms: Vec::new() };
        core::mem::swap(self, &mut taken);
        let mut rooms = taken.rooms;
        rooms.push(room);
        *self = RoomRegistry { rooms };
        handle
    }

    /// A producer handle on the channel of room `name`, if the room exists.
    pub fn lookup(&self, name: &str) -> (found: Option<Sender<String>>)
        ensures
            found is Some <==> self@.contains_key(name@),
            found matches Some(tx) ==> channel_of(tx) == self@[name@] && bound_of(tx)
                == ROOM_CAPACITY,
    {
        proof {
            use_type_invariant(self);
        }
        let key = String::from_str(name);
        let mut i: usize = 0;
        while i < self.rooms.len()
            invariant
                distinct(self.rooms@),
                forall|k: int|
                    0 <= k < self.rooms@.len() ==> bound_of(#[trigger] self.rooms@[k].tx)
                        == ROOM_CAPACITY,
                key@ == name@,
                i <= self.rooms.len(),
                forall|j: int| 0 <= j < i ==> self.rooms@[j].name@ != name@,
            decreases self.rooms.len() - i,
        {
            if self.rooms[i].name == key {
                let tx = share(&self.rooms[i].tx);
                proof {
                    lemma_slot(self.rooms@, i as int);
                }
                return Some(tx);
            }
            i += 1;
        }
        proof {
            lemma_absent(self.rooms@, name@);
        }
        None
    }

    /// A snapshot of the names of all rooms, each once, in no promised order.
    pub fn list_rooms(&self) -> (names: Vec<String>)
        ensures
            texts(names@).no_duplicates(),
            texts(names@).to_set() == self@.dom(),
            self@.dom().finite(),
            names@.len() == self@.dom().len(),
    {
        proof {
            use_type_invariant(self);
        }
        let mut names: Vec<String> = Vec::new();
        let mut i: usize = 0;
        while i < self.rooms.len()
            invariant
                i <= self.rooms.len(),
                names@.len() == i,
                forall|j: int| 0 <= j < i ==> (#[trigger] names@[j])@ == self.rooms@[j].name@,
            decreases self.rooms.len() - i,
        {
            names.push(self.rooms[i].name.clone());
            i += 1;
        }
        proof {
            let t = texts(names@);
            let rooms = self.rooms@;
            assert forall|a: int, b: int| 0 <= a < t.len() && 0 <= b < t.len() && a != b implies t[a]
                != t[b] by {
                assert(t[a] == names@[a]@ && t[b] == names@[b]@);
                if a < b {
                    assert(rooms[a].name@ != rooms[b].name@);
                } else {
                    assert(rooms[b].name@ != rooms[a].name@);
                }
            }
            assert forall|name: Seq<char>| t.to_set().contains(name) <==> self@.dom().contains(
                name,
            ) by {
                if t.to_set().contains(name) {
                    let k = choose|k: int| 0 <= k < t.len() && t[k] == name;
                    assert(names@[k]@ == rooms[k].name@);
                    assert(named(rooms, k, name));
                }
                if self@.dom().contains(name) {
                    let k = choose|k: int| named(rooms, k, name);
                    assert(t[k] == names@[k]@);
                    assert(t.contains(name));
                }
            }
            assert(t.to_set() =~= self@.dom());
            t.unique_seq_to_set();
        }
        names
    }
}

} // verus!
