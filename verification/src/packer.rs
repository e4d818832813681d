//! Packs the universes of one tick and keeps one suppressor for each.

use crate::address_map::numbers_of;
use crate::address_map::AddressMap;
use crate::create_art_dmx_packet::art_dmx_packet;
use crate::create_art_dmx_packet::create_art_dmx_packet;
use crate::dmx_data::DMXData;
use crate::port_address::PortAddress;
use crate::suppressor::after_decision;
use crate::suppressor::fresh;
use crate::suppressor::must_pack;
use crate::suppressor::Suppressor;
use crate::suppressor::SuppressorState;
use vstd::prelude::*;

verus! {

/// The channel values of each universe of an input.
pub open spec fn frames(input: Map<u16, DMXData>) -> Map<u16, Seq<u8>> {
    input.map_values(|data: DMXData| data@)
}

/// The bytes of each packet of an output.
pub open spec fn packets(output: Map<u16, Vec<u8>>) -> Map<u16, Seq<u8>> {
    output.map_values(|packet: Vec<u8>| packet@)
}

/// The state in which the decision on `data` for the universe `address` is
/// taken: the one that is kept for it, or a fresh one where none is kept.
pub open spec fn state_for(
    states: Map<u16, SuppressorState>,
    address: u16,
    data: Seq<u8>,
) -> SuppressorState {
    if states.contains_key(address) {
        states[address]
    } else {
        fresh(data)
    }
}

/// The packets of one tick: one for each universe of `input` whose data has
/// to be sent at `now`, and none for any other.
pub open spec fn packets_due(
    states: Map<u16, SuppressorState>,
    input: Map<u16, Seq<u8>>,
    now: u64,
) -> Map<u16, Seq<u8>> {
    Map::new(
        |address: u16|
            input.contains_key(address) && must_pack(
                state_for(states, address, input[address]),
                input[address],
                now,
            ),
        |address: u16| art_dmx_packet(address, input[address]),
    )
}

/// The states that are kept after one tick: one for each universe of
/// `input`, after its decision, and none for any other.
pub open spec fn states_after(
    states: Map<u16, SuppressorState>,
    input: Map<u16, Seq<u8>>,
    now: u64,
) -> Map<u16, SuppressorState> {
    Map::new(
        |address: u16| input.contains_key(address),
        |address: u16|
            after_decision(state_for(states, address, input[address]), input[address], now),
    )
}

/// Whether `address` is among the first `count` of `universes`.
spec fn among_first(universes: Seq<PortAddress>, count: int, address: u16) -> bool {
    exists|j: int| 0 <= j < count && j < universes.len() && (#[trigger] universes[j])@ == address
}

/// Whoever is among the first `count + 1` is the one at `count` or among the
/// first `count`.
proof fn lemma_among_first_step(universes: Seq<PortAddress>, count: int, next: int)
    requires
        0 <= count < universes.len(),
        next == count + 1,
    ensures
        forall|a: u16|
            #![trigger among_first(universes, next, a)]
            among_first(universes, next, a) <==> (a == universes[count]@ || among_first(
                universes,
                count,
                a,
            )),
{
}

/// Where no number occurs twice, the one at `count` is not among the first
/// `count`.
proof fn lemma_not_among_first(universes: Seq<PortAddress>, count: int)
    requires
        0 <= count < universes.len(),
        numbers_of(universes).no_duplicates(),
    ensures
        !among_first(universes, count, universes[count]@),
{
    if among_first(universes, count, universes[count]@) {
        let j = choose|j: int|
            0 <= j < count && j < universes.len() && (#[trigger] universes[j])@
                == universes[count]@;
        assert(numbers_of(universes)[j] == numbers_of(universes)[count]);
    }
}

/// All of `universes` together are the numbers that occur in it.
proof fn lemma_among_all(universes: Seq<PortAddress>)
    ensures
        forall|a: u16|
            #![trigger among_first(universes, universes.len() as int, a)]
            among_first(universes, universes.len() as int, a) <==> numbers_of(
                universes,
            ).to_set().contains(a),
{
    assert forall|a: u16| among_first(universes, universes.len() as int, a) implies numbers_of(
        universes,
    ).to_set().contains(a) by {
        let j = choose|j: int| 0 <= j < universes.len() && (#[trigger] universes[j])@ == a;
        assert(numbers_of(universes)[j] == a);
    }
}

/// Keeps track of what was packed for each universe, so that unchanged data
/// is packed again only when the keepalive interval has run out.
pub struct ArtPacker {
    suppressors: AddressMap<Suppressor>,
}

impl View for ArtPacker {
    type V = Map<u16, SuppressorState>;

    closed spec fn view(&self) -> Map<u16, SuppressorState> {
        self.suppressors@.map_values(|suppressor: Suppressor| suppressor@)
    }
}

impl ArtPacker {
    /// A packer that has seen no universe yet.
    pub fn new() -> (packer: ArtPacker)
        ensures
            packer@ == Map::<u16, SuppressorState>::empty(),
    {
        ArtPacker { suppressors: AddressMap::new() }
    }

    /// The universes for which a state is kept, each once, in no particular
    /// order.
    pub fn universes(&self) -> (universes: Vec<PortAddress>)
        ensures
            numbers_of(universes@).no_duplicates(),
            numbers_of(universes@).to_set() == self@.dom(),
    {
        self.suppressors.keys()
    }

    /// Packs the data of one tick, taken at `now`, a time in milliseconds on
    /// a clock that never runs backwards.
    ///
    /// The result holds a packet for each universe of `input` whose data
    /// changed, was not seen at the tick before, or was last packed more than
    /// the keepalive interval ago. Afterwards the packer keeps a state for
    /// the universes of `input` and for no other.
    pub fn pack(&mut self, input: &AddressMap<DMXData>, now: u64) -> (output: AddressMap<Vec<u8>>)
        ensures
            packets(output@) == packets_due(old(self)@, frames(input@), now),
            final(self)@ == states_after(old(self)@, frames(input@), now),
            final(self)@.dom() == input@.dom(),
    {
        let ghost before = self@;
        let ghost wanted = frames(input@);
        let mut output: AddressMap<Vec<u8>> = AddressMap::new();
        let universes = input.keys();
        let mut i: usize = 0;
        while i < universes.len()
            invariant
                i <= universes.len(),
                wanted == frames(input@),
                numbers_of(universes@).no_duplicates(),
                numbers_of(universes@).to_set() == input@.dom(),
                forall|a: u16|
                    #![trigger self@.contains_key(a)]
                    #![trigger self.suppressors@.contains_key(a)]
                    self@.contains_key(a) <==> before.contains_key(a) || among_first(
                        universes@,
                        i as int,
                        a,
                    ),
                forall|a: u16|
                    #![trigger self@[a]]
                    #![trigger self.suppressors@[a]]
                    self@.contains_key(a) ==> self@[a] == if among_first(universes@, i as int, a) {
                        after_decision(state_for(before, a, wanted[a]), wanted[a], now)
                    } else {
                        before[a]
                    },
                forall|a: u16|
                    #![trigger output@.contains_key(a)]
                    output@.contains_key(a) <==> among_first(universes@, i as int, a) && must_pack(
                        state_for(before, a, wanted[a]),
                        wanted[a],
                        now,
                    ),
                forall|a: u16|
                    #![trigger output@[a]]
                    output@.contains_key(a) ==> output@[a]@ == art_dmx_packet(a, wanted[a]),
            decreases universes.len() - i,
        {
            let universe = universes[i];
            proof {
                assert(numbers_of(universes@)[i as int] == universe@);
                lemma_not_among_first(universes@, i as int);
                lemma_among_first_step(universes@, i as int, i + 1);
            }
            // `universe` is a key of `input`, so there is data for it
            if let Some(dmx) = input.get(&universe) {
                let mut suppressor = match self.suppressors.remove(&universe) {
                    Some(known) => known,
                    None => Suppressor::new(dmx),
                };
                if suppressor.should_pack(dmx, now) {
                    output.insert(universe, create_art_dmx_packet(&universe, dmx));
                }
                self.suppressors.insert(universe, suppressor);
            }
            i += 1;
        }
        let ghost packed = self@;
        let known = self.suppressors.keys();
        let mut j: usize = 0;
        while j < known.len()
            invariant
                j <= known.len(),
                forall|a: u16|
                    #![trigger self@.contains_key(a)]
                    #![trigger self.suppressors@.contains_key(a)]
                    self@.contains_key(a) <==> packed.contains_key(a) && (input@.contains_key(a)
                        || !among_first(known@, j as int, a)),
                forall|a: u16|
                    #![trigger self@[a]]
                    #![trigger self.suppressors@[a]]
                    self@.contains_key(a) ==> self@[a] == packed[a],
            decreases known.len() - j,
        {
            let universe = known[j];
            proof {
                lemma_among_first_step(known@, j as int, j + 1);
            }
            if !input.contains_key(&universe) {
                self.suppressors.remove(&universe);
            }
            j += 1;
        }
        proof {
            lemma_among_all(universes@);
            lemma_among_all(known@);
        }
        output
    }
}

/// After a tick a state is kept for the universes of its input and for no
/// other, whatever was kept before.
pub proof fn lemma_states_follow_input(
    states: Map<u16, SuppressorState>,
    input: Map<u16, Seq<u8>>,
    now: u64,
)
    ensures
        states_after(states, input, now).dom() == input.dom(),
        packets_due(states, input, now).dom().subset_of(input.dom()),
{
}

/// A universe for which no state is kept gets a packet at the first tick
/// that holds it, whatever the time.
pub proof fn lemma_new_universe_is_packed(
    states: Map<u16, SuppressorState>,
    input: Map<u16, Seq<u8>>,
    now: u64,
    address: u16,
)
    requires
        !states.contains_key(address),
        input.contains_key(address),
    ensures
        packets_due(states, input, now).contains_key(address),
        packets_due(states, input, now)[address] == art_dmx_packet(address, input[address]),
{
}

/// Each universe is decided on its own: whether it gets a packet, which one,
/// and what is kept for it depend on its own data and its own state, not on
/// what else the packer holds or the input brings.
pub proof fn lemma_universes_are_independent(
    states: Map<u16, SuppressorState>,
    input: Map<u16, Seq<u8>>,
    other_states: Map<u16, SuppressorState>,
    other_input: Map<u16, Seq<u8>>,
    now: u64,
    address: u16,
)
    requires
        input.contains_key(address),
        other_input.contains_key(address),
        input[address] == other_input[address],
        states.contains_key(address) == other_states.contains_key(address),
        states.contains_key(address) ==> states[address] == other_states[address],
    ensures
        ({
            let due = packets_due(states, input, now);
            let other_due = packets_due(other_states, other_input, now);
            &&& due.contains_key(address) == other_due.contains_key(address)
            &&& due.contains_key(address) ==> due[address] == other_due[address]
        }),
        states_after(states, input, now)[address] == states_after(
            other_states,
            other_input,
            now,
        )[address],
{
}

/// Nothing of a universe outlasts a tick without it: when it comes back, it
/// gets a packet at once, whatever was sent for it before and however little
/// time has passed.
pub proof fn lemma_returning_universe_is_packed(
    states: Map<u16, SuppressorState>,
    without: Map<u16, Seq<u8>>,
    now: u64,
    with: Map<u16, Seq<u8>>,
    later: u64,
    address: u16,
)
    requires
        !without.contains_key(address),
        with.contains_key(address),
    ensures
        !states_after(states, without, now).contains_key(address),
        packets_due(states_after(states, without, now), with, later).contains_key(address),
{
}

} // verus!
