//! A map keyed by Port-Address.

use crate::port_address::PortAddress;
use crate::port_address::MAX_PORT_ADDRESS;
use std::collections::HashMap;
use vstd::prelude::*;
use vstd::std_specs::iter::IteratorSpec;

verus! {

broadcast use vstd::std_specs::hash::group_hash_axioms;

/// A finite map from Port-Addresses to values of `V`.
///
/// Its view is the map from address numbers to those values.
#[derive(Debug, PartialEq, Eq)]
pub struct AddressMap<V> {
    entries: HashMap<u16, V>,
}

impl<V> View for AddressMap<V> {
    type V = Map<u16, V>;

    closed spec fn view(&self) -> Map<u16, V> {
        self.entries@
    }
}

impl<V> AddressMap<V> {
    #[verifier::type_invariant]
    spec fn keys_in_range(self) -> bool {
        forall|number: u16| #[trigger]
            self.entries@.contains_key(number) ==> number <= MAX_PORT_ADDRESS
    }

    /// The empty map.
    pub fn new() -> (map: AddressMap<V>)
        ensures
            map@ == Map::<u16, V>::empty(),
    {
        AddressMap { entries: HashMap::new() }
    }

    /// How many addresses the map holds.
    pub fn len(&self) -> (count: usize)
        ensures
            count == self@.len(),
    {
        self.entries.len()
    }

    /// Whether the map holds nothing.
    pub fn is_empty(&self) -> (empty: bool)
        ensures
            empty == self@.is_empty(),
    {
        self.entries.is_empty()
    }

    /// Whether the map holds a value for `address`.
    pub fn contains_key(&self, address: &PortAddress) -> (found: bool)
        ensures
            found == self@.contains_key(address@),
    {
        let number = address.value();
        self.entries.contains_key(&number)
    }

    /// The value for `address`, if the map holds one.
    pub fn get(&self, address: &PortAddress) -> (value: Option<&V>)
        ensures
            match value {
                Some(v) => self@.contains_key(address@) && *v == self@[address@],
                None => !self@.contains_key(address@),
            },
    {
        let number = address.value();
        self.entries.get(&number)
    }

    /// Sets the value for `address` and hands back the one it replaces.
    pub fn insert(&mut self, address: PortAddress, value: V) -> (replaced: Option<V>)
        ensures
            final(self)@ == old(self)@.insert(address@, value),
            match replaced {
                Some(v) => old(self)@.contains_key(address@) && v == old(self)@[address@],
                None => !old(self)@.contains_key(address@),
            },
    {
        proof {
            use_type_invariant(&*self);
        }
        let number = address.value();
        let mut entries = HashMap::new();
        std::mem::swap(&mut entries, &mut self.entries);
        let replaced = entries.insert(number, value);
        self.entries = entries;
        replaced
    }

    /// Takes `address` out of the map and hands back its value, if it had one.
    pub fn remove(&mut self, address: &PortAddress) -> (removed: Option<V>)
        ensures
            final(self)@ == old(self)@.remove(address@),
            match removed {
                Some(v) => old(self)@.contains_key(address@) && v == old(self)@[address@],
                None => !old(self)@.contains_key(address@),
            },
    {
        proof {
            use_type_invariant(&*self);
        }
        let number = address.value();
        let mut entries = HashMap::new();
        std::mem::swap(&mut entries, &mut self.entries);
        let removed = entries.remove(&number);
        self.entries = entries;
        removed
    }

    /// The addresses that the map holds, each once, in no particular order.
    pub fn keys(&self) -> (addresses: Vec<PortAddress>)
        ensures
            numbers_of(addresses@).no_duplicates(),
            numbers_of(addresses@).to_set() == self@.dom(),
    {
        proof {
            use_type_invariant(self);
        }
        let ghost order: Seq<&u16> = self.entries.keys().remaining();
        let mut addresses: Vec<PortAddress> = Vec::new();
        for number in iter: self.entries.keys()
            invariant
                iter.seq() == order,
                order.unref().to_set() == self.entries@.dom(),
                self.keys_in_range(),
                addresses@.len() == iter.index(),
                forall|i: int|
                    0 <= i < addresses@.len() ==> (#[trigger] addresses@[i])@ == *order[i],
        {
            assert(order.unref().to_set().contains(*number));
            addresses.push(PortAddress::from_number(*number));
        }
        assert(numbers_of(addresses@) =~= order.unref());
        addresses
    }
}

/// The numbers of a sequence of addresses, in the same order.
pub open spec fn numbers_of(addresses: Seq<PortAddress>) -> Seq<u16> {
    addresses.map_values(|address: PortAddress| address@)
}

} // verus!
