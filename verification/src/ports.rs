//! The listener task registry: which TCP ports are bound, for which tunnel,
//! to which edge server, and by which accept loop.
//!
//! The registry owns the handle of each accept loop. Taking an entry out
//! hands the handle back, so that the caller can abort the loop and release
//! the socket.

use std::collections::HashMap;
use vstd::prelude::*;
use vstd::std_specs::hash::{axiom_spec_hash_map_iter, spec_hash_map_iter};
use vstd::std_specs::iter::IteratorSpec;

verus! {

/// One bound port: the tunnel it belongs to, the edge server it leads to and
/// the handle of its accept loop.
pub struct BoundPort<H> {
    pub uid: String,
    pub connect_address: String,
    pub connect_port: u16,
    pub task: H,
}

/// One line of a listing: a bound port without its handle.
#[derive(Debug, Clone, PartialEq, Eq)]
pub struct PortEntry {
    pub port: u16,
    pub uid: String,
    pub connect_address: String,
    pub connect_port: u16,
}

/// Whether a line of a listing describes a port bound as `bound`.
pub open spec fn describes<H>(entry: PortEntry, port: u16, bound: BoundPort<H>) -> bool {
    &&& entry.port == port
    &&& entry.uid@ == bound.uid@
    &&& entry.connect_address@ == bound.connect_address@
    &&& entry.connect_port == bound.connect_port
}

/// Whether a listing shows exactly the bound ports, each once.
pub open spec fn lists<H>(entries: Seq<PortEntry>, ports: Map<u16, BoundPort<H>>) -> bool {
    &&& forall|i: int|
        0 <= i < entries.len() ==> ports.contains_key((#[trigger] entries[i]).port) && describes(
            entries[i],
            entries[i].port,
            ports[entries[i].port],
        )
    &&& forall|port: u16| #[trigger]
        ports.contains_key(port) ==> exists|i: int|
            0 <= i < entries.len() && (#[trigger] entries[i]).port == port
    &&& forall|i: int, j: int|
        0 <= i < j < entries.len() ==> (#[trigger] entries[i]).port != (#[trigger] entries[j]).port
}

/// The bound ports, by port number.
pub struct PortRegistry<H> {
    ports: HashMap<u16, BoundPort<H>>,
}

impl<H> View for PortRegistry<H> {
    type V = Map<u16, BoundPort<H>>;

    closed spec fn view(&self) -> Map<u16, BoundPort<H>> {
        self.ports@
    }
}

impl<H> PortRegistry<H> {
    /// A registry without bound ports.
    pub fn new() -> (registry: Self)
        ensures
            registry@ == Map::<u16, BoundPort<H>>::empty(),
    {
        PortRegistry { ports: HashMap::new() }
    }

    /// How many ports are bound.
    pub fn len(&self) -> (n: usize)
        ensures
            self@.dom().finite(),
            n == self@.dom().len(),
    {
        self.ports.len()
    }

    /// Whether `port` is bound.
    pub fn contains(&self, port: u16) -> (found: bool)
        ensures
            found == self@.contains_key(port),
    {
        self.ports.contains_key(&port)
    }

    /// Records `port` as bound. An entry that the port already had is
    /// replaced and handed back.
    pub fn insert(&mut self, port: u16, bound: BoundPort<H>) -> (displaced: Option<BoundPort<H>>)
        ensures
            final(self)@ == old(self)@.insert(port, bound),
            displaced == if old(self)@.contains_key(port) {
                Some(old(self)@[port])
            } else {
                None
            },
    {
        self.ports.insert(port, bound)
    }

    /// Takes the entry of `port` out and hands it back.
    pub fn remove(&mut self, port: u16) -> (removed: Option<BoundPort<H>>)
        ensures
            final(self)@ == old(self)@.remove(port),
            removed == if old(self)@.contains_key(port) {
                Some(old(self)@[port])
            } else {
                None
            },
    {
        self.ports.remove(&port)
    }

    /// Lists the bound ports, in no particular order.
    pub fn list(&self) -> (entries: Vec<PortEntry>)
        ensures
            lists(entries@, self@),
            entries@.len() == self@.dom().len(),
    {
        let mut entries: Vec<PortEntry> = Vec::new();
        let ghost pairs = spec_hash_map_iter(&self.ports).remaining();
        proof {
            axiom_spec_hash_map_iter(&self.ports);
        }
        for pair in it: self.ports.iter()
            invariant
                it.seq() == pairs,
                pairs.len() == self.ports@.dom().len(),
                pairs.no_duplicates(),
                forall|i: int|
                    0 <= i < pairs.len() ==> self.ports@.contains_key(*(#[trigger] pairs[i]).0)
                        && self.ports@[*pairs[i].0] == *pairs[i].1,
                entries@.len() == it.index(),
                forall|i: int|
                    0 <= i < entries@.len() ==> describes(
                        #[trigger] entries@[i],
                        *pairs[i].0,
                        *pairs[i].1,
                    ),
        {
            let (port, bound) = pair;
            entries.push(
                PortEntry {
                    port: *port,
                    uid: bound.uid.clone(),
                    connect_address: bound.connect_address.clone(),
                    connect_port: bound.connect_port,
                },
            );
        }
        proof {
            assert(entries@.len() == pairs.len());
            assert forall|port: u16| #[trigger] self@.contains_key(port) implies exists|i: int|
                0 <= i < entries@.len() && (#[trigger] entries@[i]).port == port by {
                let pair = (&port, &self.ports@[port]);
                assert(pairs.contains(pair));
                let i = choose|i: int| 0 <= i < pairs.len() && pairs[i] == pair;
                assert(entries@[i].port == port);
            }
            assert forall|i: int, j: int| 0 <= i < j < entries@.len() implies (
            #[trigger] entries@[i]).port != (#[trigger] entries@[j]).port by {
                if entries@[i].port == entries@[j].port {
                    assert(*pairs[i].0 == *pairs[j].0);
                    assert(*pairs[i].1 == *pairs[j].1);
                    assert(pairs[i] == pairs[j]);
                }
            }
        }
        entries
    }
}

} // verus!
