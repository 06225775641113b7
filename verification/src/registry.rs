//! The connections that are believed usable, by peer.

use crate::peer::PeerAddr;
use vstd::prelude::*;

verus! {

/// One live connection.
struct Entry<C> {
    addr: PeerAddr,
    conn: C,
}

/// The connection registry: at most one connection handle for each peer
/// address. A peer that is in the registry has a connection believed usable;
/// for one that is not, nothing should be sent before a new connection is
/// made.
///
/// Its view is the map from peer address to handle.
pub struct Registry<C> {
    entries: Vec<Entry<C>>,
}

/// Whether some entry of `entries` is for `addr`.
spec fn has_entry<C>(entries: Seq<Entry<C>>, addr: PeerAddr) -> bool {
    exists|i: int| 0 <= i < entries.len() && entries[i].addr == addr
}

/// The place of an entry for `addr` in `entries`.
spec fn entry_index<C>(entries: Seq<Entry<C>>, addr: PeerAddr) -> int {
    choose|i: int| 0 <= i < entries.len() && entries[i].addr == addr
}

/// No address has two entries.
spec fn distinct<C>(entries: Seq<Entry<C>>) -> bool {
    forall|i: int, j: int|
        0 <= i < j < entries.len() ==> (#[trigger] entries[i]).addr != (#[trigger] entries[j]).addr
}

/// The map that `entries` stand for.
spec fn as_map<C>(entries: Seq<Entry<C>>) -> Map<PeerAddr, C> {
    Map::new(
        |addr: PeerAddr| has_entry(entries, addr),
        |addr: PeerAddr| entries[entry_index(entries, addr)].conn,
    )
}

/// The entries that are left when the one for `addr`, if any, is taken out.
spec fn without<C>(entries: Seq<Entry<C>>, addr: PeerAddr) -> Seq<Entry<C>> {
    if has_entry(entries, addr) {
        entries.remove(entry_index(entries, addr))
    } else {
        entries
    }
}

/// With distinct addresses, an entry is found by its address alone.
proof fn lemma_entry_index<C>(entries: Seq<Entry<C>>, i: int)
    requires
        distinct(entries),
        0 <= i < entries.len(),
    ensures
        has_entry(entries, entries[i].addr),
        entry_index(entries, entries[i].addr) == i,
        as_map(entries).contains_key(entries[i].addr),
        as_map(entries)[entries[i].addr] == entries[i].conn,
{
    let addr = entries[i].addr;
    let k = entry_index(entries, addr);
    assert(0 <= k < entries.len() && entries[k].addr == addr);
    if k < i {
        assert(entries[k].addr != entries[i].addr);
    } else if i < k {
        assert(entries[i].addr != entries[k].addr);
    }
}

/// Taking the entry for an address out keeps the addresses distinct and
/// removes the address from the map.
proof fn lemma_without<C>(entries: Seq<Entry<C>>, addr: PeerAddr)
    requires
        distinct(entries),
    ensures
        distinct(without(entries, addr)),
        !has_entry(without(entries, addr), addr),
        as_map(without(entries, addr)) == as_map(entries).remove(addr),
{
    let rest = without(entries, addr);
    if has_entry(entries, addr) {
        let k = entry_index(entries, addr);
        // Where the entry at place `i` of `rest` stands in `entries`.
        let origin = |i: int| if i < k { i } else { i + 1 };
        assert forall|i: int| 0 <= i < rest.len() implies #[trigger] rest[i] == entries[origin(
            i,
        )] by {}
        assert forall|i: int| 0 <= i < rest.len() implies (#[trigger] rest[i]).addr != addr by {
            assert(rest[i] == entries[origin(i)]);
            if origin(i) < k {
                assert(entries[origin(i)].addr != entries[k].addr);
            } else {
                assert(entries[k].addr != entries[origin(i)].addr);
            }
        }
        assert forall|i: int, j: int| 0 <= i < j < rest.len() implies (#[trigger] rest[i]).addr
            != (#[trigger] rest[j]).addr by {
            assert(rest[i] == entries[origin(i)]);
            assert(rest[j] == entries[origin(j)]);
            assert(entries[origin(i)].addr != entries[origin(j)].addr);
        }
        assert forall|a: PeerAddr| #[trigger]
            has_entry(rest, a) <==> (has_entry(entries, a) && a != addr) by {
            if has_entry(rest, a) {
                let i = entry_index(rest, a);
                assert(rest[i] == entries[origin(i)]);
                assert(entries[origin(i)].addr == a);
            }
            if has_entry(entries, a) && a != addr {
                let j = entry_index(entries, a);
                let i = if j < k { j } else { j - 1 };
                assert(rest[i] == entries[j]);
                assert(rest[i].addr == a);
            }
        }
        assert forall|a: PeerAddr| #[trigger] has_entry(rest, a) implies as_map(rest)[a] == as_map(
            entries,
        )[a] by {
            let i = entry_index(rest, a);
            assert(rest[i] == entries[origin(i)]);
            lemma_entry_index(rest, i);
            lemma_entry_index(entries, origin(i));
        }
    }
    assert(as_map(rest) =~= as_map(entries).remove(addr));
}

/// Adding an entry for an address that has none keeps the addresses distinct
/// and adds the address to the map.
proof fn lemma_with<C>(entries: Seq<Entry<C>>, addr: PeerAddr, conn: C)
    requires
        distinct(entries),
        !has_entry(entries, addr),
    ensures
        distinct(entries.push(Entry { addr, conn })),
        as_map(entries.push(Entry { addr, conn })) == as_map(entries).insert(addr, conn),
{
    let grown = entries.push(Entry { addr, conn });
    let last = entries.len() as int;
    assert forall|i: int, j: int| 0 <= i < j < grown.len() implies (#[trigger] grown[i]).addr
        != (#[trigger] grown[j]).addr by {
        if j == last {
            assert(grown[i] == entries[i]);
            assert(entries[i].addr != addr);
        } else {
            assert(grown[i] == entries[i] && grown[j] == entries[j]);
        }
    }
    assert forall|a: PeerAddr| #[trigger]
        has_entry(grown, a) <==> (has_entry(entries, a) || a == addr) by {
        if has_entry(grown, a) {
            let i = entry_index(grown, a);
            if i < last {
                assert(grown[i] == entries[i]);
                assert(entries[i].addr == a);
            }
        }
        if has_entry(entries, a) {
            let j = entry_index(entries, a);
            assert(grown[j] == entries[j]);
            assert(grown[j].addr == a);
        }
        if a == addr {
            assert(grown[last].addr == a);
        }
    }
    assert forall|a: PeerAddr| #[trigger] has_entry(grown, a) implies as_map(grown)[a] == as_map(
        entries,
    ).insert(addr, conn)[a] by {
        let i = entry_index(grown, a);
        lemma_entry_index(grown, i);
        if i < last {
            assert(grown[i] == entries[i]);
            lemma_entry_index(entries, i);
        }
    }
    assert(as_map(grown) =~= as_map(entries).insert(addr, conn));
}

impl<C> View for Registry<C> {
    type V = Map<PeerAddr, C>;

    closed spec fn view(&self) -> Map<PeerAddr, C> {
        as_map(self.entries@)
    }
}

impl<C> Registry<C> {
    #[verifier::type_invariant]
    spec fn well_formed(self) -> bool {
        distinct(self.entries@)
    }

    /// A registry without connections.
    pub fn new() -> (registry: Self)
        ensures
            registry@ == Map::<PeerAddr, C>::empty(),
    {
        let registry = Registry { entries: Vec::new() };
        assert(registry@ =~= Map::<PeerAddr, C>::empty());
        registry
    }

    /// Where the entry for `addr` stands, if there is one.
    fn position(entries: &Vec<Entry<C>>, addr: PeerAddr) -> (found: Option<usize>)
        ensures
            match found {
                Some(i) => i < entries@.len() && entries@[i as int].addr == addr,
                None => !has_entry(entries@, addr),
            },
    {
        let mut i: usize = 0;
        while i < entries.len()
            invariant
                i <= entries@.len(),
                forall|k: int| 0 <= k < i ==> (#[trigger] entries@[k]).addr != addr,
            decreases entries@.len() - i,
        {
            if entries[i].addr == addr {
                return Some(i);
            }
            i += 1;
        }
        None
    }

    /// Whether `addr` has a connection.
    pub fn contains(&self, addr: PeerAddr) -> (present: bool)
        ensures
            present == self@.contains_key(addr),
    {
        Self::position(&self.entries, addr).is_some()
    }

    /// The connection of `addr`, if it has one.
    pub fn get(&self, addr: PeerAddr) -> (conn: Option<&C>)
        ensures
            conn == if self@.contains_key(addr) {
                Some(&self@[addr])
            } else {
                None
            },
    {
        proof {
            use_type_invariant(self);
        }
        match Self::position(&self.entries, addr) {
            Some(i) => {
                proof {
                    lemma_entry_index(self.entries@, i as int);
                }
                Some(&self.entries[i].conn)
            },
            None => None,
        }
    }

    /// Records `conn` as the connection of `addr`, and hands back the one it
    /// replaces, if any.
    pub fn insert(&mut self, addr: PeerAddr, conn: C) -> (replaced: Option<C>)
        ensures
            final(self)@ == old(self)@.insert(addr, conn),
            replaced == if old(self)@.contains_key(addr) {
                Some(old(self)@[addr])
            } else {
                None
            },
    {
        proof {
            use_type_invariant(&*self);
        }
        let mut entries = Vec::new();
        std::mem::swap(&mut entries, &mut self.entries);
        let ghost before = entries@;
        let replaced = match Self::position(&entries, addr) {
            Some(i) => {
                proof {
                    lemma_entry_index(before, i as int);
                }
                Some(entries.remove(i).conn)
            },
            None => None,
        };
        let ghost rest = entries@;
        entries.push(Entry { addr, conn });
        proof {
            lemma_without(before, addr);
            lemma_with(rest, addr, conn);
        }
        self.entries = entries;
        replaced
    }

    /// Takes the connection of `addr` out of the registry and hands it back.
    /// Where `addr` has none, nothing changes.
    pub fn remove(&mut self, addr: PeerAddr) -> (removed: Option<C>)
        ensures
            final(self)@ == old(self)@.remove(addr),
            removed == if old(self)@.contains_key(addr) {
                Some(old(self)@[addr])
            } else {
                None
            },
    {
        proof {
            use_type_invariant(&*self);
        }
        let mut entries = Vec::new();
        std::mem::swap(&mut entries, &mut self.entries);
        let ghost before = entries@;
        let removed = match Self::position(&entries, addr) {
            Some(i) => {
                proof {
                    lemma_entry_index(before, i as int);
                }
                Some(entries.remove(i).conn)
            },
            None => None,
        };
        proof {
            lemma_without(before, addr);
        }
        self.entries = entries;
        removed
    }
}

} // verus!
