//! The in-memory port allocator: one port per capsule out of a fixed range,
//! stable for a capsule and first-fit for a new one.

use crate::text_map::TextMap;
use std::collections::BTreeSet;
use vstd::prelude::*;

verus! {

broadcast use vstd::std_specs::btree::group_btree_axioms;

/// Whether `port` is the smallest port of `start..=end` that is not in `used`.
pub open spec fn is_first_free(used: Set<u16>, start: u16, end: u16, port: u16) -> bool {
    &&& start <= port <= end
    &&& !used.contains(port)
    &&& forall|p: u16| start <= p < port ==> used.contains(p)
}

/// Whether every port of `start..=end` is in `used`.
pub open spec fn is_exhausted(used: Set<u16>, start: u16, end: u16) -> bool {
    forall|p: u16| start <= p <= end ==> used.contains(p)
}

/// Allocates ports of the range `start..=end` to capsules.
#[derive(Debug)]
pub struct PortAllocator {
    start: u16,
    end: u16,
    used: BTreeSet<u16>,
    by_capsule: TextMap<u16>,
}

impl PortAllocator {
    /// The first port of the range.
    pub closed spec fn start(&self) -> u16 {
        self.start
    }

    /// The last port of the range.
    pub closed spec fn end(&self) -> u16 {
        self.end
    }

    /// The ports in use: allocated or reserved.
    pub closed spec fn used(&self) -> Set<u16> {
        self.used@
    }

    /// The port of each capsule that has one.
    pub closed spec fn assigned(&self) -> Map<Seq<char>, u16> {
        self.by_capsule@
    }

    /// The invariant: the range is not empty, every port in use lies in it,
    /// every assigned port is in use, and no port is assigned to two capsules.
    pub closed spec fn wf(&self) -> bool {
        &&& self.by_capsule.wf()
        &&& self.start <= self.end
        &&& forall|p: u16| #[trigger] self.used().contains(p) ==> self.start <= p <= self.end
        &&& forall|id: Seq<char>| #[trigger]
            self.assigned().contains_key(id) ==> self.used().contains(self.assigned()[id])
        &&& forall|a: Seq<char>, b: Seq<char>|
            self.assigned().contains_key(a) && self.assigned().contains_key(b) && a != b
                ==> #[trigger] self.assigned()[a] != #[trigger] self.assigned()[b]
    }

    /// An allocator over `start..=end` with no port in use.
    pub fn new(start: u16, end: u16) -> (allocator: Self)
        requires
            start <= end,
        ensures
            allocator.wf(),
            allocator.start() == start,
            allocator.end() == end,
            allocator.used() == Set::<u16>::empty(),
            allocator.assigned() == Map::<Seq<char>, u16>::empty(),
    {
        PortAllocator { start, end, used: BTreeSet::new(), by_capsule: TextMap::new() }
    }

    /// The port of a capsule: the one it already has, else the smallest free
    /// port of the range, which is then in use and assigned to it; `None`
    /// where the capsule has none and the range is exhausted.
    pub fn allocate(&mut self, capsule_id: &str) -> (port: Option<u16>)
        requires
            old(self).wf(),
        ensures
            final(self).wf(),
            final(self).start() == old(self).start(),
            final(self).end() == old(self).end(),
            old(self).assigned().contains_key(capsule_id@) ==> port == Some(
                old(self).assigned()[capsule_id@],
            ) && final(self).used() == old(self).used() && final(self).assigned() == old(self).assigned(),
            !old(self).assigned().contains_key(capsule_id@) ==> match port {
                Some(p) => is_first_free(old(self).used(), old(self).start(), old(self).end(), p)
                    && final(self).used() == old(self).used().insert(p) && final(self).assigned()
                    == old(self).assigned().insert(capsule_id@, p),
                None => is_exhausted(old(self).used(), old(self).start(), old(self).end())
                    && final(self).used() == old(self).used() && final(self).assigned() == old(self).assigned(),
            },
    {
        match self.by_capsule.get(capsule_id) {
            Some(existing) => {
                return Some(*existing);
            },
            None => {},
        }
        let mut candidate: u16 = self.start;
        loop
            invariant
                self.wf(),
                self.used() == old(self).used(),
                self.assigned() == old(self).assigned(),
                self.start == old(self).start,
                self.end == old(self).end,
                self.start <= candidate <= self.end,
                !self.assigned().contains_key(capsule_id@),
                forall|p: u16| self.start <= p < candidate ==> self.used().contains(p),
            decreases self.end - candidate,
        {
            if self.used.insert(candidate) {
                let _ = self.by_capsule.insert(String::from_str(capsule_id), candidate);
                return Some(candidate);
            }
            if candidate == self.end {
                return None;
            }
            candidate += 1;
        }
    }

    /// Marks a port of the range as in use.
    pub fn reserve(&mut self, port: u16)
        requires
            old(self).wf(),
            old(self).start() <= port <= old(self).end(),
        ensures
            final(self).wf(),
            final(self).start() == old(self).start(),
            final(self).end() == old(self).end(),
            final(self).used() == old(self).used().insert(port),
            final(self).assigned() == old(self).assigned(),
    {
        let _ = self.used.insert(port);
        assert(self.used() == old(self).used().insert(port));
        assert(self.by_capsule.wf());
        assert(self.assigned() == old(self).assigned());
        assert(forall|p: u16| #[trigger] self.used().contains(p) ==> self.start <= p <= self.end);
        assert(forall|id: Seq<char>| #[trigger]
            self.assigned().contains_key(id) ==> self.used().contains(self.assigned()[id]));
    }

    /// Takes the port of a capsule back: the capsule has none afterwards, and
    /// its port is free again.
    pub fn release(&mut self, capsule_id: &str)
        requires
            old(self).wf(),
        ensures
            final(self).wf(),
            final(self).start() == old(self).start(),
            final(self).end() == old(self).end(),
            final(self).assigned() == old(self).assigned().remove(capsule_id@),
            final(self).used() == if old(self).assigned().contains_key(capsule_id@) {
                old(self).used().remove(old(self).assigned()[capsule_id@])
            } else {
                old(self).used()
            },
    {
        match self.by_capsule.remove(capsule_id) {
            Some(port) => {
                let _ = self.used.remove(&port);
                assert(self.used() == old(self).used().remove(port));
            },
            None => {
                assert(self.assigned() =~= old(self).assigned());
            },
        }
        proof {
            assert forall|p: u16| #[trigger] self.used().contains(p) implies self.start <= p
                <= self.end by {
                assert(old(self).used().contains(p));
            }
            assert forall|id: Seq<char>| #[trigger]
                self.assigned().contains_key(id) implies self.used().contains(
                self.assigned()[id],
            ) by {
                assert(old(self).assigned().contains_key(id));
                assert(self.assigned()[id] == old(self).assigned()[id]);
                if old(self).assigned().contains_key(capsule_id@) {
                    assert(old(self).assigned()[id] != old(self).assigned()[capsule_id@]);
                }
            }
            assert forall|a: Seq<char>, b: Seq<char>|
                self.assigned().contains_key(a) && self.assigned().contains_key(b) && a
                    != b implies #[trigger] self.assigned()[a] != #[trigger] self.assigned()[b] by {
                assert(old(self).assigned()[a] != old(self).assigned()[b]);
            }
        }
    }

    /// The ports in use.
    pub fn used_ports(&self) -> (used: &BTreeSet<u16>)
        ensures
            used@ == self.used(),
    {
        &self.used
    }

    /// The range, as its first and last port.
    pub fn range(&self) -> (range: (u16, u16))
        ensures
            range == (self.start(), self.end()),
    {
        (self.start, self.end)
    }
}

/// Two different capsules never hold the same port.
pub proof fn lemma_ports_disjoint(allocator: &PortAllocator, a: Seq<char>, b: Seq<char>)
    requires
        allocator.wf(),
        a != b,
        allocator.assigned().contains_key(a),
        allocator.assigned().contains_key(b),
    ensures
        allocator.assigned()[a] != allocator.assigned()[b],
{
}

} // verus!
