//! The membership table: the groups an interface has joined, at most a fixed
//! number of them, each at most once, in the order in which they were joined.

use vstd::prelude::*;
use crate::address::GroupAddress;

verus! {

/// What a full table answers to a new group.
#[derive(Clone, Copy, Debug, PartialEq, Eq, Structural)]
pub struct CapacityExceeded;

/// A table of joined groups. Its view is the sequence of its groups in
/// joining order, which is also the order in which position counts.
pub struct GroupTable<A: GroupAddress> {
    entries: Vec<A>,
    capacity: usize,
}

/// What every table holds to: no more groups than its capacity, and none
/// twice.
pub open spec fn valid_groups<A>(groups: Seq<A>, capacity: nat) -> bool {
    groups.len() <= capacity && groups.no_duplicates()
}

/// The groups after `addr` has been asked to join: unchanged where it is a
/// member already or the table is full, else with `addr` as the last one.
pub open spec fn with_group<A>(groups: Seq<A>, capacity: nat, addr: A) -> Seq<A> {
    if groups.contains(addr) || groups.len() >= capacity {
        groups
    } else {
        groups.push(addr)
    }
}

/// The groups after `addr` has left: the others, in the order they had.
pub open spec fn without_group<A>(groups: Seq<A>, addr: A) -> Seq<A> {
    if groups.contains(addr) {
        groups.remove(groups.index_of(addr))
    } else {
        groups
    }
}

/// Joining keeps a table valid and makes the group a member unless the
/// table is full; every other group is a member after it exactly if it was
/// one before.
pub proof fn lemma_with_group<A>(groups: Seq<A>, capacity: nat, addr: A)
    requires
        valid_groups(groups, capacity),
    ensures
        valid_groups(with_group(groups, capacity, addr), capacity),
        with_group(groups, capacity, addr).contains(addr) <==> groups.contains(addr) || groups.len() < capacity,
        forall|other: A|
            other != addr ==> (with_group(groups, capacity, addr).contains(other) <==> groups.contains(other)),
{
    let joined = with_group(groups, capacity, addr);
    if !groups.contains(addr) && groups.len() < capacity {
        assert(joined[groups.len() as int] == addr);
        assert forall|other: A| other != addr implies (joined.contains(other) <==> groups.contains(other)) by {
            if groups.contains(other) {
                let i = groups.index_of(other);
                assert(joined[i] == other);
            }
        }
    }
}

/// Leaving keeps a table valid and makes the group no member; every other
/// group is a member after it exactly if it was one before.
pub proof fn lemma_without_group<A>(groups: Seq<A>, capacity: nat, addr: A)
    requires
        valid_groups(groups, capacity),
    ensures
        valid_groups(without_group(groups, addr), capacity),
        !without_group(groups, addr).contains(addr),
        forall|other: A| other != addr ==> (without_group(groups, addr).contains(other) <==> groups.contains(other)),
{
    let left = without_group(groups, addr);
    if groups.contains(addr) {
        let at = groups.index_of(addr);
        assert forall|i: int| 0 <= i < left.len() implies left[i] == groups[if i < at { i } else { i + 1 }] by {}
        assert forall|other: A| other != addr implies (left.contains(other) <==> groups.contains(other)) by {
            if groups.contains(other) {
                let i = groups.index_of(other);
                assert(left[if i < at { i } else { i - 1 }] == other);
            }
        }
    }
}

/// A group that joins a table with room for it and leaves again leaves the
/// table as it was before.
pub proof fn lemma_leave_undoes_join<A>(groups: Seq<A>, capacity: nat, addr: A)
    requires
        valid_groups(groups, capacity),
        !groups.contains(addr),
        groups.len() < capacity,
    ensures
        without_group(with_group(groups, capacity, addr), addr) == groups,
{
    let joined = groups.push(addr);
    assert(joined[groups.len() as int] == addr);
    lemma_with_group(groups, capacity, addr);
    assert(joined.index_of(addr) == groups.len());
    assert(joined.remove(groups.len() as int) =~= groups);
}

impl<A: GroupAddress> View for GroupTable<A> {
    type V = Seq<A>;

    closed spec fn view(&self) -> Seq<A> {
        self.entries@
    }
}

impl<A: GroupAddress> GroupTable<A> {
    #[verifier::type_invariant]
    spec fn inv(&self) -> bool {
        valid_groups(self.entries@, self.capacity as nat)
    }

    /// The largest number of groups the table takes.
    pub closed spec fn spec_capacity(&self) -> nat {
        self.capacity as nat
    }

    /// An empty table that takes up to `capacity` groups.
    pub fn new(capacity: usize) -> (table: Self)
        ensures
            table@ == Seq::<A>::empty(),
            table.spec_capacity() == capacity,
    {
        GroupTable { entries: Vec::new(), capacity }
    }

    /// The largest number of groups the table takes.
    pub fn capacity(&self) -> (capacity: usize)
        ensures
            capacity == self.spec_capacity(),
    {
        self.capacity
    }

    /// The number of groups in the table.
    pub fn len(&self) -> (len: usize)
        ensures
            len == self@.len(),
            valid_groups(self@, self.spec_capacity()),
    {
        proof {
            use_type_invariant(self);
        }
        self.entries.len()
    }

    /// The position of `addr` in joining order, if it is a member.
    pub fn position(&self, addr: &A) -> (position: Option<usize>)
        ensures
            match position {
                Some(i) => self@.contains(*addr) && i == self@.index_of(*addr),
                None => !self@.contains(*addr),
            },
    {
        proof {
            use_type_invariant(self);
        }
        let mut i: usize = 0;
        while i < self.entries.len()
            invariant
                i <= self.entries.len(),
                forall|j: int| 0 <= j < i ==> self.entries@[j] != *addr,
                self.entries@.no_duplicates(),
            decreases self.entries.len() - i,
        {
            if self.entries[i].same_as(addr) {
                proof {
                    let found = self.entries@.index_of(*addr);
                    assert(self.entries@[i as int] == *addr);
                    assert(self.entries@.contains(*addr));
                    assert(found == i);
                }
                return Some(i);
            }
            i += 1;
        }
        None
    }

    /// Whether `addr` is a member.
    pub fn contains(&self, addr: &A) -> (member: bool)
        ensures
            member == self@.contains(*addr),
    {
        self.position(addr).is_some()
    }

    /// The group at `index` in joining order, if there are that many.
    pub fn nth(&self, index: usize) -> (group: Option<A>)
        ensures
            group == (if index < self@.len() {
                Some(self@[index as int])
            } else {
                None
            }),
    {
        if index < self.entries.len() {
            Some(self.entries[index])
        } else {
            None
        }
    }

    /// The groups in joining order.
    pub fn addresses(&self) -> (groups: Vec<A>)
        ensures
            groups@ == self@,
    {
        let mut groups: Vec<A> = Vec::new();
        let mut i: usize = 0;
        while i < self.entries.len()
            invariant
                i <= self.entries.len(),
                groups@ == self.entries@.take(i as int),
            decreases self.entries.len() - i,
        {
            groups.push(self.entries[i]);
            i += 1;
        }
        groups
    }

    /// Makes `addr` a member and says whether it was one already. A new
    /// group goes behind the others. A full table refuses a new group and
    /// stays as it was.
    pub fn insert(&mut self, addr: A) -> (outcome: Result<bool, CapacityExceeded>)
        ensures
            final(self)@ == with_group(old(self)@, old(self).spec_capacity(), addr),
            final(self).spec_capacity() == old(self).spec_capacity(),
            outcome == (if old(self)@.contains(addr) {
                Ok::<bool, CapacityExceeded>(true)
            } else if old(self)@.len() < old(self).spec_capacity() {
                Ok(false)
            } else {
                Err(CapacityExceeded)
            }),
    {
        proof {
            use_type_invariant(&*self);
        }
        if self.contains(&addr) {
            Ok(true)
        } else if self.entries.len() < self.capacity {
            let mut entries: Vec<A> = Vec::new();
            core::mem::swap(&mut self.entries, &mut entries);
            entries.push(addr);
            self.entries = entries;
            Ok(false)
        } else {
            Err(CapacityExceeded)
        }
    }

    /// Takes `addr` out of the table and says whether it was a member. The
    /// other groups keep their order.
    pub fn remove(&mut self, addr: &A) -> (member: bool)
        ensures
            final(self)@ == without_group(old(self)@, *addr),
            final(self).spec_capacity() == old(self).spec_capacity(),
            member == old(self)@.contains(*addr),
    {
        proof {
            use_type_invariant(&*self);
        }
        match self.position(addr) {
            Some(i) => {
                let mut entries: Vec<A> = Vec::new();
                core::mem::swap(&mut self.entries, &mut entries);
                entries.remove(i);
                self.entries = entries;
                true
            },
            None => false,
        }
    }
}

} // verus!
