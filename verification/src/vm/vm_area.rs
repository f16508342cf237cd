//! A memory area: an address range with its access permissions.
use vstd::prelude::*;
use super::vm_perms::VMPerms;
use super::vm_range::{VMRange, is_difference};

verus! {

/// An address range and the permissions that hold on it.
#[derive(Clone, Copy, Debug, PartialEq, Eq, Structural)]
pub struct VMArea {
    range: VMRange,
    perms: VMPerms,
}

impl VMArea {
    pub closed spec fn range(&self) -> VMRange {
        self.range
    }

    pub closed spec fn spec_perms(&self) -> VMPerms {
        self.perms
    }

    /// The area `range` with permissions `perms`.
    pub fn new(range: VMRange, perms: VMPerms) -> (r: VMArea)
        ensures
            r.range() == range,
            r.perms() == perms,
    {
        VMArea { range, perms }
    }

    /// The permissions of the area.
    #[verifier::when_used_as_spec(spec_perms)]
    pub fn perms(&self) -> (r: VMPerms)
        ensures
            r == self.perms(),
    {
        self.perms
    }

    /// Replaces the permissions of the area; its range stays.
    pub fn set_perms(&mut self, new_perms: VMPerms)
        ensures
            final(self).perms() == new_perms,
            final(self).range() == old(self).range(),
    {
        self.perms = new_perms;
    }

    /// The parts of this area that lie outside `other`, each with the
    /// permissions of this area, in ascending order of address.
    pub fn subtract(&self, other: &VMRange) -> (r: Vec<VMArea>)
        ensures
            r.len() <= 2,
            is_difference(r@.map_values(|a: VMArea| a.range()), self.range(), *other),
            forall|i: int| 0 <= i < r.len() ==> (#[trigger] r@[i]).perms() == self.perms(),
    {
        let ranges = self.range.subtract(other);
        let mut areas: Vec<VMArea> = Vec::new();
        let mut i: usize = 0;
        while i < ranges.len()
            invariant
                i <= ranges.len(),
                areas.len() == i,
                forall|j: int| 0 <= j < i ==> (#[trigger] areas@[j]).range == ranges@[j],
                forall|j: int| 0 <= j < i ==> (#[trigger] areas@[j]).perms == self.perms,
            decreases ranges.len() - i,
        {
            areas.push(VMArea::new(ranges[i], self.perms));
            i = i + 1;
        }
        assert(areas@.map_values(|a: VMArea| a.range()) =~= ranges@);
        areas
    }
}

impl AsRef<VMRange> for VMArea {
    /// The range of the area.
    fn as_ref(&self) -> (r: &VMRange)
        ensures
            *r == self.range(),
    {
        &self.range
    }
}

impl AsMut<VMRange> for VMArea {
    /// The range of the area, to change in place; the permissions stay.
    fn as_mut(&mut self) -> (r: &mut VMRange)
        ensures
            *r == old(self).range(),
            final(self).range() == *final(r),
            final(self).perms() == old(self).perms(),
    {
        &mut self.range
    }
}

impl Default for VMArea {
    /// The empty range at address zero, with all permissions.
    fn default() -> (r: VMArea)
        ensures
            r.range().start() == 0,
            r.range().end() == 0,
            r.perms()@ == crate::vm::vm_perms::ALL_BITS,
    {
        VMArea { range: VMRange::default(), perms: VMPerms::default() }
    }
}

} // verus!
