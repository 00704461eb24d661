//! The capability-gated grant registry.
//!
//! A grant is a per-process memory region reserved for one driver's private
//! state. The kernel-side [`GrantRegistry`] maps a driver's registration
//! number to its region. Creating an entry requires presenting a
//! [`CapabilityToken`](crate::capability::CapabilityToken), so a driver can
//! never grant itself a region; the check happens once, at creation, and the
//! returned [`GrantHandle`] is used thereafter without the token.
//!
//! Policy for a duplicate registration: a second `create_grant` for a driver
//! number that already has an entry fails deterministically with
//! [`ErrorCode::Already`] and leaves the registry unchanged; it never
//! returns a different handle for the same number. Entries are never
//! deleted.

use vstd::prelude::*;

verus! {

use crate::ErrorCode;
use crate::capability::CapabilityToken;

/// A driver's ticket to its reserved per-process region: the registration
/// number it was created for and the slot of the region reserved for it.
#[derive(Clone, Copy, Debug, PartialEq, Eq, Structural)]
pub struct GrantHandle {
    driver_num: usize,
    region: usize,
}

impl GrantHandle {
    /// The driver registration number this grant belongs to.
    pub closed spec fn spec_driver_num(&self) -> usize {
        self.driver_num
    }

    /// The reserved region's slot in the registry.
    pub closed spec fn spec_region(&self) -> usize {
        self.region
    }

    /// The driver registration number this grant belongs to.
    pub fn driver_num(&self) -> (num: usize)
        ensures
            num == self.spec_driver_num(),
    {
        self.driver_num
    }

    /// The reserved region's slot in the registry.
    pub fn region(&self) -> (region: usize)
        ensures
            region == self.spec_region(),
    {
        self.region
    }
}

/// Kernel-side table of reserved per-process regions, keyed by driver
/// registration number. A driver number maps to at most one entry.
pub struct GrantRegistry {
    entries: Vec<GrantHandle>,
}

impl GrantRegistry {
    /// The registry's entries, in creation order. Entry `i` reserves
    /// region slot `i`.
    pub closed spec fn entries(&self) -> Seq<GrantHandle> {
        self.entries@
    }

    /// Whether some entry already reserves a region for `driver_num`.
    pub open spec fn contains_driver(&self, driver_num: usize) -> bool {
        exists|i: int|
            0 <= i < self.entries().len()
                && (#[trigger] self.entries()[i]).spec_driver_num() == driver_num
    }

    /// Every entry reserves the region slot it sits in, and no driver number
    /// appears twice.
    pub open spec fn wf(&self) -> bool {
        &&& forall|i: int|
            0 <= i < self.entries().len() ==> (#[trigger] self.entries()[i]).spec_region() == i
        &&& forall|i: int, j: int|
            0 <= i < j < self.entries().len()
                ==> self.entries()[i].spec_driver_num() != self.entries()[j].spec_driver_num()
    }

    /// An empty registry.
    pub fn new() -> (registry: GrantRegistry)
        ensures
            registry.wf(),
            registry.entries().len() == 0,
    {
        GrantRegistry { entries: Vec::new() }
    }

    /// Reserves a per-process region for `driver_num`. Requires a capability
    /// token: only trusted assembly code can reach this. Fails with
    /// [`ErrorCode::Already`], leaving the registry unchanged, when the
    /// number already has an entry.
    pub fn create_grant(
        &mut self,
        driver_num: usize,
        _capability: &CapabilityToken,
    ) -> (result: Result<GrantHandle, ErrorCode>)
        requires
            old(self).wf(),
        ensures
            final(self).wf(),
            result is Ok <==> !old(self).contains_driver(driver_num),
            old(self).contains_driver(driver_num) ==> *final(self) == *old(self)
                && result == Result::<GrantHandle, ErrorCode>::Err(ErrorCode::Already),
            !old(self).contains_driver(driver_num) ==> (result matches Ok(handle)
                && handle.spec_driver_num() == driver_num
                && handle.spec_region() == old(self).entries().len()
                && final(self).entries() == old(self).entries().push(handle)),
    {
        let mut i: usize = 0;
        while i < self.entries.len()
            invariant
                *self == *old(self),
                self.wf(),
                i <= self.entries.len(),
                forall|j: int|
                    0 <= j < i ==> (#[trigger] self.entries()[j]).spec_driver_num() != driver_num,
            decreases self.entries.len() - i,
        {
            if self.entries[i].driver_num() == driver_num {
                proof {
                    assert(self.entries()[i as int].spec_driver_num() == driver_num);
                }
                return Err(ErrorCode::Already);
            }
            i += 1;
        }
        proof {
            assert(!self.contains_driver(driver_num));
        }
        let handle = GrantHandle { driver_num, region: self.entries.len() };
        self.entries.push(handle);
        Ok(handle)
    }

    /// Looks an existing grant up by driver number. Deterministic: for a
    /// present number it returns the unique entry created for it, and never
    /// a different handle.
    pub fn lookup(&self, driver_num: usize) -> (result: Option<GrantHandle>)
        requires
            self.wf(),
        ensures
            result is Some <==> self.contains_driver(driver_num),
            result matches Some(handle) ==> handle.spec_driver_num() == driver_num
                && 0 <= handle.spec_region() < self.entries().len()
                && self.entries()[handle.spec_region() as int] == handle,
    {
        let mut i: usize = 0;
        while i < self.entries.len()
            invariant
                self.wf(),
                i <= self.entries.len(),
                forall|j: int|
                    0 <= j < i ==> (#[trigger] self.entries()[j]).spec_driver_num() != driver_num,
            decreases self.entries.len() - i,
        {
            if self.entries[i].driver_num() == driver_num {
                proof {
                    assert(self.entries()[i as int].spec_driver_num() == driver_num);
                }
                return Some(self.entries[i]);
            }
            i += 1;
        }
        None
    }

    /// The number of entries created so far.
    pub fn len(&self) -> (len: usize)
        ensures
            len == self.entries().len(),
    {
        self.entries.len()
    }
}

/// Grant exclusivity: in a well-formed registry two entries for the same
/// driver number are the same entry, so a driver number is never served by
/// two different handles.
pub proof fn lemma_grant_handle_unique(registry: &GrantRegistry, i: int, j: int)
    requires
        registry.wf(),
        0 <= i < registry.entries().len(),
        0 <= j < registry.entries().len(),
        registry.entries()[i].spec_driver_num() == registry.entries()[j].spec_driver_num(),
    ensures
        i == j,
        registry.entries()[i] == registry.entries()[j],
{
}

} // verus!
