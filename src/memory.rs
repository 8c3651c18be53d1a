//! The guest's physical address space: the regions of memory given to it.
use vstd::prelude::*;
use crate::mmio::ranges_overlap;

verus! {

/// Access rights of the guest to a region.
#[derive(Clone, Copy, Debug, PartialEq, Eq, Structural)]
pub struct Perms {
    pub read: bool,
    pub write: bool,
    pub execute: bool,
}

/// A range of guest-physical addresses and the rights the guest has on it.
#[derive(Clone, Copy, Debug, PartialEq, Eq, Structural)]
pub struct Region {
    pub base: u64,
    pub length: u64,
    pub perms: Perms,
}

/// Why a region could not be set up.
#[derive(Clone, Copy, Debug, PartialEq, Eq, Structural)]
pub enum RegionError {
    /// The region has no byte.
    EmptyRegion,
    /// The region runs past the end of the address space.
    AddressOverflow,
    /// The region shares an address with one already mapped.
    Overlap,
    /// The image to load is larger than the region.
    ImageTooLarge,
    /// Fewer bytes of the image were written than it holds.
    TruncatedLoad,
}

/// The regions mapped into the guest.
pub struct AddressSpace {
    pub regions: Vec<Region>,
}

impl AddressSpace {
    /// Each region is non-empty, fits in the address space, and no two overlap.
    pub open spec fn wf(&self) -> bool {
        &&& forall|i: int|
            0 <= i < self.regions@.len() ==> #[trigger] self.regions@[i].length > 0
                && self.regions@[i].base + self.regions@[i].length <= u64::MAX
        &&& forall|i: int, j: int|
            0 <= i < self.regions@.len() && 0 <= j < self.regions@.len() && i != j
                ==> !ranges_overlap(
                #[trigger] self.regions@[i].base,
                self.regions@[i].length,
                #[trigger] self.regions@[j].base,
                self.regions@[j].length,
            )
    }

    /// Whether mapping `length` bytes from `base` fails, and how.
    pub open spec fn map_error(&self, base: u64, length: u64) -> Option<RegionError> {
        if length == 0 {
            Some(RegionError::EmptyRegion)
        } else if base + length > u64::MAX {
            Some(RegionError::AddressOverflow)
        } else if exists|i: int|
            0 <= i < self.regions@.len() && ranges_overlap(
                #[trigger] self.regions@[i].base,
                self.regions@[i].length,
                base,
                length,
            ) {
            Some(RegionError::Overlap)
        } else {
            None
        }
    }

    /// An address space with nothing mapped.
    pub fn new() -> (r: AddressSpace)
        ensures
            r.wf(),
            r.regions@.len() == 0,
    {
        AddressSpace { regions: Vec::new() }
    }

    /// Records the region of `length` bytes from `base`. Fails, leaving the
    /// address space as it was, where the region is empty, runs past the end of
    /// the address space, or overlaps a region already mapped.
    pub fn map(&mut self, base: u64, length: u64, perms: Perms) -> (r: Result<(), RegionError>)
        requires
            old(self).wf(),
        ensures
            final(self).wf(),
            match old(self).map_error(base, length) {
                Some(e) => r == Err::<(), RegionError>(e) && final(self).regions@
                    == old(self).regions@,
                None => r is Ok && final(self).regions@ == old(self).regions@.push(
                    Region { base, length, perms },
                ),
            },
    {
        if length == 0 {
            return Err(RegionError::EmptyRegion);
        }
        if base > u64::MAX - length {
            return Err(RegionError::AddressOverflow);
        }
        let n = self.regions.len();
        let mut i: usize = 0;
        while i < n
            invariant
                n == self.regions@.len(),
                i <= n,
                self.wf(),
                length > 0,
                base + length <= u64::MAX,
                forall|k: int|
                    0 <= k < i ==> !ranges_overlap(
                        #[trigger] self.regions@[k].base,
                        self.regions@[k].length,
                        base,
                        length,
                    ),
            decreases n - i,
        {
            let r = &self.regions[i];
            assert(r.base + r.length <= u64::MAX);
            if r.base < base + length && base < r.base + r.length {
                return Err(RegionError::Overlap);
            }
            i = i + 1;
        }
        self.regions.push(Region { base, length, perms });
        Ok(())
    }
}

/// No two mapped regions share an address, however the address space was
/// built up.
pub proof fn lemma_regions_disjoint(space: &AddressSpace, i: int, j: int, addr: u64)
    requires
        space.wf(),
        0 <= i < space.regions@.len(),
        0 <= j < space.regions@.len(),
        i != j,
        space.regions@[i].base <= addr < space.regions@[i].base + space.regions@[i].length,
    ensures
        !(space.regions@[j].base <= addr < space.regions@[j].base + space.regions@[j].length),
{
    assert(!ranges_overlap(
        space.regions@[i].base,
        space.regions@[i].length,
        space.regions@[j].base,
        space.regions@[j].length,
    ));
}

/// The size of the region an image is loaded into: the size asked for, or the
/// image's own length where none is. The image must fit, and the region must
/// not be empty.
pub open spec fn spec_region_size(requested: Option<u64>, image_len: u64) -> Result<u64, RegionError> {
    let size = match requested {
        Some(s) => s,
        None => image_len,
    };
    if size == 0 {
        Err(RegionError::EmptyRegion)
    } else if image_len > size {
        Err(RegionError::ImageTooLarge)
    } else {
        Ok(size)
    }
}

pub fn region_size(requested: Option<u64>, image_len: u64) -> (r: Result<u64, RegionError>)
    ensures
        r == spec_region_size(requested, image_len),
{
    let size = match requested {
        Some(s) => s,
        None => image_len,
    };
    if size == 0 {
        Err(RegionError::EmptyRegion)
    } else if image_len > size {
        Err(RegionError::ImageTooLarge)
    } else {
        Ok(size)
    }
}

/// Checks that loading an image wrote all of it.
pub fn check_load(written: u64, image_len: u64) -> (r: Result<(), RegionError>)
    ensures
        r is Ok <==> written == image_len,
        r is Err ==> r == Err::<(), RegionError>(RegionError::TruncatedLoad),
{
    if written == image_len {
        Ok(())
    } else {
        Err(RegionError::TruncatedLoad)
    }
}

} // verus!
