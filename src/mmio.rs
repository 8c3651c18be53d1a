//! The registry of memory-mapped devices and the interface they implement.
use vstd::prelude::*;

verus! {

/// Something a device hands to the monitor's output stream.
#[derive(Clone, Copy, Debug, PartialEq, Eq, Structural)]
pub enum Emitted {
    /// A character written by the guest.
    Char(char),
    /// A written value that is no character, reported as a diagnostic.
    NonChar(u64),
}

/// A device controller behind a range of guest-physical addresses. Addresses
/// handed to it are offsets from the start of its range.
pub trait MmioController {
    /// The value a read at `addr` returns, or `None` where the device does not
    /// handle the read.
    spec fn read_spec(&self, addr: u64) -> Option<u64>;

    /// The acknowledgement of a write of `value` at `addr`, or `None` where the
    /// device does not handle the write.
    spec fn write_ack(&self, addr: u64, value: u64) -> Option<u64>;

    /// What a write of `value` at `addr` hands to the output stream.
    spec fn write_output(&self, addr: u64, value: u64) -> Seq<Emitted>;

    fn read(&self, addr: u64) -> (r: Option<u64>)
        ensures
            r == self.read_spec(addr),
    ;

    fn write(&mut self, addr: u64, value: u64, out: &mut Vec<Emitted>) -> (r: Option<u64>)
        ensures
            r == old(self).write_ack(addr, value),
            final(out)@ == old(out)@ + old(self).write_output(addr, value),
    ;
}

/// Whether `addr` lies in the range of `size` bytes from `base`.
pub open spec fn range_contains(base: u64, size: u64, addr: u64) -> bool {
    base <= addr && addr < base + size
}

/// Whether two address ranges share an address.
pub open spec fn ranges_overlap(b1: u64, s1: u64, b2: u64, s2: u64) -> bool {
    b1 < b2 + s2 && b2 < b1 + s1
}

/// One registered device: its address range and its controller.
pub struct MmioPeriphery<C> {
    pub base: u64,
    pub size: u64,
    pub controller: C,
}

/// Why a device could not be registered.
#[derive(Clone, Copy, Debug, PartialEq, Eq, Structural)]
pub enum MmioError {
    /// The range has no address.
    EmptyRange,
    /// The range runs past the end of the address space.
    AddressOverflow,
    /// The range shares an address with a device already registered.
    Overlap,
}

/// The devices of the guest, each owning a range of guest-physical addresses.
/// Devices of several kinds share one registry through a controller type that
/// forwards to each of them.
pub struct Mmio<C> {
    pub periphery: Vec<MmioPeriphery<C>>,
}

impl<C: MmioController> Mmio<C> {
    /// Each range is non-empty, fits in the address space, and no two overlap.
    pub open spec fn wf(&self) -> bool {
        &&& forall|i: int|
            0 <= i < self.periphery@.len() ==> #[trigger] self.periphery@[i].size > 0
                && self.periphery@[i].base + self.periphery@[i].size <= u64::MAX
        &&& forall|i: int, j: int|
            0 <= i < self.periphery@.len() && 0 <= j < self.periphery@.len() && i != j
                ==> !ranges_overlap(
                #[trigger] self.periphery@[i].base,
                self.periphery@[i].size,
                #[trigger] self.periphery@[j].base,
                self.periphery@[j].size,
            )
    }

    /// Whether registering the range of `size` bytes from `base` fails, and how.
    pub open spec fn register_error(&self, base: u64, size: u64) -> Option<MmioError> {
        if size == 0 {
            Some(MmioError::EmptyRange)
        } else if base + size > u64::MAX {
            Some(MmioError::AddressOverflow)
        } else if exists|i: int|
            0 <= i < self.periphery@.len() && ranges_overlap(
                #[trigger] self.periphery@[i].base,
                self.periphery@[i].size,
                base,
                size,
            ) {
            Some(MmioError::Overlap)
        } else {
            None
        }
    }

    /// The index of the device whose range holds `addr`, if any.
    pub open spec fn spec_owner(&self, addr: u64) -> Option<int> {
        if exists|i: int|
            0 <= i < self.periphery@.len() && range_contains(
                #[trigger] self.periphery@[i].base,
                self.periphery@[i].size,
                addr,
            ) {
            Some(
                choose|i: int|
                    0 <= i < self.periphery@.len() && range_contains(
                        #[trigger] self.periphery@[i].base,
                        self.periphery@[i].size,
                        addr,
                    ),
            )
        } else {
            None
        }
    }

    /// A registry with no device.
    pub fn new() -> (r: Mmio<C>)
        ensures
            r.wf(),
            r.periphery@.len() == 0,
    {
        Mmio { periphery: Vec::new() }
    }

    /// Reserves the range of `size` bytes from `base` for `controller`. Fails,
    /// leaving the registry as it was, where the range is empty, runs past the
    /// end of the address space, or overlaps a device already registered.
    pub fn register(&mut self, base: u64, size: u64, controller: C) -> (r:
        Result<(), MmioError>)
        requires
            old(self).wf(),
        ensures
            final(self).wf(),
            match old(self).register_error(base, size) {
                Some(e) => r == Err::<(), MmioError>(e) && final(self).periphery@
                    == old(self).periphery@,
                None => {
                    &&& r is Ok
                    &&& final(self).periphery@.len() == old(self).periphery@.len() + 1
                    &&& final(self).periphery@.drop_last() == old(self).periphery@
                    &&& final(self).periphery@.last().base == base
                    &&& final(self).periphery@.last().size == size
                    &&& final(self).periphery@.last().controller == controller
                },
            },
    {
        if size == 0 {
            return Err(MmioError::EmptyRange);
        }
        if base > u64::MAX - size {
            return Err(MmioError::AddressOverflow);
        }
        let n = self.periphery.len();
        let mut i: usize = 0;
        while i < n
            invariant
                n == self.periphery@.len(),
                i <= n,
                self.wf(),
                size > 0,
                base + size <= u64::MAX,
                forall|k: int|
                    0 <= k < i ==> !ranges_overlap(
                        #[trigger] self.periphery@[k].base,
                        self.periphery@[k].size,
                        base,
                        size,
                    ),
            decreases n - i,
        {
            let p = &self.periphery[i];
            assert(p.base + p.size <= u64::MAX);
            if p.base < base + size && base < p.base + p.size {
                return Err(MmioError::Overlap);
            }
            i = i + 1;
        }
        let ghost before = self.periphery@;
        self.periphery.push(MmioPeriphery { base, size, controller });
        assert(self.periphery@.drop_last() =~= before);
        assert(self.periphery@[n as int].base == base);
        Ok(())
    }

    /// The index of the device whose range holds `addr`, if any. Ranges do not
    /// overlap, so at most one device holds it; the width of the access is not
    /// taken into account.
    pub fn find_controller(&self, addr: u64) -> (r: Option<usize>)
        requires
            self.wf(),
        ensures
            match r {
                Some(i) => self.spec_owner(addr) == Some(i as int),
                None => self.spec_owner(addr) is None,
            },
            match r {
                Some(i) => i < self.periphery@.len() && range_contains(
                    self.periphery@[i as int].base,
                    self.periphery@[i as int].size,
                    addr,
                ),
                None => forall|i: int|
                    0 <= i < self.periphery@.len() ==> !range_contains(
                        #[trigger] self.periphery@[i].base,
                        self.periphery@[i].size,
                        addr,
                    ),
            },
    {
        let n = self.periphery.len();
        let mut i: usize = 0;
        while i < n
            invariant
                n == self.periphery@.len(),
                i <= n,
                self.wf(),
                forall|k: int|
                    0 <= k < i ==> !range_contains(
                        #[trigger] self.periphery@[k].base,
                        self.periphery@[k].size,
                        addr,
                    ),
            decreases n - i,
        {
            let p = &self.periphery[i];
            assert(p.base + p.size <= u64::MAX);
            if addr >= p.base && addr < p.base + p.size {
                proof {
                    let j = choose|j: int|
                        0 <= j < self.periphery@.len() && range_contains(
                            #[trigger] self.periphery@[j].base,
                            self.periphery@[j].size,
                            addr,
                        );
                    lemma_owner_unique(self, addr, i as int, j);
                }
                return Some(i);
            }
            i = i + 1;
        }
        None
    }
}

/// At most one registered device holds a given address.
pub proof fn lemma_owner_unique<C: MmioController>(mmio: &Mmio<C>, addr: u64, i: int, j: int)
    requires
        mmio.wf(),
        0 <= i < mmio.periphery@.len(),
        0 <= j < mmio.periphery@.len(),
        range_contains(mmio.periphery@[i].base, mmio.periphery@[i].size, addr),
        range_contains(mmio.periphery@[j].base, mmio.periphery@[j].size, addr),
    ensures
        i == j,
{
    if i != j {
        assert(!ranges_overlap(
            mmio.periphery@[i].base,
            mmio.periphery@[i].size,
            mmio.periphery@[j].base,
            mmio.periphery@[j].size,
        ));
    }
}

} // verus!
