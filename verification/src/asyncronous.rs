//! The synchronous-to-asynchronous adapter: re-exposes a synchronous NOR
//! flash device under a suspension-capable calling shape. Every operation
//! runs at once on the calling thread and completes before control returns;
//! the adapter holds no further state and changes no behaviour, as its
//! contracts — clause for clause those of the wrapped device — state.

use vstd::prelude::*;

use crate::model::{ERASED_BYTE, erase_aligned, erase_in_bounds, filled_range, splice_bytes};
use crate::synhronous::{BufferBackend, Error, NorMemory};

verus! {

/// An asynchronous facade over a synchronous NOR flash device.
pub struct NorMemoryAsync<NMS> {
    nor_memory_sync: NMS,
}

impl<NMS> NorMemoryAsync<NMS> {
    /// The wrapped synchronous device.
    pub closed spec fn sync_device(&self) -> NMS {
        self.nor_memory_sync
    }

    /// Given a synchronous NOR flash device, returns the asynchronous
    /// facade over it, a pure move.
    pub fn new(nor_memory_sync: NMS) -> (r: Self)
        ensures
            r.sync_device() == nor_memory_sync,
    {
        NorMemoryAsync { nor_memory_sync }
    }

    /// Returns the synchronous NOR flash device back, a pure move.
    pub fn get_sync(self) -> (r: NMS)
        ensures
            r == self.sync_device(),
    {
        self.nor_memory_sync
    }
}

impl<
    B: BufferBackend,
    const READ_SIZE: usize,
    const WRITE_SIZE: usize,
    const ERASE_SIZE: usize,
> NorMemoryAsync<NorMemory<B, READ_SIZE, WRITE_SIZE, ERASE_SIZE>> {
    /// The bytes the wrapped device holds.
    pub open spec fn bytes(&self) -> Seq<u8> {
        self.sync_device().bytes()
    }

    /// Returns the capacity of the wrapped device in bytes.
    pub fn capacity(&self) -> (r: usize)
        ensures
            r == self.bytes().len(),
    {
        self.nor_memory_sync.capacity()
    }

    /// The wrapped device's read, performed at once.
    pub fn read(&mut self, address: u32, buf: &mut Vec<u8>) -> (r: Result<(), Error>)
        ensures
            final(self).bytes() == old(self).bytes(),
            final(buf)@.len() == old(buf)@.len(),
            (r is Ok) <==> address + old(buf)@.len() <= old(self).bytes().len(),
            r is Ok ==> final(buf)@ == old(self).bytes().subrange(
                address as int,
                address + old(buf)@.len(),
            ),
            r is Err ==> r == Err::<(), Error>(Error::OutOfBounds) && final(buf)@ == old(buf)@,
    {
        self.nor_memory_sync.read(address, buf)
    }

    /// The wrapped device's write, performed at once.
    pub fn write(&mut self, offset: u32, data: &Vec<u8>) -> (r: Result<(), Error>)
        ensures
            (r is Ok) <==> offset + data@.len() <= old(self).bytes().len(),
            r is Ok ==> final(self).bytes() == splice_bytes(
                old(self).bytes(),
                offset as int,
                data@,
            ),
            r is Err ==> r == Err::<(), Error>(Error::OutOfBounds) && final(self).bytes() == old(
                self,
            ).bytes(),
    {
        self.nor_memory_sync.write(offset, data)
    }

    /// The wrapped device's erase, performed at once.
    pub fn erase(&mut self, from: u32, to: u32) -> (r: Result<(), Error>)
        requires
            ERASE_SIZE >= 1,
        ensures
            (r is Ok) <==> (erase_aligned(ERASE_SIZE as int, from as int, to as int)
                && erase_in_bounds(old(self).bytes().len() as int, from as int, to as int)),
            r is Ok ==> final(self).bytes() == filled_range(
                old(self).bytes(),
                from as int,
                to as int,
                ERASED_BYTE,
            ),
            r is Err ==> final(self).bytes() == old(self).bytes(),
            (r == Err::<(), Error>(Error::NotAligned)) <==> !erase_aligned(
                ERASE_SIZE as int,
                from as int,
                to as int,
            ),
            (r == Err::<(), Error>(Error::OutOfBounds)) <==> (erase_aligned(
                ERASE_SIZE as int,
                from as int,
                to as int,
            ) && !erase_in_bounds(old(self).bytes().len() as int, from as int, to as int)),
    {
        self.nor_memory_sync.erase(from, to)
    }
}

/// Law (adapter equivalence): the facade changes no behaviour. Its read,
/// write and erase carry, clause for clause, the contracts of the wrapped
/// device's read, write and erase — stated over the same model functions —
/// so from equal device states any sequence of calls through the facade is
/// answered with the same results and leaves the same bytes as the same
/// calls made on the device directly. This lemma fixes the shared ground:
/// a facade over a device holds exactly the device's bytes.
pub proof fn lemma_adapter_equivalence<
    B: BufferBackend,
    const READ_SIZE: usize,
    const WRITE_SIZE: usize,
    const ERASE_SIZE: usize,
>(
    facade: NorMemoryAsync<NorMemory<B, READ_SIZE, WRITE_SIZE, ERASE_SIZE>>,
    device: NorMemory<B, READ_SIZE, WRITE_SIZE, ERASE_SIZE>,
)
    requires
        facade.sync_device() == device,
    ensures
        facade.bytes() == device.bytes(),
{
}

} // verus!
