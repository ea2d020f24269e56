//! The memory-mapped-file byte backend and the flash device persisted in a
//! file through it. Opening, sizing and mapping the file are left to the
//! caller; this module works on the finished mapping.

use vstd::prelude::*;

use crate::model::{filled_range, splice_bytes};
use crate::synhronous::{BufferBackend, Error, NorMemory};

verus! {

/// Declares memmap2's mutable file mapping to the verifier; values of it
/// are carried opaquely and reached only through the trusted accessors
/// below.
#[verifier::external_type_specification]
#[verifier::external_body]
pub struct ExMmapMut(memmap2::MmapMut);

/// The bytes a mutable file mapping holds, address `i` at index `i`.
pub uninterp spec fn mmap_bytes(m: memmap2::MmapMut) -> Seq<u8>;

/// Relies on memmap2::MmapMut's slice view: `len` is the number of bytes
/// of the mapped region.
#[verifier::external_body]
fn mmap_len(m: &memmap2::MmapMut) -> (r: usize)
    ensures
        r == mmap_bytes(*m).len(),
{
    m.len()
}

/// Relies on memmap2::MmapMut's `Deref` to `[u8]`: indexing reads byte `i`
/// of the mapped region and changes nothing.
#[verifier::external_body]
fn mmap_byte(m: &memmap2::MmapMut, i: usize) -> (r: u8)
    requires
        i < mmap_bytes(*m).len(),
    ensures
        r == mmap_bytes(*m)[i as int],
{
    m[i]
}

/// Relies on memmap2::MmapMut's `DerefMut` to `[u8]`: indexed assignment
/// overwrites byte `i` of the mapped region and no other byte.
#[verifier::external_body]
fn mmap_set_byte(m: &mut memmap2::MmapMut, i: usize, value: u8)
    requires
        i < mmap_bytes(*old(m)).len(),
    ensures
        mmap_bytes(*final(m)) == mmap_bytes(*old(m)).update(i as int, value),
{
    m[i] = value;
}

/// A byte backend over a mutable memory mapping of a file: mutations reach
/// the file through the mapping, with no explicit flush. The mapping stays
/// valid on its own; the file handle it was made from need not be kept.
pub struct MmapFile {
    /// The mutable mapping of the file.
    pub mmap: memmap2::MmapMut,
}

impl BufferBackend for MmapFile {
    open spec fn bytes(&self) -> Seq<u8> {
        mmap_bytes(self.mmap)
    }

    fn size(&self) -> (r: usize) {
        mmap_len(&self.mmap)
    }

    fn read_range(&self, from: usize, to: usize) -> (r: Result<Vec<u8>, Error>) {
        let n = mmap_len(&self.mmap);
        if to > n {
            return Err(Error::OutOfBounds);
        }
        if from > to {
            return Err(Error::OutOfBounds);
        }
        let mut out: Vec<u8> = Vec::new();
        let mut i: usize = from;
        while i < to
            invariant
                from <= i <= to <= mmap_bytes(self.mmap).len(),
                out@ == mmap_bytes(self.mmap).subrange(from as int, i as int),
            decreases to - i,
        {
            out.push(mmap_byte(&self.mmap, i));
            proof {
                assert(out@ =~= mmap_bytes(self.mmap).subrange(from as int, i + 1));
            }
            i += 1;
        }
        Ok(out)
    }

    fn write_range(&mut self, from: usize, to: usize, data: &Vec<u8>) -> (r: Result<(), Error>) {
        let n = mmap_len(&self.mmap);
        if to > n {
            return Err(Error::OutOfBounds);
        }
        if from > to {
            return Err(Error::OutOfBounds);
        }
        if data.len() != to - from {
            return Err(Error::OutOfBounds);
        }
        let mut i: usize = from;
        while i < to
            invariant
                from <= i <= to <= mmap_bytes(self.mmap).len(),
                mmap_bytes(self.mmap).len() == mmap_bytes(old(self).mmap).len(),
                data@.len() == to - from,
                forall|j: int| from <= j < i ==> mmap_bytes(self.mmap)[j] == data@[j - from],
                forall|j: int|
                    0 <= j < mmap_bytes(self.mmap).len() && !(from <= j < i) ==> mmap_bytes(
                        self.mmap,
                    )[j] == mmap_bytes(old(self).mmap)[j],
            decreases to - i,
        {
            let b = data[i - from];
            mmap_set_byte(&mut self.mmap, i, b);
            i += 1;
        }
        proof {
            assert(mmap_bytes(self.mmap) =~= splice_bytes(
                mmap_bytes(old(self).mmap),
                from as int,
                data@,
            ));
        }
        Ok(())
    }

    fn fill_range(&mut self, from: usize, to: usize, value: u8) -> (r: Result<(), Error>) {
        let n = mmap_len(&self.mmap);
        if to > n {
            return Err(Error::OutOfBounds);
        }
        if from > to {
            return Err(Error::OutOfBounds);
        }
        let mut i: usize = from;
        while i < to
            invariant
                from <= i <= to <= mmap_bytes(self.mmap).len(),
                mmap_bytes(self.mmap).len() == mmap_bytes(old(self).mmap).len(),
                forall|j: int| from <= j < i ==> mmap_bytes(self.mmap)[j] == value,
                forall|j: int|
                    0 <= j < mmap_bytes(self.mmap).len() && !(from <= j < i) ==> mmap_bytes(
                        self.mmap,
                    )[j] == mmap_bytes(old(self).mmap)[j],
            decreases to - i,
        {
            mmap_set_byte(&mut self.mmap, i, value);
            i += 1;
        }
        proof {
            assert(mmap_bytes(self.mmap) =~= filled_range(
                mmap_bytes(old(self).mmap),
                from as int,
                to as int,
                value,
            ));
        }
        Ok(())
    }
}

/// A NOR flash device persisted in a memory-mapped file.
pub type NorMemoryInFile<const READ_SIZE: usize, const WRITE_SIZE: usize, const ERASE_SIZE: usize>
    = NorMemory<MmapFile, READ_SIZE, WRITE_SIZE, ERASE_SIZE>;

impl<
    const READ_SIZE: usize,
    const WRITE_SIZE: usize,
    const ERASE_SIZE: usize,
> NorMemoryInFile<READ_SIZE, WRITE_SIZE, ERASE_SIZE> {
    /// Builds the device over an already-mapped file, a pure move: the
    /// mapping's bytes become the device's bytes unchanged, so a device
    /// reopened over a previously written file starts from that content.
    pub fn new_from_mmap(mmap: MmapFile) -> (r: Self)
        ensures
            r.bytes() == mmap.bytes(),
    {
        NorMemory { buffer: mmap }
    }
}

} // verus!
