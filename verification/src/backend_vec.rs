//! The in-memory byte backend: a `Vec<u8>` sized at construction, and the
//! emulated flash device built on it.

use vstd::prelude::*;

use crate::model::{filled_range, splice_bytes};
use crate::synhronous::{BufferBackend, Error, NorMemory};

verus! {

/// A NOR flash device held entirely in memory.
pub type NorMemoryInram<const READ_SIZE: usize, const WRITE_SIZE: usize, const ERASE_SIZE: usize> =
    NorMemory<Vec<u8>, READ_SIZE, WRITE_SIZE, ERASE_SIZE>;

impl<
    const READ_SIZE: usize,
    const WRITE_SIZE: usize,
    const ERASE_SIZE: usize,
> NorMemoryInram<READ_SIZE, WRITE_SIZE, ERASE_SIZE> {
    /// Builds an in-memory device of `size` bytes, every byte zero.
    pub fn new(size: usize) -> (r: Self)
        ensures
            r.bytes().len() == size,
            forall|i: int| 0 <= i < size ==> r.bytes()[i] == 0u8,
    {
        let mut buffer: Vec<u8> = Vec::new();
        while buffer.len() < size
            invariant
                buffer@.len() <= size,
                forall|i: int| 0 <= i < buffer@.len() ==> buffer@[i] == 0u8,
            decreases size - buffer@.len(),
        {
            buffer.push(0u8);
        }
        NorMemory { buffer }
    }
}

impl BufferBackend for Vec<u8> {
    open spec fn bytes(&self) -> Seq<u8> {
        self@
    }

    fn size(&self) -> (r: usize) {
        self.len()
    }

    fn read_range(&self, from: usize, to: usize) -> (r: Result<Vec<u8>, Error>) {
        if to > self.len() {
            return Err(Error::OutOfBounds);
        }
        if from > to {
            return Err(Error::OutOfBounds);
        }
        let mut out: Vec<u8> = Vec::new();
        let mut i: usize = from;
        while i < to
            invariant
                from <= i <= to <= self@.len(),
                out@ == self@.subrange(from as int, i as int),
            decreases to - i,
        {
            out.push(self[i]);
            proof {
                assert(out@ =~= self@.subrange(from as int, i + 1));
            }
            i += 1;
        }
        Ok(out)
    }

    fn write_range(&mut self, from: usize, to: usize, data: &Vec<u8>) -> (r: Result<(), Error>) {
        if to > self.len() {
            return Err(Error::OutOfBounds);
        }
        if from > to {
            return Err(Error::OutOfBounds);
        }
        if data.len() != to - from {
            return Err(Error::OutOfBounds);
        }
        let mut i: usize = from;
        while i < to
            invariant
                from <= i <= to <= self@.len(),
                self@.len() == old(self)@.len(),
                data@.len() == to - from,
                forall|j: int| from <= j < i ==> self@[j] == data@[j - from],
                forall|j: int| 0 <= j < self@.len() && !(from <= j < i) ==> self@[j] == old(
                    self,
                )@[j],
            decreases to - i,
        {
            let b = data[i - from];
            self[i] = b;
            i += 1;
        }
        proof {
            assert(self@ =~= splice_bytes(old(self)@, from as int, data@));
        }
        Ok(())
    }

    fn fill_range(&mut self, from: usize, to: usize, value: u8) -> (r: Result<(), Error>) {
        if to > self.len() {
            return Err(Error::OutOfBounds);
        }
        if from > to {
            return Err(Error::OutOfBounds);
        }
        let mut i: usize = from;
        while i < to
            invariant
                from <= i <= to <= self@.len(),
                self@.len() == old(self)@.len(),
                forall|j: int| from <= j < i ==> self@[j] == value,
                forall|j: int| 0 <= j < self@.len() && !(from <= j < i) ==> self@[j] == old(
                    self,
                )@[j],
            decreases to - i,
        {
            self[i] = value;
            i += 1;
        }
        proof {
            assert(self@ =~= filled_range(old(self)@, from as int, to as int, value));
        }
        Ok(())
    }
}

} // verus!
