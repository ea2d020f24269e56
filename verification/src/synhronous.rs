//! The synchronous NOR flash device: a byte backend abstraction, the flash
//! emulator over it, and the read-modify-write storage layer on top.

use vstd::prelude::*;

use crate::model::{
    ERASED_BYTE,
    erase_aligned,
    erase_in_bounds,
    filled_range,
    rmw_write_bytes,
    rmw_write_prefix,
    splice_bytes,
};

verus! {

/// Error kinds of the flash operations.
#[derive(Clone, Copy, Debug, PartialEq, Eq, Structural)]
pub enum Error {
    /// An address, length or range reaches past the device, or a range runs
    /// backwards.
    OutOfBounds,
    /// An erase bound is not a multiple of the erase-unit size.
    NotAligned,
}

/// A contiguous byte region of fixed size with bounds-checked range access:
/// the medium an emulated flash device is built on.
pub trait BufferBackend: Sized {
    /// The bytes the backend holds.
    spec fn bytes(&self) -> Seq<u8>;

    /// The size of the backend in bytes.
    fn size(&self) -> (r: usize)
        ensures
            r == self.bytes().len(),
    ;

    /// Returns a copy of the bytes of `[from, to)`, or an out-of-bounds
    /// error when the range runs backwards or past the end.
    fn read_range(&self, from: usize, to: usize) -> (r: Result<Vec<u8>, Error>)
        ensures
            (r is Ok) <==> (from <= to && to <= self.bytes().len()),
            r matches Ok(v) ==> v@ == self.bytes().subrange(from as int, to as int),
            r is Err ==> r == Err::<Vec<u8>, Error>(Error::OutOfBounds),
    ;

    /// Overwrites `[from, to)` with `data`, or returns an out-of-bounds
    /// error — and changes nothing — when the range is malformed, runs past
    /// the end, or does not match the length of `data`.
    fn write_range(&mut self, from: usize, to: usize, data: &Vec<u8>) -> (r: Result<(), Error>)
        ensures
            (r is Ok) <==> (from <= to && to <= old(self).bytes().len() && data@.len() == to - from),
            r is Ok ==> final(self).bytes() == splice_bytes(old(self).bytes(), from as int, data@),
            r is Err ==> final(self).bytes() == old(self).bytes() && r == Err::<(), Error>(
                Error::OutOfBounds,
            ),
    ;

    /// Sets every byte of `[from, to)` to `value`, or returns an
    /// out-of-bounds error — and changes nothing — when the range is
    /// malformed or runs past the end.
    fn fill_range(&mut self, from: usize, to: usize, value: u8) -> (r: Result<(), Error>)
        ensures
            (r is Ok) <==> (from <= to && to <= old(self).bytes().len()),
            r is Ok ==> final(self).bytes() == filled_range(
                old(self).bytes(),
                from as int,
                to as int,
                value,
            ),
            r is Err ==> final(self).bytes() == old(self).bytes() && r == Err::<(), Error>(
                Error::OutOfBounds,
            ),
    ;
}

/// A NOR flash memory emulated over a byte backend, with fixed read, write
/// and erase granularities.
pub struct NorMemory<
    B: BufferBackend,
    const READ_SIZE: usize,
    const WRITE_SIZE: usize,
    const ERASE_SIZE: usize,
> {
    /// The byte backend the device owns.
    pub buffer: B,
}

impl<
    B: BufferBackend,
    const READ_SIZE: usize,
    const WRITE_SIZE: usize,
    const ERASE_SIZE: usize,
> NorMemory<B, READ_SIZE, WRITE_SIZE, ERASE_SIZE> {
    /// The bytes the device holds, address `i` at index `i`.
    pub open spec fn bytes(&self) -> Seq<u8> {
        self.buffer.bytes()
    }

    /// Returns the capacity of the device in bytes.
    pub fn capacity(&self) -> (r: usize)
        ensures
            r == self.bytes().len(),
    {
        self.buffer.size()
    }

    /// Copies the bytes at `[address, address + buf.len())` into `buf`.
    ///
    /// Fails with an out-of-bounds error — leaving `buf` and the device
    /// unchanged — exactly when the range reaches past the capacity. No
    /// alignment constraint is imposed on reads.
    pub fn read(&mut self, address: u32, buf: &mut Vec<u8>) -> (r: Result<(), Error>)
        ensures
            final(self).bytes() == old(self).bytes(),
            final(buf)@.len() == old(buf)@.len(),
            (r is Ok) <==> address + old(buf)@.len() <= old(self).bytes().len(),
            r is Ok ==> final(buf)@ == old(self).bytes().subrange(
                address as int,
                address + old(buf)@.len(),
            ),
            r is Err ==> r == Err::<(), Error>(Error::OutOfBounds) && final(buf)@ == old(buf)@,
    {
        let cap = self.buffer.size();
        let len = buf.len();
        if len > cap || address as usize > cap - len {
            return Err(Error::OutOfBounds);
        }
        let start = address as usize;
        match self.buffer.read_range(start, start + len) {
            Ok(v) => {
                *buf = v;
                Ok(())
            },
            Err(e) => {
                proof {
                    assert(false);
                }
                Err(e)
            },
        }
    }

    /// Overwrites the bytes at `[offset, offset + data.len())` with `data`
    /// verbatim.
    ///
    /// Fails with an out-of-bounds error — changing nothing — exactly when
    /// the range reaches past the capacity. No check is made that the
    /// destination was erased first: arbitrary overwrites are allowed.
    pub fn write(&mut self, offset: u32, data: &Vec<u8>) -> (r: Result<(), Error>)
        ensures
            (r is Ok) <==> offset + data@.len() <= old(self).bytes().len(),
            r is Ok ==> final(self).bytes() == splice_bytes(
                old(self).bytes(),
                offset as int,
                data@,
            ),
            r is Err ==> r == Err::<(), Error>(Error::OutOfBounds) && final(self).bytes() == old(
                self,
            ).bytes(),
    {
        let cap = self.buffer.size();
        let len = data.len();
        if len > cap || offset as usize > cap - len {
            return Err(Error::OutOfBounds);
        }
        let start = offset as usize;
        match self.buffer.write_range(start, start + len, data) {
            Ok(()) => Ok(()),
            Err(e) => {
                proof {
                    assert(false);
                }
                Err(e)
            },
        }
    }

    /// Converts the device into a read-modify-write storage, allocating the
    /// erase-unit-sized scratch buffer once, for the storage's lifetime.
    pub fn storage(self) -> (r: NorStorage<B, READ_SIZE, WRITE_SIZE, ERASE_SIZE>)
        ensures
            r.wf(),
            r.flash() == self,
    {
        let mut merge_buffer: Vec<u8> = Vec::new();
        while merge_buffer.len() < ERASE_SIZE
            invariant
                merge_buffer@.len() <= ERASE_SIZE,
            decreases ERASE_SIZE - merge_buffer@.len(),
        {
            merge_buffer.push(0u8);
        }
        NorStorage { wrapper: self, merge_buffer }
    }

    /// Sets every byte of `[from, to)` to the erased pattern.
    ///
    /// Fails with a misalignment error when either bound is not a multiple
    /// of the erase-unit size, and otherwise with an out-of-bounds error
    /// when the range runs backwards or past the capacity; a failed erase
    /// changes nothing. An empty aligned range succeeds as a no-op.
    pub fn erase(&mut self, from: u32, to: u32) -> (r: Result<(), Error>)
        requires
            ERASE_SIZE >= 1,
        ensures
            (r is Ok) <==> (erase_aligned(ERASE_SIZE as int, from as int, to as int)
                && erase_in_bounds(old(self).bytes().len() as int, from as int, to as int)),
            r is Ok ==> final(self).bytes() == filled_range(
                old(self).bytes(),
                from as int,
                to as int,
                ERASED_BYTE,
            ),
            r is Err ==> final(self).bytes() == old(self).bytes(),
            (r == Err::<(), Error>(Error::NotAligned)) <==> !erase_aligned(
                ERASE_SIZE as int,
                from as int,
                to as int,
            ),
            (r == Err::<(), Error>(Error::OutOfBounds)) <==> (erase_aligned(
                ERASE_SIZE as int,
                from as int,
                to as int,
            ) && !erase_in_bounds(old(self).bytes().len() as int, from as int, to as int)),
    {
        if from as usize % ERASE_SIZE != 0 {
            return Err(Error::NotAligned);
        }
        if to as usize % ERASE_SIZE != 0 {
            return Err(Error::NotAligned);
        }
        if to < from {
            return Err(Error::OutOfBounds);
        }
        let cap = self.buffer.size();
        if to as usize > cap {
            return Err(Error::OutOfBounds);
        }
        if from == to {
            proof {
                assert(old(self).bytes() =~= filled_range(
                    old(self).bytes(),
                    from as int,
                    to as int,
                    ERASED_BYTE,
                ));
            }
            return Ok(());
        }
        match self.buffer.fill_range(from as usize, to as usize, ERASED_BYTE) {
            Ok(()) => Ok(()),
            Err(e) => {
                proof {
                    assert(false);
                }
                Err(e)
            },
        }
    }
}

/// The read-modify-write storage: a flash emulator plus one erase-unit-sized
/// scratch buffer, reused across calls, through which reads and writes of
/// any offset and length are served.
pub struct NorStorage<
    B: BufferBackend,
    const READ_SIZE: usize,
    const WRITE_SIZE: usize,
    const ERASE_SIZE: usize,
> {
    wrapper: NorMemory<B, READ_SIZE, WRITE_SIZE, ERASE_SIZE>,
    merge_buffer: Vec<u8>,
}

impl<
    B: BufferBackend,
    const READ_SIZE: usize,
    const WRITE_SIZE: usize,
    const ERASE_SIZE: usize,
> NorStorage<B, READ_SIZE, WRITE_SIZE, ERASE_SIZE> {
    /// The flash emulator the storage wraps.
    pub closed spec fn flash(&self) -> NorMemory<B, READ_SIZE, WRITE_SIZE, ERASE_SIZE> {
        self.wrapper
    }

    /// The bytes the storage holds: those of the wrapped emulator.
    pub open spec fn bytes(&self) -> Seq<u8> {
        self.flash().bytes()
    }

    /// The storage's invariant: the scratch buffer spans one erase unit.
    pub closed spec fn wf(&self) -> bool {
        self.merge_buffer@.len() == ERASE_SIZE
    }

    /// Converts the storage back into the flash emulator, a pure move that
    /// discards the scratch buffer.
    pub fn nor_flash(self) -> (r: NorMemory<B, READ_SIZE, WRITE_SIZE, ERASE_SIZE>)
        ensures
            r == self.flash(),
    {
        self.wrapper
    }

    /// Returns the capacity of the storage in bytes.
    pub fn capacity(&self) -> (r: usize)
        ensures
            r == self.bytes().len(),
    {
        self.wrapper.capacity()
    }

    /// Copies the bytes at `[address, address + buf.len())` into `buf`:
    /// reads need no special treatment, so this is the emulator's read.
    ///
    /// Fails with an out-of-bounds error — leaving `buf` and the storage
    /// unchanged — exactly when the range reaches past the capacity.
    pub fn read(&mut self, address: u32, buf: &mut Vec<u8>) -> (r: Result<(), Error>)
        ensures
            final(self).wf() == old(self).wf(),
            final(self).bytes() == old(self).bytes(),
            final(buf)@.len() == old(buf)@.len(),
            (r is Ok) <==> address + old(buf)@.len() <= old(self).bytes().len(),
            r is Ok ==> final(buf)@ == old(self).bytes().subrange(
                address as int,
                address + old(buf)@.len(),
            ),
            r is Err ==> r == Err::<(), Error>(Error::OutOfBounds) && final(buf)@ == old(buf)@,
    {
        self.wrapper.read(address, buf)
    }

    /// Writes `data` at `address`, neither of which needs to respect any
    /// block size: every erase unit the request touches is read into the
    /// scratch buffer, erased, merged with the new bytes and written back.
    ///
    /// Only whole erase units are rewritten: any part of the request beyond
    /// the last whole erase unit of the device is left out, as
    /// [`rmw_write_bytes`] states, and the call still succeeds. When the
    /// capacity is a multiple of the erase-unit size, an in-bounds request
    /// is therefore written verbatim.
    pub fn write(&mut self, address: u32, data: &Vec<u8>) -> (r: Result<(), Error>)
        requires
            old(self).wf(),
            ERASE_SIZE >= 1,
            old(self).bytes().len() <= u32::MAX,
            address + data@.len() <= u32::MAX,
        ensures
            r is Ok,
            final(self).wf(),
            final(self).bytes() == rmw_write_bytes(
                old(self).bytes(),
                address as int,
                data@,
                ERASE_SIZE as int,
            ),
    {
        let ghost mem0 = old(self).bytes();
        let cap = self.wrapper.capacity();
        let num_pages = cap / ERASE_SIZE;
        let off = address as usize;
        let len = data.len();
        let mut i: usize = 0;
        proof {
            assert(self.wrapper.bytes() =~= rmw_write_prefix(
                mem0,
                off as int,
                data@,
                ERASE_SIZE as int,
                0,
            ));
        }
        while i < num_pages
            invariant
                ERASE_SIZE >= 1,
                i <= num_pages,
                num_pages == cap as int / ERASE_SIZE as int,
                cap == mem0.len(),
                cap <= u32::MAX,
                off == address as int,
                len == data@.len(),
                off + len <= u32::MAX,
                self.merge_buffer@.len() == ERASE_SIZE,
                self.wrapper.bytes().len() == cap,
                self.wrapper.bytes() == rmw_write_prefix(
                    mem0,
                    off as int,
                    data@,
                    ERASE_SIZE as int,
                    i as int,
                ),
            decreases num_pages - i,
        {
            proof {
                assert(i * ERASE_SIZE + ERASE_SIZE <= cap) by (nonlinear_arith)
                    requires
                        i < cap as int / ERASE_SIZE as int,
                        ERASE_SIZE >= 1,
                        cap >= 0,
                ;
            }
            let ps = i * ERASE_SIZE;
            let pe = ps + ERASE_SIZE;
            if off < pe && len > 0 && ps < off + len {
                let rr = self.wrapper.read(ps as u32, &mut self.merge_buffer);
                match rr {
                    Ok(()) => {},
                    Err(_) => {
                        proof {
                            assert(false);
                        }
                        return Err(Error::OutOfBounds);
                    },
                }
                let ghost b1 = self.wrapper.bytes();
                let ghost page0 = self.merge_buffer@;
                proof {
                    assert((i * ERASE_SIZE) % (ERASE_SIZE as int) == 0 && (i * ERASE_SIZE
                        + ERASE_SIZE) % (ERASE_SIZE as int) == 0) by (nonlinear_arith)
                        requires
                            ERASE_SIZE >= 1,
                    ;
                }
                let er = self.wrapper.erase(ps as u32, pe as u32);
                match er {
                    Ok(()) => {},
                    Err(_) => {
                        proof {
                            assert(false);
                        }
                        return Err(Error::OutOfBounds);
                    },
                }
                let ghost b2 = self.wrapper.bytes();
                let ghost wrapper_snapshot = self.wrapper;
                let s = if off > ps {
                    off
                } else {
                    ps
                };
                let e = if off + len < pe {
                    off + len
                } else {
                    pe
                };
                let mut k = s;
                while k < e
                    invariant
                        ps <= s <= k <= e <= pe,
                        pe == ps + ERASE_SIZE,
                        off <= s,
                        e <= off + len,
                        len == data@.len(),
                        page0.len() == ERASE_SIZE,
                        self.wrapper == wrapper_snapshot,
                        self.merge_buffer@.len() == ERASE_SIZE,
                        forall|j: int|
                            0 <= j < ERASE_SIZE ==> self.merge_buffer@[j] == (if s <= ps + j < k {
                                data@[ps + j - off]
                            } else {
                                page0[j]
                            }),
                    decreases e - k,
                {
                    let idx = k - ps;
                    let b = data[k - off];
                    self.merge_buffer[idx] = b;
                    k += 1;
                }
                let wr = self.wrapper.write(ps as u32, &self.merge_buffer);
                match wr {
                    Ok(()) => {},
                    Err(_) => {
                        proof {
                            assert(false);
                        }
                        return Err(Error::OutOfBounds);
                    },
                }
                proof {
                    let b3 = self.wrapper.bytes();
                    let target = rmw_write_prefix(
                        mem0,
                        off as int,
                        data@,
                        ERASE_SIZE as int,
                        i as int + 1,
                    );
                    assert((i as int + 1) * (ERASE_SIZE as int) == i * ERASE_SIZE + ERASE_SIZE)
                        by (nonlinear_arith);
                    assert forall|idx: int| 0 <= idx < mem0.len() implies b3[idx] == target[idx] by {
                        if ps <= idx < pe {
                            let j = idx - ps;
                            assert(b3[idx] == self.merge_buffer@[j]);
                            assert(page0[j] == b1[idx]);
                            if !(s <= idx < e) {
                                assert(!(off <= idx < off + len));
                                assert(b1[idx] == mem0[idx]);
                            }
                        } else {
                            assert(b3[idx] == b2[idx]);
                            assert(b2[idx] == b1[idx]);
                        }
                    };
                    assert(b3 =~= target);
                }
            } else {
                proof {
                    assert((i as int + 1) * (ERASE_SIZE as int) == i * ERASE_SIZE + ERASE_SIZE)
                        by (nonlinear_arith);
                    assert(self.wrapper.bytes() =~= rmw_write_prefix(
                        mem0,
                        off as int,
                        data@,
                        ERASE_SIZE as int,
                        i as int + 1,
                    ));
                }
            }
            i += 1;
        }
        proof {
            assert(rmw_write_prefix(
                mem0,
                off as int,
                data@,
                ERASE_SIZE as int,
                num_pages as int,
            ) =~= rmw_write_bytes(mem0, off as int, data@, ERASE_SIZE as int));
        }
        Ok(())
    }
}

} // verus!
