//! The mathematical model of the device: a memory is a sequence of bytes, and
//! each operation is described by a pure function on such sequences.

use vstd::prelude::*;

verus! {

/// The value every byte of an erased NOR flash range holds.
pub const ERASED_BYTE: u8 = 0xFF;

/// The bytes after overwriting `[off, off + data.len())` with `data`,
/// verbatim; every byte outside that range is unchanged.
pub open spec fn splice_bytes(mem: Seq<u8>, off: int, data: Seq<u8>) -> Seq<u8> {
    Seq::new(mem.len(), |i: int| if off <= i < off + data.len() { data[i - off] } else { mem[i] })
}

/// The bytes after setting every byte of `[from, to)` to `value`; every byte
/// outside that range is unchanged.
pub open spec fn filled_range(mem: Seq<u8>, from: int, to: int, value: u8) -> Seq<u8> {
    Seq::new(mem.len(), |i: int| if from <= i < to { value } else { mem[i] })
}

/// Whether both bounds of an erase request are multiples of the erase-unit
/// size.
pub open spec fn erase_aligned(erase_size: int, from: int, to: int) -> bool {
    from % erase_size == 0 && to % erase_size == 0
}

/// Whether an erase request names a well-formed range inside a memory of
/// `mem_len` bytes.
pub open spec fn erase_in_bounds(mem_len: int, from: int, to: int) -> bool {
    from <= to && to <= mem_len
}

/// The bytes after a read-modify-write storage write of `data` at `off`.
///
/// The storage rewrites whole erase units: every byte of the request that
/// falls inside a whole erase unit of the device takes its new value, and
/// every other byte — including any part of the request beyond the last
/// whole erase unit — is unchanged. When the capacity is a multiple of the
/// erase-unit size and the request lies inside it, this is exactly
/// [`splice_bytes`].
pub open spec fn rmw_write_bytes(mem: Seq<u8>, off: int, data: Seq<u8>, erase_size: int) -> Seq<u8> {
    Seq::new(
        mem.len(),
        |i: int| if off <= i < off + data.len() && i < (mem.len() as int / erase_size) * erase_size {
            data[i - off]
        } else {
            mem[i]
        },
    )
}

/// The bytes after a read-modify-write storage write has worked through the
/// first `pages` erase units of the device: bytes of the request inside
/// those units already hold their new value, the rest still holds the old
/// one. With `pages == mem.len() / erase_size` this is [`rmw_write_bytes`].
pub open spec fn rmw_write_prefix(
    mem: Seq<u8>,
    off: int,
    data: Seq<u8>,
    erase_size: int,
    pages: int,
) -> Seq<u8> {
    Seq::new(
        mem.len(),
        |i: int| if off <= i < off + data.len() && i < pages * erase_size {
            data[i - off]
        } else {
            mem[i]
        },
    )
}

/// Law (round-trip): reading back a just-written range through the
/// read-modify-write storage returns exactly the written bytes, for every
/// request that lies within the device's whole erase units — in particular
/// for every in-bounds request on a device whose capacity is a multiple of
/// the erase-unit size.
pub proof fn lemma_storage_round_trip(mem: Seq<u8>, off: int, data: Seq<u8>, erase_size: int)
    requires
        erase_size >= 1,
        0 <= off,
        off + data.len() <= (mem.len() as int / erase_size) * erase_size,
    ensures
        rmw_write_bytes(mem, off, data, erase_size).subrange(off, off + data.len()) == data,
{
    assert((mem.len() as int / erase_size) * erase_size <= mem.len()) by (nonlinear_arith)
        requires
            erase_size >= 1,
            mem.len() >= 0,
    ;
    assert(rmw_write_bytes(mem, off, data, erase_size).subrange(off, off + data.len()) =~= data);
}

/// Law: on a device whose capacity is a multiple of the erase-unit size,
/// an in-bounds storage write lands verbatim — it equals the plain
/// replacement of the addressed range, with every other byte unchanged.
pub proof fn lemma_rmw_write_verbatim(mem: Seq<u8>, off: int, data: Seq<u8>, erase_size: int)
    requires
        erase_size >= 1,
        0 <= off,
        off + data.len() <= mem.len(),
        mem.len() as int % erase_size == 0,
    ensures
        rmw_write_bytes(mem, off, data, erase_size) == splice_bytes(mem, off, data),
{
    assert((mem.len() as int / erase_size) * erase_size == mem.len()) by (nonlinear_arith)
        requires
            erase_size >= 1,
            mem.len() >= 0,
            mem.len() as int % erase_size == 0,
    ;
    assert(rmw_write_bytes(mem, off, data, erase_size) =~= splice_bytes(mem, off, data));
}

/// Law (erase effect): after an erase of `[from, to)`, every byte inside
/// the range holds the erased pattern and every byte outside it is
/// unchanged.
pub proof fn lemma_erase_effect(mem: Seq<u8>, from: int, to: int)
    ensures
        filled_range(mem, from, to, ERASED_BYTE).len() == mem.len(),
        forall|i: int|
            0 <= i < mem.len() && from <= i < to ==> filled_range(mem, from, to, ERASED_BYTE)[i]
                == ERASED_BYTE,
        forall|i: int|
            0 <= i < mem.len() && !(from <= i < to) ==> filled_range(mem, from, to, ERASED_BYTE)[i]
                == mem[i],
{
}

/// Law (fresh state): a device whose bytes all hold the erased pattern
/// reads back the erased pattern at every address of every in-bounds
/// range.
pub proof fn lemma_fresh_reads_erased(mem: Seq<u8>, from: int, to: int)
    requires
        0 <= from <= to <= mem.len(),
        forall|i: int| 0 <= i < mem.len() ==> mem[i] == ERASED_BYTE,
    ensures
        forall|i: int| 0 <= i < to - from ==> mem.subrange(from, to)[i] == ERASED_BYTE,
{
}

} // verus!
