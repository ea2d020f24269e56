//! Emulation of a block-oriented NOR flash memory device over a
//! byte-addressable backend (an in-memory buffer or a memory-mapped file),
//! together with a read-modify-write storage layer that accepts reads and
//! writes of any offset and length, and a facade that re-exposes the
//! synchronous device under an asynchronous calling shape.

pub mod model;
pub mod synhronous;
pub mod backend_vec;
pub mod backend_mmap;
pub mod asyncronous;

pub use model::{ERASED_BYTE, splice_bytes, filled_range, rmw_write_bytes, erase_aligned, erase_in_bounds};
pub use synhronous::{Error, BufferBackend, NorMemory, NorStorage};
pub use backend_vec::NorMemoryInram;
pub use backend_mmap::{MmapFile, NorMemoryInFile, mmap_bytes};
pub use asyncronous::NorMemoryAsync;
