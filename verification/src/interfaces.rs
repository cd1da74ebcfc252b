//! The interface through which the execution engine reaches memory.

use vstd::prelude::*;
use crate::memory::{MemoryChuckSize, read_spec, write_spec};

verus! {

/// A flat, byte-addressable, little-endian memory over the 32-bit address
/// space. Alignment is not the memory's concern: every address at which the
/// whole access fits is served.
pub trait MemoryInterface {
    /// The byte held at each address of the 32-bit address space.
    spec fn contents(&self) -> Map<int, u8>;

    /// Reads `size` bytes at `addr` in little-endian order, zero-extended.
    /// Fails exactly when the access would run past the address space.
    fn read_mem(&self, addr: u32, size: MemoryChuckSize) -> (value: Option<u32>)
        ensures
            value == read_spec(self.contents(), addr, size),
    ;

    /// Writes the low `size` bytes of `value` at `addr` in little-endian
    /// order. Fails, leaving the memory as it was, exactly when the access
    /// would run past the address space.
    fn write_word(&mut self, addr: u32, size: MemoryChuckSize, value: u32) -> (done: Option<()>)
        ensures
            done.is_some() == size.fits_at(addr),
            final(self).contents() == (if size.fits_at(addr) {
                write_spec(old(self).contents(), addr, size, value)
            } else {
                old(self).contents()
            }),
    ;
}

} // verus!
