//! The memory subsystem: a sparse byte store over the whole 32-bit address
//! space, read and written in little-endian order.

use std::collections::HashMap;
use vstd::prelude::*;
use crate::interfaces::MemoryInterface;

verus! {

broadcast use vstd::std_specs::hash::group_hash_axioms;

/// The size of a word in bytes.
pub const WORD_SIZE: usize = 4;

/// The highest address of the memory.
pub const MAXIMUM_MEMORY_SIZE: u32 = u32::MAX;

/// The number of addresses: one past the highest address.
pub open spec fn address_space() -> int {
    0x1_0000_0000
}

/// The width of a memory access.
#[allow(non_camel_case_types)]
#[derive(Debug, Clone, Copy, PartialEq, Eq, Structural)]
pub enum MemoryChuckSize {
    BYTE,
    HALF_WORD,
    WORD_SIZE,
}

impl MemoryChuckSize {
    /// The number of bytes that an access of this width covers.
    pub open spec fn width(self) -> int {
        match self {
            MemoryChuckSize::BYTE => 1,
            MemoryChuckSize::HALF_WORD => 2,
            MemoryChuckSize::WORD_SIZE => 4,
        }
    }

    /// Whether an access of this width at `addr` stays inside the address
    /// space.
    pub open spec fn fits_at(self, addr: u32) -> bool {
        addr + self.width() <= address_space()
    }

    /// Whether `addr` is a multiple of this width.
    pub open spec fn aligned(self, addr: u32) -> bool {
        addr as int % self.width() == 0
    }
}

/// Byte `i` (0 is the least significant) of `value`.
pub open spec fn value_byte(value: u32, i: int) -> u8 {
    if i == 0 {
        (value as int % 256) as u8
    } else if i == 1 {
        (value as int / 0x100 % 256) as u8
    } else if i == 2 {
        (value as int / 0x1_0000 % 256) as u8
    } else {
        (value as int / 0x100_0000 % 256) as u8
    }
}

/// The little-endian value of the `size` bytes of `mem` that start at `addr`.
pub open spec fn read_value(mem: Map<int, u8>, addr: int, size: MemoryChuckSize) -> int {
    match size {
        MemoryChuckSize::BYTE => mem[addr] as int,
        MemoryChuckSize::HALF_WORD => mem[addr] + 0x100 * mem[addr + 1],
        MemoryChuckSize::WORD_SIZE => mem[addr] + 0x100 * mem[addr + 1] + 0x1_0000 * mem[addr + 2]
            + 0x100_0000 * mem[addr + 3],
    }
}

/// What a read of `size` bytes at `addr` returns: the little-endian value
/// where the access fits, nothing where it does not.
pub open spec fn read_spec(mem: Map<int, u8>, addr: u32, size: MemoryChuckSize) -> Option<u32> {
    if size.fits_at(addr) {
        Some(read_value(mem, addr as int, size) as u32)
    } else {
        None
    }
}

/// The memory after the low `size` bytes of `value` have been stored at
/// `addr` in little-endian order.
pub open spec fn write_spec(mem: Map<int, u8>, addr: u32, size: MemoryChuckSize, value: u32) -> Map<
    int,
    u8,
> {
    Map::new(
        |a: int| 0 <= a < address_space(),
        |a: int|
            if addr <= a < addr + size.width() {
                value_byte(value, a - addr)
            } else {
                mem[a]
            },
    )
}

/// The memory after the words of `program` have been stored from `base` on,
/// each in little-endian order.
pub open spec fn load_program_spec(mem: Map<int, u8>, program: Seq<u32>, base: u32) -> Map<int, u8> {
    Map::new(
        |a: int| 0 <= a < address_space(),
        |a: int|
            if base <= a < base + 4 * program.len() {
                value_byte(program[(a - base) / 4], (a - base) % 4)
            } else {
                mem[a]
            },
    )
}

/// A memory in which every byte is zero.
pub open spec fn zeroed() -> Map<int, u8> {
    Map::new(|a: int| 0 <= a < address_space(), |a: int| 0u8)
}

/// The memory of the machine. Only bytes that were written are stored; every
/// other byte reads as zero.
#[derive(Debug, Clone)]
pub struct Memory {
    pub memory: HashMap<u32, u8>,
}

impl View for Memory {
    type V = Map<int, u8>;

    /// The byte at every address, zero where nothing was stored.
    open spec fn view(&self) -> Map<int, u8> {
        Map::new(
            |a: int| 0 <= a < address_space(),
            |a: int|
                if self.memory@.contains_key(a as u32) {
                    self.memory@[a as u32]
                } else {
                    0u8
                },
        )
    }
}

/// The four bytes of a word, put together again, give the word.
pub proof fn lemma_bytes_of_word(value: u32)
    ensures
        value_byte(value, 0) + 0x100 * value_byte(value, 1) + 0x1_0000 * value_byte(value, 2)
            + 0x100_0000 * value_byte(value, 3) == value,
        value_byte(value, 0) + 0x100 * value_byte(value, 1) == value as int % 0x1_0000,
{
}

impl Memory {
    /// A memory in which every byte is zero.
    pub fn new() -> (mem: Self)
        ensures
            mem@ == zeroed(),
    {
        let mem = Memory { memory: HashMap::new() };
        assert(mem@ =~= zeroed());
        mem
    }

    /// The byte at `addr`.
    pub fn read_byte(&self, addr: u32) -> (byte: u8)
        ensures
            byte == self@[addr as int],
    {
        match self.memory.get(&addr) {
            Some(b) => *b,
            None => 0,
        }
    }

    /// Stores `byte` at `addr`.
    pub fn write_byte(&mut self, addr: u32, byte: u8)
        ensures
            final(self)@ == old(self)@.insert(addr as int, byte),
    {
        self.memory.insert(addr, byte);
        assert(self@ =~= old(self)@.insert(addr as int, byte));
    }

    /// Stores the words of `program` from byte address `base_addr` on, each
    /// in little-endian order. The program must end inside the address
    /// space.
    pub fn load_program(&mut self, program: &Vec<u32>, base_addr: u32)
        requires
            base_addr + 4 * program.len() <= address_space(),
        ensures
            final(self)@ == load_program_spec(old(self)@, program@, base_addr),
    {
        let mut i: usize = 0;
        assert(self@ =~= load_program_spec(old(self)@, program@.take(0), base_addr));
        while i < program.len()
            invariant
                i <= program.len(),
                base_addr + 4 * program.len() <= address_space(),
                self@ == load_program_spec(old(self)@, program@.take(i as int), base_addr),
            decreases program.len() - i,
        {
            let ghost before = self@;
            let word: u32 = program[i];
            let addr: u32 = (base_addr as u64 + 4 * (i as u64)) as u32;
            let done = self.write_word(addr, MemoryChuckSize::WORD_SIZE, word);
            proof {
                let next = program@.take(i + 1);
                assert(next[i as int] == word);
                assert forall|a: int| 0 <= a < address_space() implies #[trigger] self@[a]
                    == load_program_spec(old(self)@, next, base_addr)[a] by {
                    if base_addr <= a < base_addr + 4 * i {
                        assert(next[(a - base_addr) / 4] == program@.take(i as int)[(a - base_addr)
                            / 4]);
                    } else if addr <= a < addr + 4 {
                        assert((a - base_addr) / 4 == i);
                        assert((a - base_addr) % 4 == a - addr);
                    }
                }
                assert(self@ =~= load_program_spec(old(self)@, next, base_addr));
            }
            i = i + 1;
        }
        assert(program@.take(i as int) =~= program@);
    }

    /// A memory that is zero but for the words of `program`, stored from
    /// byte address `base_addr` on. The program must end inside the address
    /// space.
    pub fn new_with_load_program(program: &Vec<u32>, base_addr: u32) -> (mem: Self)
        requires
            base_addr + 4 * program.len() <= address_space(),
        ensures
            mem@ == load_program_spec(zeroed(), program@, base_addr),
    {
        let mut memory = Memory::new();
        memory.load_program(program, base_addr);
        memory
    }
}

impl MemoryInterface for Memory {
    open spec fn contents(&self) -> Map<int, u8> {
        self@
    }

    fn read_mem(&self, addr: u32, size: MemoryChuckSize) -> (value: Option<u32>) {
        match size {
            MemoryChuckSize::BYTE => Some(self.read_byte(addr) as u32),
            MemoryChuckSize::HALF_WORD => {
                if addr > MAXIMUM_MEMORY_SIZE - 1 {
                    return None;
                }
                let b0 = self.read_byte(addr);
                let b1 = self.read_byte(addr + 1);
                assert((b0 as u32) | ((b1 as u32) << 8) == b0 + 0x100 * b1) by (bit_vector);
                Some((b0 as u32) | ((b1 as u32) << 8))
            },
            MemoryChuckSize::WORD_SIZE => {
                if addr > MAXIMUM_MEMORY_SIZE - 3 {
                    return None;
                }
                let b0 = self.read_byte(addr);
                let b1 = self.read_byte(addr + 1);
                let b2 = self.read_byte(addr + 2);
                let b3 = self.read_byte(addr + 3);
                assert((b0 as u32) | ((b1 as u32) << 8) | ((b2 as u32) << 16) | ((b3 as u32) << 24)
                    == b0 + 0x100 * b1 + 0x1_0000 * b2 + 0x100_0000 * b3) by (bit_vector);
                Some((b0 as u32) | ((b1 as u32) << 8) | ((b2 as u32) << 16) | ((b3 as u32) << 24))
            },
        }
    }

    fn write_word(&mut self, addr: u32, size: MemoryChuckSize, value: u32) -> (done: Option<()>) {
        let b0: u8 = (value & 0xff) as u8;
        let b1: u8 = ((value >> 8) & 0xff) as u8;
        let b2: u8 = ((value >> 16) & 0xff) as u8;
        let b3: u8 = ((value >> 24) & 0xff) as u8;
        assert((value & 0xff) as u8 == (value as int % 256) as u8 && value & 0xff == value % 256)
            by (bit_vector);
        assert(((value >> 8) & 0xff) as u8 == (value / 0x100 % 256) as u8) by (bit_vector);
        assert(((value >> 16) & 0xff) as u8 == (value / 0x1_0000 % 256) as u8) by (bit_vector);
        assert(((value >> 24) & 0xff) as u8 == (value / 0x100_0000 % 256) as u8) by (bit_vector);
        match size {
            MemoryChuckSize::BYTE => {
                self.write_byte(addr, b0);
            },
            MemoryChuckSize::HALF_WORD => {
                if addr > MAXIMUM_MEMORY_SIZE - 1 {
                    return None;
                }
                self.write_byte(addr, b0);
                self.write_byte(addr + 1, b1);
            },
            MemoryChuckSize::WORD_SIZE => {
                if addr > MAXIMUM_MEMORY_SIZE - 3 {
                    return None;
                }
                self.write_byte(addr, b0);
                self.write_byte(addr + 1, b1);
                self.write_byte(addr + 2, b2);
                self.write_byte(addr + 3, b3);
            },
        }
        assert(self@ =~= write_spec(old(self)@, addr, size, value));
        Some(())
    }
}

} // verus!
