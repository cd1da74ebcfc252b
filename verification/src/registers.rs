//! The register file: 32 general-purpose registers, register 0 hard-wired
//! to zero.

use vstd::prelude::*;

verus! {

/// The 32 architectural registers of the machine.
#[derive(Debug, Clone)]
pub struct Registers {
    data: [u32; 32],
}

impl View for Registers {
    type V = Seq<u32>;

    /// The architectural register values: 32 entries, entry 0 always zero.
    closed spec fn view(&self) -> Seq<u32> {
        Seq::new(32, |i: int| if i == 0 { 0u32 } else { self.data@[i] })
    }
}

impl Registers {
    /// Every view has 32 entries and a zero in entry 0.
    pub broadcast proof fn lemma_view_shape(&self)
        ensures
            #![trigger self@]
            self@.len() == 32,
            self@[0] == 0,
    {
    }

    /// A register file with every register zero.
    pub fn new() -> (regs: Self)
        ensures
            regs@ == Seq::new(32, |i: int| 0u32),
    {
        let regs = Registers { data: [0; 32] };
        assert(regs@ =~= Seq::new(32, |i: int| 0u32));
        regs
    }

    /// Reads register `reg`; register 0 reads as zero.
    pub fn read_reg(&self, reg: u32) -> (value: u32)
        requires
            reg < 32,
        ensures
            value == self@[reg as int],
            reg == 0 ==> value == 0,
    {
        if reg == 0 {
            0
        } else {
            self.data[reg as usize]
        }
    }

    /// Writes `value` to register `reg`; a write to register 0 is discarded.
    pub fn write_reg(&mut self, reg: u32, value: u32)
        requires
            reg < 32,
        ensures
            final(self)@ == write_reg_spec(old(self)@, reg, value),
    {
        if reg == 0 {
            return ;
        }
        self.data[reg as usize] = value;
        assert(self@ =~= write_reg_spec(old(self)@, reg, value));
    }
}

/// The register values after writing `value` to register `reg`.
pub open spec fn write_reg_spec(regs: Seq<u32>, reg: u32, value: u32) -> Seq<u32> {
    if reg == 0 {
        regs
    } else {
        regs.update(reg as int, value)
    }
}

} // verus!
