use vstd::prelude::*;

verus! {

/// Number of general-purpose registers.
pub const NUM_REGISTER: usize = 32;

/// One 32-bit register cell.
#[derive(Debug, Clone, Copy, PartialEq, Eq, Structural)]
pub struct Register32(pub u32);

/// The register file: thirty-two cells, of which cell 0 always reads as zero.
pub type RegFile = [Register32; NUM_REGISTER];

/// What a read of register `addr` observes in `regs`: cell 0 is hard-wired to zero.
pub open spec fn register_value(regs: Seq<Register32>, addr: int) -> u32 {
    if 0 < addr < regs.len() {
        regs[addr].0
    } else {
        0
    }
}

/// Reads register `addr`; address 0 reads as zero whatever the cell holds.
pub fn read_register(regs: &RegFile, addr: usize) -> (val: u32)
    requires
        addr < NUM_REGISTER,
    ensures
        val == register_value(regs@, addr as int),
{
    if addr == 0 {
        0
    } else {
        regs[addr].0
    }
}

/// Writes `val` to register `addr`; a write to address 0 is discarded.
pub fn write_register(regs: &mut RegFile, addr: usize, val: u32)
    requires
        addr < NUM_REGISTER,
    ensures
        final(regs)@ == if addr == 0 {
            old(regs)@
        } else {
            old(regs)@.update(addr as int, Register32(val))
        },
{
    if addr != 0 {
        regs[addr] = Register32(val);
    }
}

} // verus!
