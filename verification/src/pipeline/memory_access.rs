use vstd::prelude::*;
use super::{PipelineFault, PipelineStage, Stage};
use super::execute::ExecutionValues;
use crate::bus::{
    lemma_select_bound,
    lemma_store_then_load,
    misaligned,
    width_mask,
    AddressSpace,
    Bus,
};
use crate::bus::bus_error::BusError;
use crate::word::{add_signed, lemma_reinterpret, lemma_sign_extend_by_shifts, sign_extend, wrap32};

verus! {

/// What the memory stage hands to write-back: the destination, the fields and class tags
/// it passes on, and the value to be written back.
#[derive(Debug, Clone, Copy, PartialEq, Eq, Structural)]
pub struct MemoryAccessValues {
    pub rd: u32,
    pub rs1: u32,
    pub rs2: u32,
    pub funct3: u32,
    pub is_alu_operation: bool,
    pub is_store: bool,
    pub is_load: bool,
    pub is_lui: bool,
    pub is_jal: bool,
    pub is_jalr: bool,
    pub is_branch: bool,
    pub imm32: i32,
    pub write_back_value: u32,
}

impl MemoryAccessValues {
    /// The record with every field zero and no class.
    pub open spec fn zero() -> MemoryAccessValues {
        MemoryAccessValues {
            rd: 0,
            rs1: 0,
            rs2: 0,
            funct3: 0,
            is_alu_operation: false,
            is_store: false,
            is_load: false,
            is_lui: false,
            is_jal: false,
            is_jalr: false,
            is_branch: false,
            imm32: 0,
            write_back_value: 0,
        }
    }

    /// The record with every field zero and no class.
    pub fn new() -> (values: Self)
        ensures
            values == Self::zero(),
    {
        Self {
            rd: 0,
            rs1: 0,
            rs2: 0,
            funct3: 0,
            is_alu_operation: false,
            is_store: false,
            is_load: false,
            is_lui: false,
            is_jal: false,
            is_jalr: false,
            is_branch: false,
            imm32: 0_i32,
            write_back_value: 0,
        }
    }
}

/// How many bytes a load or a store moves.
#[derive(Debug, Clone, Copy, PartialEq, Eq, Structural)]
pub enum MemoryAccessWidth {
    Byte,
    HalfWord,
    Word,
}

impl MemoryAccessWidth {
    /// The width with the given two-bit code; code 3 names none.
    pub open spec fn from_code(code: u32) -> Option<MemoryAccessWidth> {
        if code == 0b00 {
            Some(MemoryAccessWidth::Byte)
        } else if code == 0b01 {
            Some(MemoryAccessWidth::HalfWord)
        } else if code == 0b10 {
            Some(MemoryAccessWidth::Word)
        } else {
            None
        }
    }

    /// Reads a width from its code; `None` where the code names none.
    pub fn try_from_u32(number: u32) -> (width: Option<MemoryAccessWidth>)
        ensures
            width == Self::from_code(number),
    {
        match number {
            0b00 => Some(MemoryAccessWidth::Byte),
            0b01 => Some(MemoryAccessWidth::HalfWord),
            0b10 => Some(MemoryAccessWidth::Word),
            _ => None,
        }
    }
}

/// The byte address of a load or a store: `rs1 + imm32` modulo 2^32.
pub open spec fn effective_address(e: ExecutionValues) -> usize {
    wrap32(e.rs1 + e.imm32) as usize
}

/// The width of a load or a store, from the low two bits of `funct3`.
pub open spec fn access_width(e: ExecutionValues) -> Option<MemoryAccessWidth> {
    MemoryAccessWidth::from_code(e.funct3 & 0b11)
}

/// Whether a load sign-extends what it reads: bit 2 of `funct3` is clear.
pub open spec fn is_signed_load(e: ExecutionValues) -> bool {
    e.funct3 & 0b100 == 0
}

/// What a load puts into its destination when the bus returns `val`: a signed load reads
/// a byte or a halfword as a two's complement number, an unsigned load and a word load
/// keep the value.
pub open spec fn extend(val: u32, width: MemoryAccessWidth, signed_load: bool) -> u32 {
    if signed_load {
        match width {
            MemoryAccessWidth::Byte => wrap32(sign_extend(val, 0x80)),
            MemoryAccessWidth::HalfWord => wrap32(sign_extend(val, 0x8000)),
            MemoryAccessWidth::Word => val,
        }
    } else {
        val
    }
}

/// The fault, if any, with which the memory stage ends for `e`: a load or store of a
/// width that no access has, or one that the bus refuses as misaligned. Nothing else
/// faults.
pub open spec fn memory_fault(e: ExecutionValues) -> Option<PipelineFault> {
    if e.is_store || e.is_load {
        match access_width(e) {
            None => Some(PipelineFault::InvalidWidth(e.funct3)),
            Some(width) => if misaligned(effective_address(e), width) {
                let addr = effective_address(e);
                if e.is_store {
                    Some(PipelineFault::Bus(BusError::StoreAddrMisaligned(addr, e.rs2)))
                } else {
                    Some(PipelineFault::Bus(BusError::LoadAddrMisaligned(addr)))
                }
            } else {
                None
            },
        }
    } else {
        None
    }
}

/// The address space after the memory stage has run for `e`: a store that does not
/// fault writes `rs2`, everything else leaves the space as it was.
pub open spec fn space_after(e: ExecutionValues, space: AddressSpace) -> AddressSpace {
    if e.is_store && memory_fault(e) is None {
        space.write(effective_address(e), e.rs2, access_width(e).unwrap())
    } else {
        space
    }
}

/// The value that the instruction hands to write-back: what a load read, the immediate
/// of LUI, the link address of JAL and JALR, and the ALU result otherwise.
pub open spec fn write_back_value(e: ExecutionValues, space: AddressSpace) -> u32 {
    if e.is_store {
        e.alu_result
    } else if e.is_load {
        match access_width(e) {
            Some(width) => match space.read(effective_address(e), width) {
                Ok(val) => extend(val, width, is_signed_load(e)),
                Err(_) => e.alu_result,
            },
            None => e.alu_result,
        }
    } else if e.is_lui {
        wrap32(e.imm32 as int)
    } else if e.is_jal || e.is_jalr {
        e.pc_plus_four
    } else {
        e.alu_result
    }
}

/// The record that the memory stage produces for `e` when it does not fault.
pub open spec fn memory_access_spec(e: ExecutionValues, space: AddressSpace)
    -> MemoryAccessValues {
    MemoryAccessValues {
        rd: e.rd,
        rs1: e.rs1,
        rs2: e.rs2,
        funct3: e.funct3,
        is_alu_operation: e.is_alu_operation,
        is_store: e.is_store,
        is_load: e.is_load,
        is_lui: e.is_lui,
        is_jal: e.is_jal,
        is_jalr: e.is_jalr,
        is_branch: e.is_branch,
        imm32: e.imm32,
        write_back_value: write_back_value(e, space),
    }
}

/// A store into the RAM followed by a load at the same address and of the same width
/// hands to write-back the low bits of the stored value, extended as the load asks.
pub proof fn lemma_load_after_store(
    store: ExecutionValues,
    load: ExecutionValues,
    space: AddressSpace,
)
    requires
        space.wf(),
        store.is_store,
        load.is_load && !load.is_store,
        memory_fault(store) is None,
        effective_address(load) == effective_address(store),
        access_width(load) == access_width(store),
        space.in_ram(effective_address(store)),
    ensures
        memory_fault(load) is None,
        write_back_value(load, space_after(store, space)) == extend(
            store.rs2 & width_mask(access_width(store).unwrap()),
            access_width(store).unwrap(),
            is_signed_load(load),
        ),
{
    lemma_store_then_load(space, effective_address(store), store.rs2, access_width(store).unwrap());
}

/// The memory stage: loads, stores and the choice of the value to write back.
pub struct MemoryAccess {
    mem_val: MemoryAccessValues,
    mem_val_ready: MemoryAccessValues,
}

impl MemoryAccess {
    /// A stage that has passed nothing on: both records zero.
    pub fn new() -> (stage: Self)
        ensures
            stage.working() == MemoryAccessValues::zero(),
            stage.ready() == MemoryAccessValues::zero(),
    {
        Self { mem_val: MemoryAccessValues::new(), mem_val_ready: MemoryAccessValues::new() }
    }

    /// The latched output.
    pub fn get_memory_access_values_out(&self) -> (values: MemoryAccessValues)
        ensures
            values == self.ready(),
    {
        self.mem_val_ready
    }
}

impl PipelineStage<ExecutionValues, MemoryAccessValues> for MemoryAccess {
    type Shared = Bus;

    open spec fn slot() -> Stage {
        Stage::MEM
    }

    closed spec fn working(&self) -> MemoryAccessValues {
        self.mem_val
    }

    closed spec fn ready(&self) -> MemoryAccessValues {
        self.mem_val_ready
    }

    open spec fn shared_wf(shared: &Bus) -> bool {
        shared.wf()
    }

    open spec fn admits(values: ExecutionValues) -> bool {
        true
    }

    /// On a live tick the stage faults exactly when `memory_fault` names a fault, and
    /// otherwise stores, loads and fills the working record as `space_after` and
    /// `memory_access_spec` say. Only a store changes the address space.
    fn compute(&mut self, values: ExecutionValues, cursor: Stage, shared: &mut Bus)
        -> (outcome: Result<(), PipelineFault>)
        ensures
            final(shared).layout() == old(shared).layout(),
            cursor == Stage::MEM ==> match memory_fault(values) {
                Some(fault) => outcome == Err::<(), PipelineFault>(fault),
                None => outcome is Ok && final(self).working() == memory_access_spec(
                    values,
                    old(shared)@,
                ) && final(shared)@ == space_after(values, old(shared)@),
            },
    {
        if self.should_stall(cursor) {
            return Ok(());
        }
        let exe_val = values;
        let mut write_back_value = exe_val.alu_result;

        let addr = add_signed(exe_val.rs1, exe_val.imm32) as usize;

        if exe_val.is_store {
            let width = match MemoryAccessWidth::try_from_u32(exe_val.funct3 & 0b11) {
                Some(width) => width,
                None => {
                    return Err(PipelineFault::InvalidWidth(exe_val.funct3));
                },
            };
            match shared.write(addr, exe_val.rs2, width) {
                Ok(()) => {},
                Err(e) => {
                    return Err(PipelineFault::Bus(e));
                },
            }
        } else if exe_val.is_load {
            let signed_extend = exe_val.funct3 & 0b100 == 0;
            let width = match MemoryAccessWidth::try_from_u32(exe_val.funct3 & 0b11) {
                Some(width) => width,
                None => {
                    return Err(PipelineFault::InvalidWidth(exe_val.funct3));
                },
            };
            let val = match shared.read(addr, width) {
                Ok(val) => val,
                Err(e) => {
                    return Err(PipelineFault::Bus(e));
                },
            };
            proof {
                lemma_select_bound(shared@.chunk(addr), (addr % 4) as int, width);
                lemma_sign_extend_by_shifts(val);
                lemma_reinterpret(0, ((val << 24) as i32) >> 24);
                lemma_reinterpret(0, ((val << 16) as i32) >> 16);
            }
            write_back_value = if signed_extend {
                match width {
                    MemoryAccessWidth::Byte => (((val << 24) as i32) >> 24) as u32,
                    MemoryAccessWidth::HalfWord => (((val << 16) as i32) >> 16) as u32,
                    MemoryAccessWidth::Word => val,
                }
            } else {
                val
            };
        } else if exe_val.is_lui {
            proof {
                lemma_reinterpret(0, exe_val.imm32);
            }
            write_back_value = exe_val.imm32 as u32;
        } else if exe_val.is_jal || exe_val.is_jalr {
            write_back_value = exe_val.pc_plus_four;
        }

        self.mem_val = MemoryAccessValues {
            rd: exe_val.rd,
            rs1: exe_val.rs1,
            rs2: exe_val.rs2,
            funct3: exe_val.funct3,
            is_alu_operation: exe_val.is_alu_operation,
            is_store: exe_val.is_store,
            is_load: exe_val.is_load,
            is_lui: exe_val.is_lui,
            is_jal: exe_val.is_jal,
            is_jalr: exe_val.is_jalr,
            is_branch: exe_val.is_branch,
            imm32: exe_val.imm32,
            write_back_value,
        };
        Ok(())
    }

    fn should_stall(&self, cursor: Stage) -> (stalled: bool) {
        !matches!(cursor, Stage::MEM)
    }

    fn get_values_out(&self) -> (values: MemoryAccessValues) {
        self.mem_val_ready
    }

    fn latch_next(&mut self) {
        self.mem_val_ready = self.mem_val;
    }
}

} // verus!
