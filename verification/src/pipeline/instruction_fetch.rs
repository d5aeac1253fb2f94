use vstd::prelude::*;
use super::{PipelineFault, PipelineStage, Stage};
use super::memory_access::MemoryAccessWidth;
use crate::bus::{AddressSpace, Bus, ROM_START};
use crate::bus::bus_error::BusError;
use crate::word::{add_wrapping, wrap32};

verus! {

/// The PC-redirect record: written by the execute stage, read by the fetch stage at its
/// next live tick.
#[derive(Debug, Clone, Copy, PartialEq, Eq, Structural)]
pub struct PCUpdateInfo {
    pub should_update: bool,
    pub pc_new: u32,
}

/// What the fetch stage hands to the decoder.
#[derive(Debug, Clone, Copy, PartialEq, Eq, Structural)]
pub struct InstructionFetchValues {
    pub pc: u32,
    pub pc_plus_four: u32,
    pub instruction: u32,
}

impl InstructionFetchValues {
    /// The record before the first fetch: the next PC is `entry_point`.
    pub fn new(entry_point: u32) -> (values: Self)
        ensures
            values == (InstructionFetchValues {
                pc: entry_point,
                pc_plus_four: entry_point,
                instruction: 0,
            }),
    {
        Self { pc: entry_point, pc_plus_four: entry_point, instruction: 0_u32 }
    }
}

/// The address of the next fetch: the redirect target if EXE asks for one, else the
/// latched address after the instruction fetched last.
pub open spec fn next_pc(last: InstructionFetchValues, redirect: PCUpdateInfo) -> u32 {
    if redirect.should_update {
        redirect.pc_new
    } else {
        last.pc_plus_four
    }
}

/// The record of the next fetch, or the fault of the bus where the next PC is no
/// multiple of four.
pub open spec fn fetch_spec(
    last: InstructionFetchValues,
    redirect: PCUpdateInfo,
    space: AddressSpace,
) -> Result<InstructionFetchValues, BusError> {
    let pc = next_pc(last, redirect);
    match space.read(pc as usize, MemoryAccessWidth::Word) {
        Ok(instruction) => Ok(
            InstructionFetchValues { pc, pc_plus_four: wrap32(pc + 4), instruction },
        ),
        Err(e) => Err(e),
    }
}

/// The fetch stage: it owns the program counter.
pub struct InstructionFetch {
    halted: bool,
    if_val: InstructionFetchValues,
    if_val_ready: InstructionFetchValues,
}

impl InstructionFetch {
    /// Whether the word fetched last was the zero word.
    pub closed spec fn halted(&self) -> bool {
        self.halted
    }

    /// A stage that has fetched nothing: its first fetch is from the ROM base.
    pub fn new(bus: &Bus) -> (stage: Self)
        requires
            bus.wf(),
        ensures
            stage.working() == (InstructionFetchValues {
                pc: ROM_START as u32,
                pc_plus_four: ROM_START as u32,
                instruction: 0,
            }),
            stage.ready() == stage.working(),
            !stage.halted(),
    {
        proof {
            bus.lemma_wf();
        }
        let entry_point = bus.memory_layout().rom_start as u32;
        Self {
            halted: false,
            if_val: InstructionFetchValues::new(entry_point),
            if_val_ready: InstructionFetchValues::new(entry_point),
        }
    }

    /// Whether the program has run into a zero word.
    pub fn should_halt(&self) -> (halt: bool)
        ensures
            halt == self.halted(),
    {
        self.halted
    }
}

impl PipelineStage<PCUpdateInfo, InstructionFetchValues> for InstructionFetch {
    type Shared = Bus;

    open spec fn slot() -> Stage {
        Stage::IF
    }

    closed spec fn working(&self) -> InstructionFetchValues {
        self.if_val
    }

    closed spec fn ready(&self) -> InstructionFetchValues {
        self.if_val_ready
    }

    open spec fn shared_wf(shared: &Bus) -> bool {
        shared.wf()
    }

    open spec fn admits(values: PCUpdateInfo) -> bool {
        true
    }

    /// On a live tick the stage moves the PC and fetches the word there. It faults exactly
    /// when the new PC is no multiple of four. The bus is only read.
    fn compute(&mut self, values: PCUpdateInfo, cursor: Stage, shared: &mut Bus)
        -> (outcome: Result<(), PipelineFault>)
        ensures
            *final(shared) == *old(shared),
            cursor == Stage::IF ==> match fetch_spec(old(self).ready(), values, old(shared)@) {
                Ok(fetched) => outcome is Ok && final(self).working() == fetched
                    && final(self).halted() == (fetched.instruction == 0),
                Err(e) => outcome == Err::<(), PipelineFault>(PipelineFault::Bus(e)),
            },
            cursor != Stage::IF ==> final(self).halted() == old(self).halted(),
    {
        if self.should_stall(cursor) {
            return Ok(());
        }
        let pc = if values.should_update {
            values.pc_new
        } else {
            self.if_val_ready.pc_plus_four
        };

        let addr = pc as usize;
        let instruction = match shared.read(addr, MemoryAccessWidth::Word) {
            Ok(instruction) => instruction,
            Err(e) => {
                return Err(PipelineFault::Bus(e));
            },
        };

        self.if_val = InstructionFetchValues {
            pc,
            pc_plus_four: add_wrapping(pc, 4),
            instruction,
        };
        self.halted = instruction == 0;
        Ok(())
    }

    fn should_stall(&self, cursor: Stage) -> (stalled: bool) {
        !matches!(cursor, Stage::IF)
    }

    fn get_values_out(&self) -> (values: InstructionFetchValues) {
        self.if_val_ready
    }

    /// Latching leaves the halt flag as it is.
    fn latch_next(&mut self)
        ensures
            final(self).halted() == old(self).halted(),
    {
        self.if_val_ready = self.if_val;
    }
}

} // verus!
