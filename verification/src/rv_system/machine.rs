//! The machine as a mathematical value, and its tick as a function of it.

use vstd::prelude::*;
use crate::bus::{AddressSpace, RAM_SIZE, ROM_START};
use crate::pipeline::{PipelineFault, Stage};
use crate::pipeline::decode::{decode_spec, DecodedValues};
use crate::pipeline::execute::{execute_spec, redirect_spec, ExecutionValues};
use crate::pipeline::instruction_fetch::{fetch_spec, InstructionFetchValues, PCUpdateInfo};
use crate::pipeline::memory_access::{
    memory_access_spec,
    memory_fault,
    space_after,
    MemoryAccessValues,
};
use crate::pipeline::write_back::write_back_spec;
use crate::register::Register32;

verus! {

/// Everything that a tick reads or changes: the cursor, the address space, the registers
/// and the working and ready record of each stage.
pub struct Machine {
    pub cursor: Stage,
    pub space: AddressSpace,
    pub regs: Seq<Register32>,
    pub halted: bool,
    pub fetch_working: InstructionFetchValues,
    pub fetch_ready: InstructionFetchValues,
    pub decode_working: DecodedValues,
    pub decode_ready: DecodedValues,
    pub execute_working: ExecutionValues,
    pub execute_ready: ExecutionValues,
    pub redirect_working: PCUpdateInfo,
    pub redirect_ready: PCUpdateInfo,
    pub memory_working: MemoryAccessValues,
    pub memory_ready: MemoryAccessValues,
}

impl Machine {
    /// There are thirty-two registers and register 0 holds zero, the address space is
    /// well-formed, and every record names a destination below thirty-two.
    pub open spec fn wf(self) -> bool {
        &&& self.space.wf()
        &&& self.regs.len() == 32
        &&& self.regs[0].0 == 0
        &&& self.decode_working.rd < 32
        &&& self.decode_ready.rd < 32
        &&& self.execute_working.rd < 32
        &&& self.execute_ready.rd < 32
        &&& self.memory_working.rd < 32
        &&& self.memory_ready.rd < 32
    }

    /// The machine at reset with `rom` as its program: cursor at IF, the first fetch from
    /// the ROM base, RAM and registers zero, every record zero.
    pub open spec fn reset(rom: Seq<u32>) -> Machine {
        let entry = InstructionFetchValues {
            pc: ROM_START as u32,
            pc_plus_four: ROM_START as u32,
            instruction: 0,
        };
        let idle = PCUpdateInfo { should_update: false, pc_new: 0 };
        Machine {
            cursor: Stage::IF,
            space: AddressSpace { rom, ram: Seq::new((RAM_SIZE / 4) as nat, |i: int| 0u32) },
            regs: Seq::new(32, |i: int| Register32(0)),
            halted: false,
            fetch_working: entry,
            fetch_ready: entry,
            decode_working: DecodedValues::zero(),
            decode_ready: DecodedValues::zero(),
            execute_working: ExecutionValues::zero(),
            execute_ready: ExecutionValues::zero(),
            redirect_working: idle,
            redirect_ready: idle,
            memory_working: MemoryAccessValues::zero(),
            memory_ready: MemoryAccessValues::zero(),
        }
    }

    /// The compute phase: the live stage fills its working record from the ready record
    /// of the stage before it; the other stages do nothing. Only IF and MEM can fault.
    pub open spec fn compute(self) -> Result<Machine, PipelineFault> {
        match self.cursor {
            Stage::IF => match fetch_spec(self.fetch_ready, self.redirect_ready, self.space) {
                Ok(fetched) => Ok(
                    Machine { fetch_working: fetched, halted: fetched.instruction == 0, ..self },
                ),
                Err(e) => Err(PipelineFault::Bus(e)),
            },
            Stage::DE => Ok(
                Machine { decode_working: decode_spec(self.fetch_ready, self.regs), ..self },
            ),
            Stage::EXE => Ok(
                Machine {
                    execute_working: execute_spec(self.decode_ready),
                    redirect_working: redirect_spec(self.decode_ready),
                    ..self
                },
            ),
            Stage::MEM => match memory_fault(self.execute_ready) {
                Some(fault) => Err(fault),
                None => Ok(
                    Machine {
                        memory_working: memory_access_spec(self.execute_ready, self.space),
                        space: space_after(self.execute_ready, self.space),
                        ..self
                    },
                ),
            },
            Stage::WB => Ok(
                Machine { regs: write_back_spec(self.memory_ready, self.regs), ..self },
            ),
        }
    }

    /// The latch phase: every working record becomes the ready record.
    pub open spec fn latch(self) -> Machine {
        Machine {
            fetch_ready: self.fetch_working,
            decode_ready: self.decode_working,
            execute_ready: self.execute_working,
            redirect_ready: self.redirect_working,
            memory_ready: self.memory_working,
            ..self
        }
    }

    /// The cursor moves to the next stage.
    pub open spec fn rotate(self) -> Machine {
        Machine { cursor: self.cursor.successor(), ..self }
    }

    /// One tick: compute, latch, rotate; or the fault of the compute phase.
    pub open spec fn tick(self) -> Result<Machine, PipelineFault> {
        match self.compute() {
            Ok(machine) => Ok(machine.latch().rotate()),
            Err(fault) => Err(fault),
        }
    }

    /// The machine after `ticks` ticks, or as the first faulting tick found it.
    pub open spec fn run(self, ticks: nat) -> Machine
        decreases ticks,
    {
        if ticks == 0 {
            self
        } else {
            match self.tick() {
                Ok(machine) => machine.run((ticks - 1) as nat),
                Err(_) => self,
            }
        }
    }

    /// The fault that ends a run of `ticks` ticks early, if one does.
    pub open spec fn run_fault(self, ticks: nat) -> Option<PipelineFault>
        decreases ticks,
    {
        if ticks == 0 {
            None
        } else {
            match self.tick() {
                Ok(machine) => machine.run_fault((ticks - 1) as nat),
                Err(fault) => Some(fault),
            }
        }
    }

    /// Whether this tick is the memory-access tick of a store.
    pub open spec fn store_executes(self) -> bool {
        self.cursor == Stage::MEM && self.execute_ready.is_store
    }

    /// The number of ticks of a full run: five for each word of the program and five
    /// more.
    pub open spec fn budget(self) -> nat {
        (self.space.rom.len() + 1) * 5
    }
}

} // verus!
