//! The orchestrator: it owns the cursor, the bus, the register file and the five stages,
//! and moves them tick by tick.

use vstd::prelude::*;
use crate::bus::{Bus, RAM_SIZE, ROM_MAX_WORDS};
use crate::pipeline::{PipelineFault, PipelineStage, Stage};
use crate::pipeline::decode::{lemma_field_widths, Decode, DecodedValues};
use crate::pipeline::execute::Execute;
use crate::pipeline::instruction_fetch::{InstructionFetch, InstructionFetchValues};
use crate::pipeline::memory_access::MemoryAccess;
use crate::pipeline::write_back::WriteBack;
use crate::register::{RegFile, Register32, NUM_REGISTER};

pub mod laws;
pub mod machine;

use self::machine::Machine;

verus! {

/// A machine: one hart, its memory and its pipeline.
pub struct RV32System {
    stage: Stage,
    bus: Bus,
    reg_file: RegFile,
    stage_if: InstructionFetch,
    stage_de: Decode,
    stage_exe: Execute,
    stage_mem: MemoryAccess,
    stage_wb: WriteBack,
}

impl View for RV32System {
    type V = Machine;

    closed spec fn view(&self) -> Machine {
        Machine {
            cursor: self.stage,
            space: self.bus@,
            regs: self.reg_file@,
            halted: self.stage_if.halted(),
            fetch_working: self.stage_if.working(),
            fetch_ready: self.stage_if.ready(),
            decode_working: self.stage_de.working(),
            decode_ready: self.stage_de.ready(),
            execute_working: self.stage_exe.working(),
            execute_ready: self.stage_exe.ready(),
            redirect_working: self.stage_exe.redirect(),
            redirect_ready: self.stage_exe.redirect_ready(),
            memory_working: self.stage_mem.working(),
            memory_ready: self.stage_mem.ready(),
        }
    }
}

impl RV32System {
    /// The bus is in order and the machine it shows is well-formed.
    pub closed spec fn wf(&self) -> bool {
        &&& self.bus.wf()
        &&& self@.wf()
    }

    /// A well-formed system shows a well-formed machine; in particular its register 0
    /// holds zero.
    pub proof fn lemma_wf(&self)
        requires
            self.wf(),
        ensures
            self@.wf(),
    {
    }

    /// A machine with `rom_file` as its program, at reset.
    pub fn new(rom_file: &[u32]) -> (system: Self)
        requires
            rom_file@.len() <= ROM_MAX_WORDS,
        ensures
            system.wf(),
            system@ == Machine::reset(rom_file@),
    {
        let bus = Bus::new(rom_file);
        let stage_if = InstructionFetch::new(&bus);
        let system = Self {
            stage: Stage::IF,
            bus,
            reg_file: [Register32(0);NUM_REGISTER],
            stage_if,
            stage_de: Decode::new(),
            stage_exe: Execute::new(),
            stage_mem: MemoryAccess::new(),
            stage_wb: WriteBack::new(),
        };
        proof {
            system.bus.lemma_wf();
            assert(system@.regs =~= Machine::reset(rom_file@).regs);
        }
        system
    }

    /// The compute phase of a tick: every stage is called in pipeline order, each on the
    /// latched output of the stage before it, and the live one acts. A fault leaves the
    /// machine as it was.
    pub fn compute(&mut self) -> (outcome: Result<(), PipelineFault>)
        requires
            old(self).wf(),
        ensures
            final(self).wf(),
            match old(self)@.compute() {
                Ok(machine) => outcome is Ok && final(self)@ == machine,
                Err(fault) => outcome == Err::<(), PipelineFault>(fault)
                    && final(self)@ == old(self)@,
            },
    {
        proof {
            lemma_field_widths(self.stage_if.ready().instruction);
        }
        let pc_update_info = self.stage_exe.get_pc_update_info();

        match self.stage_if.compute(pc_update_info, self.stage, &mut self.bus) {
            Ok(()) => {},
            Err(fault) => {
                return Err(fault);
            },
        }
        let fetched = self.stage_if.get_values_out();
        let _ = self.stage_de.compute(fetched, self.stage, &mut self.reg_file);
        let decoded = self.stage_de.get_values_out();
        let _ = self.stage_exe.compute(decoded, self.stage, &mut ());
        let executed = self.stage_exe.get_values_out();
        match self.stage_mem.compute(executed, self.stage, &mut self.bus) {
            Ok(()) => {},
            Err(fault) => {
                return Err(fault);
            },
        }
        let accessed = self.stage_mem.get_values_out();
        let _ = self.stage_wb.compute(accessed, self.stage, &mut self.reg_file);
        Ok(())
    }

    /// The latch phase of a tick: every stage publishes its working record.
    pub fn latch_next(&mut self)
        requires
            old(self).wf(),
        ensures
            final(self).wf(),
            final(self)@ == old(self)@.latch(),
    {
        self.stage_if.latch_next();
        self.stage_de.latch_next();
        self.stage_exe.latch_next();
        self.stage_mem.latch_next();
        self.stage_wb.latch_next();
    }

    /// One tick: compute, latch, then the cursor moves on. A tick that faults leaves the
    /// machine as it was, cursor included.
    pub fn tick(&mut self) -> (outcome: Result<(), PipelineFault>)
        requires
            old(self).wf(),
        ensures
            final(self).wf(),
            match old(self)@.tick() {
                Ok(machine) => outcome is Ok && final(self)@ == machine,
                Err(fault) => outcome == Err::<(), PipelineFault>(fault)
                    && final(self)@ == old(self)@,
            },
    {
        match self.compute() {
            Ok(()) => {},
            Err(fault) => {
                return Err(fault);
            },
        }
        self.latch_next();
        self.stage = self.stage.next();
        Ok(())
    }

    /// A full run: five ticks for each word of the program and five more, so that the
    /// last instruction clears the pipeline. The run stops at the first tick that faults,
    /// with the machine as that tick found it.
    pub fn run(&mut self) -> (outcome: Result<(), PipelineFault>)
        requires
            old(self).wf(),
        ensures
            final(self).wf(),
            final(self)@ == old(self)@.run(old(self)@.budget()),
            outcome == match old(self)@.run_fault(old(self)@.budget()) {
                Some(fault) => Err::<(), PipelineFault>(fault),
                None => Ok::<(), PipelineFault>(()),
            },
    {
        let ticks = self.budget();
        let mut done: usize = 0;
        while done < ticks
            invariant
                self.wf(),
                done <= ticks,
                ticks == old(self)@.budget(),
                self@.run((ticks - done) as nat) == old(self)@.run(ticks as nat),
                self@.run_fault((ticks - done) as nat) == old(self)@.run_fault(ticks as nat),
            decreases ticks - done,
        {
            match self.tick() {
                Ok(()) => {},
                Err(fault) => {
                    return Err(fault);
                },
            }
            done = done + 1;
        }
        Ok(())
    }

    /// The number of ticks of a full run.
    pub fn budget(&self) -> (ticks: usize)
        requires
            self.wf(),
        ensures
            ticks == self@.budget(),
    {
        proof {
            self.bus.lemma_wf();
        }
        (self.bus.memory_layout().rom_size / 4 + 1) * 5
    }

    /// The stage that is live in the next tick.
    pub fn get_stage(&self) -> (cursor: Stage)
        ensures
            cursor == self@.cursor,
    {
        self.stage
    }

    /// The latched output of the fetch stage.
    pub fn get_fetched(&self) -> (values: InstructionFetchValues)
        ensures
            values == self@.fetch_ready,
    {
        self.stage_if.get_values_out()
    }

    /// The latched output of the decode stage.
    pub fn get_decoded(&self) -> (values: DecodedValues)
        ensures
            values == self@.decode_ready,
    {
        self.stage_de.get_values_out()
    }

    /// The registers, register 0 first. In a well-formed machine register 0 holds zero.
    pub fn get_reg(&self) -> (regs: [Register32; NUM_REGISTER])
        ensures
            regs@ == self@.regs,
            self.wf() ==> regs[0].0 == 0,
    {
        self.reg_file
    }

    /// The RAM words that cover the first `size` bytes of the RAM.
    pub fn get_mem(&self, size: usize) -> (words: Vec<u32>)
        requires
            self.wf(),
            size / 4 <= RAM_SIZE / 4,
        ensures
            words@ == self@.space.ram.subrange(0, (size / 4) as int),
            words@.len() == size / 4,
    {
        self.bus.get_mem(size)
    }
}

} // verus!
