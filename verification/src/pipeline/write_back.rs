use vstd::prelude::*;
use super::{PipelineFault, PipelineStage, Stage};
use super::memory_access::MemoryAccessValues;
use crate::register::{write_register, RegFile, Register32};

verus! {

/// The write-back stage has nothing to hand on: its effect is the register write.
#[derive(Debug, Clone, Copy, PartialEq, Eq, Structural)]
pub struct WriteBackValues {
    _dummy: u8,
}

/// Whether the instruction is of a class that produces a value for its destination:
/// ALU operations, loads, LUI, JAL and JALR. Stores and branches are not.
pub open spec fn produces_value(m: MemoryAccessValues) -> bool {
    m.is_alu_operation || m.is_load || m.is_lui || m.is_jal || m.is_jalr
}

/// The register file after write-back of `m`: register `rd` takes the value unless `rd`
/// is register 0 or the instruction produces none.
pub open spec fn write_back_spec(m: MemoryAccessValues, regs: Seq<Register32>) -> Seq<
    Register32,
> {
    if produces_value(m) && m.rd != 0 {
        regs.update(m.rd as int, Register32(m.write_back_value))
    } else {
        regs
    }
}

/// The write-back stage: the one place where registers change.
pub struct WriteBack {
    out: WriteBackValues,
}

impl WriteBackValues {
    /// The one value of the record.
    pub closed spec fn nothing() -> WriteBackValues {
        WriteBackValues { _dummy: 0 }
    }
}

impl WriteBack {
    /// A write-back stage. Its output is empty and stays so.
    pub fn new() -> (stage: Self)
        ensures
            stage.working() == WriteBackValues::nothing(),
            stage.ready() == WriteBackValues::nothing(),
    {
        Self { out: WriteBackValues { _dummy: 0 } }
    }
}

impl PipelineStage<MemoryAccessValues, WriteBackValues> for WriteBack {
    type Shared = RegFile;

    open spec fn slot() -> Stage {
        Stage::WB
    }

    closed spec fn working(&self) -> WriteBackValues {
        self.out
    }

    closed spec fn ready(&self) -> WriteBackValues {
        self.out
    }

    open spec fn shared_wf(shared: &RegFile) -> bool {
        true
    }

    /// The destination names one of the thirty-two registers.
    open spec fn admits(values: MemoryAccessValues) -> bool {
        values.rd < 32
    }

    /// On a live tick the register file becomes what `write_back_spec` gives. Register 0
    /// is never written, and write-back never faults.
    fn compute(&mut self, values: MemoryAccessValues, cursor: Stage, shared: &mut RegFile)
        -> (outcome: Result<(), PipelineFault>)
        ensures
            outcome is Ok,
            *final(self) == *old(self),
            final(shared)@[0] == old(shared)@[0],
            cursor == Stage::WB ==> final(shared)@ == write_back_spec(values, old(shared)@),
    {
        if self.should_stall(cursor) {
            return Ok(());
        }
        let mem_val = values;

        let should_write_back = mem_val.is_alu_operation || mem_val.is_load || mem_val.is_lui
            || mem_val.is_jal || mem_val.is_jalr;

        if should_write_back {
            write_register(shared, mem_val.rd as usize, mem_val.write_back_value);
        }
        Ok(())
    }

    fn should_stall(&self, cursor: Stage) -> (stalled: bool) {
        !matches!(cursor, Stage::WB)
    }

    fn get_values_out(&self) -> (values: WriteBackValues) {
        self.out
    }

    fn latch_next(&mut self)
        ensures
            *final(self) == *old(self),
    {
    }
}

} // verus!
