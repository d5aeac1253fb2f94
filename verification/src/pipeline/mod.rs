//! The five pipeline stages, the records that travel between them, and the interface
//! they share.

use vstd::prelude::*;
use vstd::string::StringExecFns;
use crate::bus::bus_error::BusError;
use crate::text::{decimal_digits, to_decimal_digits};

pub mod decode;
pub mod execute;
pub mod instruction_fetch;
pub mod memory_access;
pub mod write_back;

verus! {

/// The stage cursor: which of the five stages is live in the current tick.
#[derive(Debug, Clone, Copy, PartialEq, Eq, Structural)]
pub enum Stage {
    IF,
    DE,
    EXE,
    MEM,
    WB,
}

impl Stage {
    /// The stage that is live one tick after `self`.
    pub open spec fn successor(self) -> Stage {
        match self {
            Stage::IF => Stage::DE,
            Stage::DE => Stage::EXE,
            Stage::EXE => Stage::MEM,
            Stage::MEM => Stage::WB,
            Stage::WB => Stage::IF,
        }
    }

    /// Rotates the cursor by one position.
    pub fn next(self) -> (following: Stage)
        ensures
            following == self.successor(),
    {
        match self {
            Stage::IF => Stage::DE,
            Stage::DE => Stage::EXE,
            Stage::EXE => Stage::MEM,
            Stage::MEM => Stage::WB,
            Stage::WB => Stage::IF,
        }
    }
}

/// Why a tick could not complete. A fault is fatal: the machine has no trap vector.
#[derive(Debug, Clone, Copy, PartialEq, Eq, Structural)]
pub enum PipelineFault {
    /// The bus refused an instruction fetch, a load or a store.
    Bus(BusError),
    /// A load or a store names a width that no access has. The field is the `funct3`
    /// of the instruction.
    InvalidWidth(u32),
}

impl PipelineFault {
    /// What the fault says: the message of the bus, or the `funct3` that names no width,
    /// in decimal.
    pub open spec fn message_text(self) -> Seq<char> {
        match self {
            PipelineFault::Bus(e) => e.message_text(),
            PipelineFault::InvalidWidth(funct3) => "Invalid access width: funct3 = "@
                + decimal_digits(funct3 as nat),
        }
    }

    /// The fault as a line of text.
    pub fn message(&self) -> (text: String)
        ensures
            text@ == self.message_text(),
    {
        match self {
            PipelineFault::Bus(e) => e.message(),
            PipelineFault::InvalidWidth(funct3) => {
                let mut text = String::from_str("Invalid access width: funct3 = ");
                text.append(to_decimal_digits(*funct3 as usize).as_str());
                text
            },
        }
    }
}

/// What every stage offers to the orchestrator. `TI` is the record a stage consumes,
/// `TO` the record it produces. A stage keeps two copies of its output: `working`, which
/// only `compute` changes, and `ready`, which only `latch_next` changes.
pub trait PipelineStage<TI, TO>: Sized where TI: Clone + Copy, TO: Clone + Copy {
    /// The resource outside the stage that `compute` reads or changes.
    type Shared;

    /// The cursor position at which this stage is live.
    spec fn slot() -> Stage;

    /// The output record that `compute` fills.
    spec fn working(&self) -> TO;

    /// The output record that the next stage reads.
    spec fn ready(&self) -> TO;

    /// What must hold of the shared resource before and after `compute`.
    spec fn shared_wf(shared: &Self::Shared) -> bool;

    /// The input records that `compute` accepts.
    spec fn admits(values: TI) -> bool;

    /// Runs the stage for one tick. A stage that is not live changes nothing and reports
    /// no fault; neither does a tick that ends in a fault change anything. `ready` is never
    /// touched.
    fn compute(&mut self, values: TI, cursor: Stage, shared: &mut Self::Shared)
        -> (outcome: Result<(), PipelineFault>)
        requires
            Self::shared_wf(old(shared)),
            Self::admits(values),
        ensures
            Self::shared_wf(final(shared)),
            final(self).ready() == old(self).ready(),
            cursor != Self::slot() ==> outcome is Ok,
            cursor != Self::slot() || outcome is Err ==> *final(self) == *old(self)
                && *final(shared) == *old(shared),
    ;

    /// Whether the stage sits idle while `cursor` is the live position.
    fn should_stall(&self, cursor: Stage) -> (stalled: bool)
        ensures
            stalled == (cursor != Self::slot()),
    ;

    /// The latched output.
    fn get_values_out(&self) -> (values: TO)
        ensures
            values == self.ready(),
    ;

    /// Publishes `working` as `ready`. A second call in a row changes nothing more.
    fn latch_next(&mut self)
        ensures
            final(self).ready() == old(self).working(),
            final(self).working() == old(self).working(),
    ;
}

} // verus!
