//! What holds of every machine and every program.

use vstd::prelude::*;
use super::machine::Machine;
use crate::bus::RAM_SIZE;
use crate::pipeline::{PipelineFault, Stage};
use crate::pipeline::decode::{
    b_immediate,
    decode_spec,
    j_immediate,
    lemma_field_widths,
    lemma_immediate_fits,
    lemma_opcode_classes,
    opcode_of,
    rd_of,
};
use crate::pipeline::execute::{branch_taken, execute_spec, redirect_spec};
use crate::pipeline::instruction_fetch::{fetch_spec, next_pc};
use crate::pipeline::memory_access::{memory_access_spec, memory_fault, space_after};
use crate::pipeline::write_back::write_back_spec;
use crate::register::{register_value, Register32};
use crate::word::wrap32;

verus! {

/// A tick keeps a well-formed machine well-formed.
pub proof fn lemma_tick_keeps_wf(m: Machine)
    requires
        m.wf(),
    ensures
        m.tick() matches Ok(next) ==> next.wf(),
{
    lemma_field_widths(m.fetch_ready.instruction);
}

/// Register `x0` reads as zero, and holds zero, after any number of ticks.
pub proof fn lemma_x0_is_zero(m: Machine, ticks: nat)
    requires
        m.wf(),
    ensures
        m.run(ticks).wf(),
        m.run(ticks).regs[0].0 == 0,
        register_value(m.run(ticks).regs, 0) == 0,
    decreases ticks,
{
    if ticks > 0 {
        lemma_tick_keeps_wf(m);
        match m.tick() {
            Ok(next) => {
                lemma_x0_is_zero(next, (ticks - 1) as nat);
            },
            Err(_) => {},
        }
    }
}

/// No tick changes the ROM, and only the MEM tick of a store changes the RAM.
pub proof fn lemma_tick_keeps_memory(m: Machine)
    ensures
        m.tick() matches Ok(next) ==> next.space.rom == m.space.rom && (!m.store_executes()
            ==> next.space.ram == m.space.ram),
{
}

/// No run changes the ROM.
pub proof fn lemma_run_keeps_rom(m: Machine, ticks: nat)
    ensures
        m.run(ticks).space.rom == m.space.rom,
    decreases ticks,
{
    if ticks > 0 {
        match m.tick() {
            Ok(next) => {
                lemma_run_keeps_rom(next, (ticks - 1) as nat);
            },
            Err(_) => {},
        }
    }
}

/// A run in which no store executes leaves the RAM as it was: all zeros, if the run
/// starts at reset.
pub proof fn lemma_run_without_store_keeps_ram(m: Machine, ticks: nat)
    requires
        forall|k: nat| k < ticks ==> !(#[trigger] m.run(k)).store_executes(),
    ensures
        m.run(ticks).space.ram == m.space.ram,
    decreases ticks,
{
    if ticks > 0 {
        assert(m.run(0) == m);
        match m.tick() {
            Ok(next) => {
                assert forall|k: nat| k < ticks - 1 implies !(#[trigger] next.run(
                    k,
                )).store_executes() by {
                    assert(m.run(k + 1) == next.run(k));
                }
                lemma_run_without_store_keeps_ram(next, (ticks - 1) as nat);
            },
            Err(_) => {},
        }
    }
}

/// A program that executes no store leaves every word of the RAM zero.
pub proof fn lemma_program_without_store_leaves_ram_zero(rom: Seq<u32>, ticks: nat, i: int)
    requires
        forall|k: nat| k < ticks ==> !(#[trigger] Machine::reset(rom).run(k)).store_executes(),
        0 <= i < RAM_SIZE / 4,
    ensures
        Machine::reset(rom).run(ticks).space.ram[i] == 0,
{
    lemma_run_without_store_keeps_ram(Machine::reset(rom), ticks);
}

/// Latching twice is latching once.
pub proof fn lemma_latch_is_idempotent(m: Machine)
    ensures
        m.latch().latch() == m.latch(),
{
}

/// Five ticks carry one instruction through the pipeline. Starting with the cursor at IF,
/// the machine fetches, decodes, executes, accesses memory and writes back, and it faults
/// exactly where the fetch or the memory access does.
pub proof fn lemma_instruction_cycle(m: Machine)
    requires
        m.cursor == Stage::IF,
    ensures
        match fetch_spec(m.fetch_ready, m.redirect_ready, m.space) {
            Err(e) => m.run_fault(5) == Some(PipelineFault::Bus(e)) && m.run(5) == m,
            Ok(fetched) => {
                let decoded = decode_spec(fetched, m.regs);
                let executed = execute_spec(decoded);
                match memory_fault(executed) {
                    Some(fault) => m.run_fault(5) == Some(fault) && m.run(5).regs == m.regs
                        && m.run(5).space == m.space,
                    None => {
                        let after = m.run(5);
                        &&& m.run_fault(5) is None
                        &&& after.cursor == Stage::IF
                        &&& after.fetch_ready == fetched
                        &&& after.redirect_ready == redirect_spec(decoded)
                        &&& after.space == space_after(executed, m.space)
                        &&& after.regs == write_back_spec(
                            memory_access_spec(executed, m.space),
                            m.regs,
                        )
                    },
                }
            },
        },
{
    reveal_with_fuel(Machine::run, 6);
    reveal_with_fuel(Machine::run_fault, 6);
}

/// JAL writes the address after itself to `rd` and makes the next fetch come from
/// `pc + j_imm`. It touches no memory and, for `rd` other than `x0`, no other register.
pub proof fn lemma_jal_links_and_jumps(m: Machine)
    requires
        m.wf(),
        m.cursor == Stage::IF,
        fetch_spec(m.fetch_ready, m.redirect_ready, m.space) matches Ok(fetched) && opcode_of(
            fetched.instruction,
        ) == 0b110_1111,
    ensures
        m.run_fault(5) is None,
        m.run(5).cursor == Stage::IF,
        m.run(5).space == m.space,
        ({
            let fetched = fetch_spec(m.fetch_ready, m.redirect_ready, m.space).unwrap();
            let rd = rd_of(fetched.instruction);
            &&& next_pc(m.run(5).fetch_ready, m.run(5).redirect_ready) == wrap32(
                fetched.pc + j_immediate(fetched.instruction),
            )
            &&& rd != 0 ==> m.run(5).regs == m.regs.update(
                rd as int,
                Register32(wrap32(fetched.pc + 4)),
            )
            &&& rd == 0 ==> m.run(5).regs == m.regs
        }),
{
    let fetched = fetch_spec(m.fetch_ready, m.redirect_ready, m.space).unwrap();
    lemma_opcode_classes(fetched.instruction);
    lemma_immediate_fits(fetched.instruction);
    lemma_field_widths(fetched.instruction);
    lemma_instruction_cycle(m);
}

/// A conditional branch redirects the next fetch to `pc + b_imm` if its condition holds
/// and lets it go on to `pc + 4` if not. It changes neither memory nor registers.
pub proof fn lemma_branch_redirects_iff_taken(m: Machine)
    requires
        m.wf(),
        m.cursor == Stage::IF,
        fetch_spec(m.fetch_ready, m.redirect_ready, m.space) matches Ok(fetched) && opcode_of(
            fetched.instruction,
        ) == 0b110_0011,
    ensures
        m.run_fault(5) is None,
        m.run(5).cursor == Stage::IF,
        m.run(5).space == m.space,
        m.run(5).regs == m.regs,
        ({
            let fetched = fetch_spec(m.fetch_ready, m.redirect_ready, m.space).unwrap();
            let decoded = decode_spec(fetched, m.regs);
            &&& m.run(5).redirect_ready.should_update == branch_taken(decoded)
            &&& next_pc(m.run(5).fetch_ready, m.run(5).redirect_ready) == if branch_taken(
                decoded,
            ) {
                wrap32(fetched.pc + b_immediate(fetched.instruction))
            } else {
                wrap32(fetched.pc + 4)
            }
        }),
{
    let fetched = fetch_spec(m.fetch_ready, m.redirect_ready, m.space).unwrap();
    lemma_opcode_classes(fetched.instruction);
    lemma_immediate_fits(fetched.instruction);
    lemma_field_widths(fetched.instruction);
    lemma_instruction_cycle(m);
}

} // verus!
