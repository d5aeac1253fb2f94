//! A functional emulator of the RV32I base integer instruction set, built as a five-stage
//! in-order pipeline: fetch, decode, execute, memory access and write-back, one stage
//! live per tick.

use vstd::prelude::*;
use vstd::string::StringExecFns;
use crate::bus::{RAM_SIZE, RAM_START, ROM_MAX_WORDS};
use crate::pipeline::PipelineFault;
use crate::register::{RegFile, Register32, NUM_REGISTER};
use crate::rv_system::RV32System;
use crate::rv_system::machine::Machine;
use crate::text::{decimal_digits, hex_text, to_decimal_digits, to_hex_text};

pub mod bus;
pub mod pipeline;
pub mod register;
pub mod rv_system;
pub mod text;
pub mod word;

verus! {

/// The word whose bytes, from the lowest address up, are `b0`, `b1`, `b2` and `b3`.
pub open spec fn le_word(b0: u8, b1: u8, b2: u8, b3: u8) -> u32 {
    (b0 + 0x100 * b1 + 0x1_0000 * b2 + 0x100_0000 * b3) as u32
}

/// The words of a program image: each group of four bytes, read as little-endian.
pub open spec fn rom_words(image: Seq<u8>) -> Seq<u32> {
    Seq::new(
        image.len() / 4,
        |i: int| le_word(image[4 * i], image[4 * i + 1], image[4 * i + 2], image[4 * i + 3]),
    )
}

/// Assembles the bytes of a program image into the words of a ROM.
pub fn get_rom_file(rom_file: &[u8]) -> (words: Vec<u32>)
    requires
        rom_file@.len() % 4 == 0,
    ensures
        words@ == rom_words(rom_file@),
{
    let len = rom_file.len();
    let count = len / 4;
    let mut words: Vec<u32> = Vec::new();
    let mut i: usize = 0;
    while i < count
        invariant
            len == rom_file@.len(),
            count == len / 4,
            len % 4 == 0,
            i <= count,
            words@.len() == i,
            forall|k: int| 0 <= k < i ==> words@[k] == rom_words(rom_file@)[k],
        decreases count - i,
    {
        let b0 = rom_file[4 * i] as u32;
        let b1 = rom_file[4 * i + 1] as u32;
        let b2 = rom_file[4 * i + 2] as u32;
        let b3 = rom_file[4 * i + 3] as u32;
        words.push(b0 + 0x100 * b1 + 0x1_0000 * b2 + 0x100_0000 * b3);
        i = i + 1;
    }
    assert(words@ =~= rom_words(rom_file@));
    words
}

/// Runs a program from reset to the end of its tick budget and hands back the registers
/// and the RAM words that cover the first `mem_dump_size / 4` bytes of the RAM; or the
/// fault that ended the run.
pub fn run(rom_file: &[u32], mem_dump_size: usize) -> (outcome: Result<
    (RegFile, Vec<u32>),
    PipelineFault,
>)
    requires
        rom_file@.len() <= ROM_MAX_WORDS,
        mem_dump_size / 4 / 4 <= RAM_SIZE / 4,
    ensures
        ({
            let start = Machine::reset(rom_file@);
            let end = start.run(start.budget());
            match start.run_fault(start.budget()) {
                Some(fault) => outcome == Err::<(RegFile, Vec<u32>), PipelineFault>(fault),
                None => outcome matches Ok(state) && state.0@ == end.regs && state.1@
                    == end.space.ram.subrange(0, (mem_dump_size / 4 / 4) as int),
            }
        }),
{
    let mut rv32_sys = RV32System::new(rom_file);
    match rv32_sys.run() {
        Ok(()) => {},
        Err(fault) => {
            return Err(fault);
        },
    }
    Ok((rv32_sys.get_reg(), rv32_sys.get_mem(mem_dump_size / 4)))
}

/// One register of a dump: its name, its value, a tab, and a line break after every
/// fourth.
pub open spec fn register_text(regs: Seq<Register32>, i: int) -> Seq<char> {
    "x"@ + decimal_digits(i as nat) + ": "@ + hex_text(regs[i].0 as nat) + "\t"@ + if (i + 1) % 4
        == 0 {
        "\n"@
    } else {
        Seq::empty()
    }
}

/// The first `count` registers of a dump.
pub open spec fn registers_text(regs: Seq<Register32>, count: nat) -> Seq<char>
    decreases count,
{
    if count == 0 {
        Seq::empty()
    } else {
        registers_text(regs, (count - 1) as nat) + register_text(regs, count - 1)
    }
}

/// One word of a memory dump. Every fourth word starts a line, which begins with the
/// address of that word.
pub open spec fn word_text(mem: Seq<u32>, i: int) -> Seq<char> {
    (if i % 4 == 0 {
        "\n"@ + hex_text((RAM_START + i * 4) as nat) + ": "@
    } else {
        Seq::empty()
    }) + hex_text(mem[i] as nat) + " "@
}

/// The first `count` words of a memory dump.
pub open spec fn words_text(mem: Seq<u32>, count: nat) -> Seq<char>
    decreases count,
{
    if count == 0 {
        Seq::empty()
    } else {
        words_text(mem, (count - 1) as nat) + word_text(mem, count - 1)
    }
}

/// The dump of a machine: its registers, four to a line, then the words of `mem`, four to
/// a line.
pub open spec fn output_text(regs: Seq<Register32>, mem: Seq<u32>) -> Seq<char> {
    "Register Dump:\n\n"@ + registers_text(regs, regs.len()) + "\nMemory Dump:\n"@ + words_text(
        mem,
        mem.len(),
    )
}

/// Writes the registers and a stretch of RAM as text.
pub fn get_output(reg: &[Register32; NUM_REGISTER], mem: &Vec<u32>) -> (output: String)
    requires
        RAM_START + mem@.len() * 4 <= usize::MAX,
    ensures
        output@ == output_text(reg@, mem@),
{
    let mut output = String::from_str("Register Dump:\n\n");
    let ghost head = output@;
    let mut i: usize = 0;
    while i < NUM_REGISTER
        invariant
            i <= NUM_REGISTER,
            head == "Register Dump:\n\n"@,
            output@ == head + registers_text(reg@, i as nat),
        decreases NUM_REGISTER - i,
    {
        let ghost before = output@;
        output.append("x");
        output.append(to_decimal_digits(i).as_str());
        output.append(": ");
        output.append(to_hex_text(reg[i].0 as usize).as_str());
        output.append("\t");
        if (i + 1) % 4 == 0 {
            output.append("\n");
        }
        assert(output@ =~= before + register_text(reg@, i as int));
        assert(output@ =~= head + registers_text(reg@, (i + 1) as nat));
        i = i + 1;
    }
    output.append("\nMemory Dump:\n");
    let ghost head = output@;
    let mut i: usize = 0;
    while i < mem.len()
        invariant
            i <= mem@.len(),
            RAM_START + mem@.len() * 4 <= usize::MAX,
            head == "Register Dump:\n\n"@ + registers_text(reg@, reg@.len()) + "\nMemory Dump:\n"@,
            output@ == head + words_text(mem@, i as nat),
        decreases mem@.len() - i,
    {
        let ghost before = output@;
        if i % 4 == 0 {
            output.append("\n");
            output.append(to_hex_text(RAM_START + i * 4).as_str());
            output.append(": ");
        }
        output.append(to_hex_text(mem[i] as usize).as_str());
        output.append(" ");
        assert(output@ =~= before + word_text(mem@, i as int));
        assert(output@ =~= head + words_text(mem@, (i + 1) as nat));
        i = i + 1;
    }
    output
}

} // verus!
