use rv32emu::bus::bus_error::BusError;
use rv32emu::pipeline::{PipelineFault, Stage};
use rv32emu::rv_system::RV32System;

const ADD_AND_STORE: [u32; 5] = [0x00100093, 0x00200113, 0x002081B3, 0x80000237, 0x00322023];
const LOAD_THEN_ADD: [u32; 4] = [0xDEADC2B7, 0xEEF28293, 0x00022303, 0x006283B3];
const SUB_WORD_STORES: [u32; 3] = [0x00722223, 0x00721423, 0x00720623];

fn concat(parts: &[&[u32]]) -> Vec<u32> {
    let mut rom = Vec::new();
    for part in parts {
        rom.extend_from_slice(part);
    }
    rom
}

fn run(rom: &[u32]) -> RV32System {
    let mut system = RV32System::new(rom);
    assert_eq!(system.run(), Ok(()));
    system
}

fn reg(system: &RV32System, index: usize) -> u32 {
    system.get_reg()[index].0
}

#[test]
fn arithmetic_and_store() {
    // addi x1,x0,1; addi x2,x0,2; add x3,x1,x2; lui x4,0x80000; sw x3,0(x4)
    let system = run(&ADD_AND_STORE);
    assert_eq!(reg(&system, 1), 1);
    assert_eq!(reg(&system, 2), 2);
    assert_eq!(reg(&system, 3), 3);
    assert_eq!(reg(&system, 4), 0x8000_0000);
    assert_eq!(system.get_mem(4), vec![0x0000_0003]);
}

#[test]
fn load_then_add() {
    // lui x5,0xDEADC; addi x5,x5,0xEEF; lw x6,0(x4); add x7,x5,x6
    let system = run(&concat(&[&ADD_AND_STORE, &LOAD_THEN_ADD]));
    assert_eq!(reg(&system, 5), 0xDEAD_BEEF);
    assert_eq!(reg(&system, 6), 3);
    assert_eq!(reg(&system, 7), 0xDEAD_BEF2);
}

#[test]
fn sub_word_stores() {
    // sw x7,4(x4); sh x7,8(x4); sb x7,12(x4)
    let system = run(&concat(&[&ADD_AND_STORE, &LOAD_THEN_ADD, &SUB_WORD_STORES]));
    let mem = system.get_mem(16);
    assert_eq!(mem[0], 0x0000_0003);
    assert_eq!(mem[1], 0xDEAD_BEF2);
    assert_eq!(mem[2] & 0xFFFF, 0xBEF2);
    assert_eq!(mem[2] >> 16, 0);
    assert_eq!(mem[3] & 0xFF, 0xF2);
    assert_eq!(mem[3] >> 8, 0);
}

#[test]
fn sub_word_stores_at_upper_lanes() {
    // after the stores above: sh x7,2(x4); sb x7,15(x4)
    let system = run(
        &concat(&[&ADD_AND_STORE, &LOAD_THEN_ADD, &SUB_WORD_STORES, &[0x00721123, 0x007207A3]]),
    );
    let mem = system.get_mem(16);
    assert_eq!(mem[0], 0xBEF2_0003);
    assert_eq!(mem[3], 0xF200_00F2);
}

#[test]
fn sub_word_loads_extend() {
    // after the word store of 0xDEADBEF2 at 0x80000004:
    // lb x8,4(x4); lbu x9,4(x4); lh x10,4(x4); lhu x11,4(x4); lw x12,4(x4); lbu x13,7(x4)
    let loads = [0x00420403, 0x00424483, 0x00421503, 0x00425583, 0x00422603, 0x00724683];
    let system = run(&concat(&[&ADD_AND_STORE, &LOAD_THEN_ADD, &SUB_WORD_STORES, &loads]));
    assert_eq!(reg(&system, 8), 0xFFFF_FFF2);
    assert_eq!(reg(&system, 9), 0x0000_00F2);
    assert_eq!(reg(&system, 10), 0xFFFF_BEF2);
    assert_eq!(reg(&system, 11), 0x0000_BEF2);
    assert_eq!(reg(&system, 12), 0xDEAD_BEF2);
    assert_eq!(reg(&system, 13), 0x0000_00DE);
}

#[test]
fn unconditional_jump() {
    // jal x1,+8; addi x5,x0,99; addi x6,x0,7
    let system = run(&[0x008000EF, 0x06300293, 0x00700313]);
    assert_eq!(reg(&system, 1), 0x4000_0004);
    assert_eq!(reg(&system, 5), 0);
    assert_eq!(reg(&system, 6), 7);
}

#[test]
fn jump_and_link_register_clears_bit_zero() {
    // lui x2,0x40000; jalr x1,9(x2); addi x5,x0,99; addi x6,x0,7
    let system = run(&[0x40000137, 0x009100E7, 0x06300293, 0x00700313]);
    assert_eq!(reg(&system, 1), 0x4000_0008);
    assert_eq!(reg(&system, 5), 99);
    assert_eq!(reg(&system, 6), 7);
    // lui x2,0x40000; jalr x1,13(x2); addi x5,x0,99; addi x6,x0,7
    let system = run(&[0x40000137, 0x00D100E7, 0x06300293, 0x00700313]);
    assert_eq!(reg(&system, 1), 0x4000_0008);
    assert_eq!(reg(&system, 5), 0);
    assert_eq!(reg(&system, 6), 7);
}

#[test]
fn branch_taken_skips() {
    // addi x1,x0,5; addi x2,x0,5; beq x1,x2,+8; addi x3,x0,1; addi x4,x0,2
    let system = run(&[0x00500093, 0x00500113, 0x00208463, 0x00100193, 0x00200213]);
    assert_eq!(reg(&system, 3), 0);
    assert_eq!(reg(&system, 4), 2);
}

#[test]
fn branch_not_taken_falls_through() {
    // addi x1,x0,5; addi x2,x0,6; beq x1,x2,+8; addi x3,x0,1; addi x4,x0,2
    let system = run(&[0x00500093, 0x00600113, 0x00208463, 0x00100193, 0x00200213]);
    assert_eq!(reg(&system, 3), 1);
    assert_eq!(reg(&system, 4), 2);
}

fn branch_skips(branch: u32, x1: u32, x2: u32) -> bool {
    // addi x1,x0,<x1>; addi x2,x0,<x2>; <branch x1,x2,+8>; addi x3,x0,1; addi x4,x0,2
    let rom = [0x00000093 | (x1 << 20), 0x00000113 | (x2 << 20), branch, 0x00100193, 0x00200213];
    let system = run(&rom);
    assert_eq!(reg(&system, 4), 2);
    reg(&system, 3) == 0
}

#[test]
fn each_branch_condition() {
    let minus_one = 0xFFF;
    // beq
    assert!(branch_skips(0x00208463, 5, 5));
    assert!(!branch_skips(0x00208463, 5, 6));
    // bne
    assert!(branch_skips(0x00209463, 5, 6));
    assert!(!branch_skips(0x00209463, 5, 5));
    // blt compares as signed numbers
    assert!(branch_skips(0x0020C463, minus_one, 1));
    assert!(!branch_skips(0x0020C463, 1, minus_one));
    assert!(!branch_skips(0x0020C463, 1, 1));
    // bge
    assert!(branch_skips(0x0020D463, 1, minus_one));
    assert!(branch_skips(0x0020D463, 1, 1));
    assert!(!branch_skips(0x0020D463, minus_one, 1));
    // bltu compares as unsigned numbers
    assert!(branch_skips(0x0020E463, 1, minus_one));
    assert!(!branch_skips(0x0020E463, minus_one, 1));
    // bgeu
    assert!(branch_skips(0x0020F463, minus_one, 1));
    assert!(branch_skips(0x0020F463, 1, 1));
    assert!(!branch_skips(0x0020F463, 1, minus_one));
    // funct3 010 names no branch: never taken
    assert!(!branch_skips(0x0020A463, 5, 5));
}

#[test]
fn backward_branch_loops() {
    // addi x1,x0,3; addi x2,x2,1; addi x1,x1,-1; bne x1,x0,-8
    // The run is cut off after (4 + 1) * 5 ticks: five instructions.
    let system = run(&[0x00300093, 0x00110113, 0xFFF08093, 0xFE009CE3]);
    assert_eq!(reg(&system, 2), 2);
    assert_eq!(reg(&system, 1), 2);
}

#[test]
fn shift_right_arithmetic_and_logical() {
    // lui x1,0xFFFFF; srai x2,x1,4; srli x3,x1,4
    let system = run(&[0xFFFFF0B7, 0x4040D113, 0x0040D193]);
    assert_eq!(reg(&system, 1), 0xFFFF_F000);
    assert_eq!(reg(&system, 2), 0xFFFF_FF00);
    assert_eq!(reg(&system, 3), 0x0FFF_FF00);
    // addi x1,x0,-1; srai x2,x1,4; srli x3,x1,4
    let system = run(&[0xFFF00093, 0x4040D113, 0x0040D193]);
    assert_eq!(reg(&system, 2), 0xFFFF_FFFF);
    assert_eq!(reg(&system, 3), 0x0FFF_FFFF);
}

#[test]
fn shift_left_then_right_clears_top_bits() {
    // lui x1,0xFFFFF; addi x2,x0,4; sll x3,x1,x2; srl x4,x3,x2; srl x5,x1,x2; sll x6,x5,x2; srl x7,x6,x2
    let system =
        run(&[0xFFFFF0B7, 0x00400113, 0x002091B3, 0x0021D233, 0x0020D2B3, 0x00229333, 0x002353B3]);
    assert_eq!(reg(&system, 3), 0xFFFF_0000);
    assert_eq!(reg(&system, 4), 0x0FFF_F000);
    assert_eq!(reg(&system, 5), 0x0FFF_FF00);
    assert_eq!(reg(&system, 7), 0x0FFF_FF00);
}

#[test]
fn register_zero_stays_zero() {
    // addi x0,x0,5; lui x0,0xFFFFF; jal x0,+4; add x1,x0,x0
    let mut system = RV32System::new(&[0x00500013, 0xFFFFF037, 0x0040006F, 0x000000B3]);
    let ticks = system.budget();
    for _ in 0..ticks {
        assert_eq!(system.tick(), Ok(()));
        assert_eq!(reg(&system, 0), 0);
    }
    assert_eq!(reg(&system, 1), 0);
}

#[test]
fn program_without_store_leaves_ram_zero() {
    // addi x1,x0,1; addi x2,x0,2; add x3,x1,x2; lui x4,0x80000; lw x6,0(x4)
    let system = run(&[0x00100093, 0x00200113, 0x002081B3, 0x80000237, 0x00022303]);
    assert_eq!(reg(&system, 3), 3);
    assert!(system.get_mem(0x1000).iter().all(|word| *word == 0));
}

#[test]
fn store_to_rom_is_dropped() {
    // lui x4,0x40000; addi x3,x0,7; sw x3,0(x4); lw x5,0(x4)
    let system = run(&[0x40000237, 0x00700193, 0x00322023, 0x00022283]);
    assert_eq!(reg(&system, 5), 0x40000237);
    assert!(system.get_mem(0x100).iter().all(|word| *word == 0));
}

#[test]
fn access_outside_both_regions_reads_zero() {
    // lui x4,0x10000; addi x3,x0,7; sw x3,0(x4); addi x5,x0,9; lw x5,0(x4)
    let system = run(&[0x10000237, 0x00700193, 0x00322023, 0x00900293, 0x00022283]);
    assert_eq!(reg(&system, 5), 0);
}

#[test]
fn runs_are_deterministic() {
    let rom = concat(&[&ADD_AND_STORE, &LOAD_THEN_ADD, &SUB_WORD_STORES]);
    let first = run(&rom);
    let second = run(&rom);
    let (a, b) = (first.get_reg(), second.get_reg());
    for i in 0..32 {
        assert_eq!(a[i].0, b[i].0);
    }
    assert_eq!(first.get_mem(0x210), second.get_mem(0x210));
}

#[test]
fn run_takes_five_ticks_for_each_word_and_five_more() {
    let system = RV32System::new(&ADD_AND_STORE);
    assert_eq!(system.budget(), 30);
    assert_eq!(RV32System::new(&[]).budget(), 5);
}

#[test]
fn cursor_rotates_through_the_stages() {
    let mut system = RV32System::new(&ADD_AND_STORE);
    let order = [Stage::IF, Stage::DE, Stage::EXE, Stage::MEM, Stage::WB, Stage::IF];
    for stage in order {
        assert_eq!(system.get_stage(), stage);
        assert_eq!(system.tick(), Ok(()));
    }
}

#[test]
fn one_instruction_takes_five_ticks() {
    let mut system = RV32System::new(&ADD_AND_STORE);
    for _ in 0..4 {
        assert_eq!(system.tick(), Ok(()));
        assert_eq!(reg(&system, 1), 0);
    }
    assert_eq!(system.tick(), Ok(()));
    assert_eq!(reg(&system, 1), 1);
}

#[test]
fn tick_is_compute_latch_rotate() {
    let mut by_tick = RV32System::new(&ADD_AND_STORE);
    let mut by_phase = RV32System::new(&ADD_AND_STORE);
    assert_eq!(by_tick.tick(), Ok(()));
    assert_eq!(by_phase.compute(), Ok(()));
    // the fetch is not visible before the latch
    assert_eq!(by_phase.get_fetched().instruction, 0);
    by_phase.latch_next();
    assert_eq!(by_phase.get_fetched(), by_tick.get_fetched());
    assert_eq!(by_phase.get_fetched().instruction, 0x00100093);
    assert_eq!(by_phase.get_fetched().pc, 0x4000_0000);
    assert_eq!(by_phase.get_fetched().pc_plus_four, 0x4000_0004);
    // latching again changes nothing
    by_phase.latch_next();
    assert_eq!(by_phase.get_fetched(), by_tick.get_fetched());
    assert_eq!(by_phase.get_stage(), Stage::IF);
    assert_eq!(by_tick.get_stage(), Stage::DE);
}

#[test]
fn misaligned_fetch_faults() {
    // jal x0,+2
    let mut system = RV32System::new(&[0x0020006F, 0x00700313]);
    assert_eq!(
        system.run(),
        Err(PipelineFault::Bus(BusError::LoadAddrMisaligned(0x4000_0002)))
    );
    assert_eq!(reg(&system, 6), 0);
    // the faulting tick left the machine at the fetch
    assert_eq!(system.get_stage(), Stage::IF);
    assert_eq!(
        system.tick(),
        Err(PipelineFault::Bus(BusError::LoadAddrMisaligned(0x4000_0002)))
    );
}

#[test]
fn misaligned_store_faults() {
    // addi x3,x0,7; lui x4,0x80000; sw x3,1(x4)
    let mut system = RV32System::new(&[0x00700193, 0x80000237, 0x003220A3]);
    assert_eq!(
        system.run(),
        Err(PipelineFault::Bus(BusError::StoreAddrMisaligned(0x8000_0001, 7)))
    );
    assert_eq!(system.get_stage(), Stage::MEM);
    assert_eq!(system.get_mem(4), vec![0]);
    // sh x3,1(x4)
    let mut system = RV32System::new(&[0x00700193, 0x80000237, 0x003210A3]);
    assert_eq!(
        system.run(),
        Err(PipelineFault::Bus(BusError::StoreAddrMisaligned(0x8000_0001, 7)))
    );
}

#[test]
fn misaligned_load_faults() {
    // lui x4,0x80000; lw x6,2(x4)
    let mut system = RV32System::new(&[0x80000237, 0x00222303]);
    assert_eq!(
        system.run(),
        Err(PipelineFault::Bus(BusError::LoadAddrMisaligned(0x8000_0002)))
    );
    // lui x4,0x80000; lh x6,3(x4)
    let mut system = RV32System::new(&[0x80000237, 0x00321303]);
    assert_eq!(
        system.run(),
        Err(PipelineFault::Bus(BusError::LoadAddrMisaligned(0x8000_0003)))
    );
}

#[test]
fn access_of_no_width_faults() {
    // lui x4,0x80000; load with funct3 = 011
    let mut system = RV32System::new(&[0x80000237, 0x00023303]);
    assert_eq!(system.run(), Err(PipelineFault::InvalidWidth(3)));
    // lui x4,0x80000; load with funct3 = 111
    let mut system = RV32System::new(&[0x80000237, 0x00027303]);
    assert_eq!(system.run(), Err(PipelineFault::InvalidWidth(7)));
    // lui x4,0x80000; store with funct3 = 011
    let mut system = RV32System::new(&[0x80000237, 0x00323023]);
    assert_eq!(system.run(), Err(PipelineFault::InvalidWidth(3)));
}

#[test]
fn lui_with_width_bits_set_does_not_touch_the_bus() {
    // lui x4,0x80003: bits [14:12] of the word are 011
    let system = run(&[0x80003237]);
    assert_eq!(reg(&system, 4), 0x8000_3000);
}

#[test]
fn unhandled_instruction_commits_nothing() {
    // addi x5,x0,9; auipc x5,1
    let mut system = RV32System::new(&[0x00900293, 0x00001297]);
    let mut reported = Vec::new();
    for _ in 0..system.budget() {
        assert_eq!(system.tick(), Ok(()));
        if system.get_stage() == Stage::EXE && system.get_decoded().is_unhandled() {
            reported.push(system.get_decoded().instruction);
        }
    }
    assert_eq!(reported, vec![0x00001297]);
    assert_eq!(reg(&system, 5), 9);
}

#[test]
fn empty_program_runs() {
    let system = run(&[]);
    for i in 0..32 {
        assert_eq!(reg(&system, i), 0);
    }
}

#[test]
fn immediate_forms_of_the_alu() {
    // addi x1,x0,-16 (0xFFFFFFF0)
    // xori x2,x1,-1; ori x3,x0,-16; andi x4,x1,-1; slti x5,x1,-1; sltiu x6,x1,-1
    let system =
        run(&[0xFF000093, 0xFFF0C113, 0xFF006193, 0xFFF0F213, 0xFFF0A293, 0xFFF0B313]);
    assert_eq!(reg(&system, 1), 0xFFFF_FFF0);
    // the logical operations take the sign-extended immediate
    assert_eq!(reg(&system, 2), 0x0000_000F);
    assert_eq!(reg(&system, 3), 0xFFFF_FFF0);
    assert_eq!(reg(&system, 4), 0xFFFF_FFF0);
    // the comparisons take the raw twelve-bit field, 0xFFF
    assert_eq!(reg(&system, 5), 1);
    assert_eq!(reg(&system, 6), 0);
}

#[test]
fn register_forms_of_the_alu() {
    // addi x1,x0,-16; addi x2,x0,37
    // sub x3,x1,x2; sll x4,x1,x2; srl x5,x1,x2; sra x6,x1,x2; slt x7,x1,x2; sltu x8,x1,x2;
    // xor x9,x1,x2; or x10,x1,x2; and x11,x1,x2; add x12,x1,x2
    let system = run(
        &[
            0xFF000093, 0x02500113, 0x402081B3, 0x00209233, 0x0020D2B3, 0x4020D333, 0x0020A3B3,
            0x0020B433, 0x0020C4B3, 0x0020E533, 0x0020F5B3, 0x00208633,
        ],
    );
    assert_eq!(reg(&system, 3), 0xFFFF_FFCB);
    // shifts use the low five bits of x2: 37 & 31 = 5
    assert_eq!(reg(&system, 4), 0xFFFF_FE00);
    assert_eq!(reg(&system, 5), 0x07FF_FFFF);
    assert_eq!(reg(&system, 6), 0xFFFF_FFFF);
    assert_eq!(reg(&system, 7), 1);
    assert_eq!(reg(&system, 8), 0);
    assert_eq!(reg(&system, 9), 0xFFFF_FFD5);
    assert_eq!(reg(&system, 10), 0xFFFF_FFF5);
    assert_eq!(reg(&system, 11), 0x0000_0020);
    assert_eq!(reg(&system, 12), 0x0000_0015);
}

#[test]
fn run_from_reset() {
    let rom = concat(&[&ADD_AND_STORE, &LOAD_THEN_ADD, &SUB_WORD_STORES]);
    let (regs, mem) = rv32emu::run(&rom, 64).unwrap();
    assert_eq!(regs[7].0, 0xDEAD_BEF2);
    assert_eq!(regs[0].0, 0);
    // the words that cover 64 / 4 bytes
    assert_eq!(mem, vec![3, 0xDEAD_BEF2, 0x0000_BEF2, 0x0000_00F2]);
    assert_eq!(rv32emu::run(&rom, 0).unwrap().1, Vec::<u32>::new());
    // jal x0,+2
    assert_eq!(
        rv32emu::run(&[0x0020006F], 64),
        Err(PipelineFault::Bus(BusError::LoadAddrMisaligned(0x4000_0002)))
    );
}
