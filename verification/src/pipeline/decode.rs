use vstd::prelude::*;
use super::{PipelineFault, PipelineStage, Stage};
use super::instruction_fetch::InstructionFetchValues;
use crate::register::{read_register, register_value, RegFile, Register32};
use crate::word::{lemma_reinterpret, lemma_sign_extend_by_shifts, sign_extend, signed};

verus! {

/// A decoded instruction: the raw word, its fields, the values of its source registers,
/// its place in the program, its class tags and its immediate.
#[derive(Debug, Clone, Copy, PartialEq, Eq, Structural)]
pub struct DecodedValues {
    pub instruction: u32,
    pub opcode: u32,
    pub rd: u32,
    pub funct3: u32,
    pub rs1: u32,
    pub rs2: u32,
    pub imm11_0: u32,
    pub funct7: u32,
    pub shamt: u32,
    pub pc: u32,
    pub pc_plus_four: u32,
    pub is_alu_operation: bool,
    pub is_store: bool,
    pub is_load: bool,
    pub is_lui: bool,
    pub is_jal: bool,
    pub is_jalr: bool,
    pub is_branch: bool,
    pub imm32: i32,
}

impl DecodedValues {
    /// The record with every field zero and no class.
    pub fn new() -> (values: Self)
        ensures
            values == Self::zero(),
    {
        Self {
            instruction: 0,
            opcode: 0,
            rd: 0,
            funct3: 0,
            rs1: 0,
            rs2: 0,
            imm11_0: 0,
            funct7: 0,
            shamt: 0,
            pc: 0,
            pc_plus_four: 0,
            is_alu_operation: false,
            is_store: false,
            is_load: false,
            is_lui: false,
            is_jal: false,
            is_jalr: false,
            is_branch: false,
            imm32: 0,
        }
    }

    /// The record with every field zero and no class.
    pub open spec fn zero() -> DecodedValues {
        DecodedValues {
            instruction: 0,
            opcode: 0,
            rd: 0,
            funct3: 0,
            rs1: 0,
            rs2: 0,
            imm11_0: 0,
            funct7: 0,
            shamt: 0,
            pc: 0,
            pc_plus_four: 0,
            is_alu_operation: false,
            is_store: false,
            is_load: false,
            is_lui: false,
            is_jal: false,
            is_jalr: false,
            is_branch: false,
            imm32: 0,
        }
    }

    /// Whether the record carries one of the seven class tags.
    pub open spec fn has_class(self) -> bool {
        self.is_alu_operation || self.is_store || self.is_load || self.is_lui || self.is_jal
            || self.is_jalr || self.is_branch
    }
    /// Whether the record is of a non-zero instruction word that no class claims: the
    /// case in which a host reports that the instruction is not implemented.
    pub open spec fn unhandled(self) -> bool {
        !self.has_class() && self.instruction != 0
    }

    /// Tells whether the instruction went down the unhandled path.
    pub fn is_unhandled(&self) -> (unhandled: bool)
        ensures
            unhandled == self.unhandled(),
    {
        !(self.is_alu_operation || self.is_store || self.is_load || self.is_lui || self.is_jal
            || self.is_jalr || self.is_branch) && self.instruction != 0
    }
}

/// Bits [6:0] of an instruction word.
pub open spec fn opcode_of(instruction: u32) -> u32 {
    instruction & 0x7f
}

/// Bits [11:7]: the destination register.
pub open spec fn rd_of(instruction: u32) -> u32 {
    (instruction >> 7) & 0x1f
}

/// Bits [14:12].
pub open spec fn funct3_of(instruction: u32) -> u32 {
    (instruction >> 12) & 0x7
}

/// Bits [19:15]: the first source register.
pub open spec fn rs1_of(instruction: u32) -> u32 {
    (instruction >> 15) & 0x1f
}

/// Bits [24:20]: the second source register, or the shift amount.
pub open spec fn rs2_of(instruction: u32) -> u32 {
    (instruction >> 20) & 0x1f
}

/// Bits [31:20]: the raw immediate field of the I format.
pub open spec fn imm11_0_of(instruction: u32) -> u32 {
    (instruction >> 20) & 0xfff
}

/// Bits [31:25].
pub open spec fn funct7_of(instruction: u32) -> u32 {
    (instruction >> 25) & 0x7f
}

/// The immediate of the I format: bits [31:20] as a twelve-bit two's complement number.
pub open spec fn i_immediate(instruction: u32) -> int {
    sign_extend(imm11_0_of(instruction), 0x800)
}

/// The immediate of the S format: `funct7` above `rd`, as a twelve-bit two's complement
/// number.
pub open spec fn s_immediate(instruction: u32) -> int {
    sign_extend((funct7_of(instruction) << 5) | rd_of(instruction), 0x800)
}

/// The bits of the B format in their places: bit 12 from bit 31 of the word, bit 11 from
/// bit 7, bits [10:5] from bits [30:25], bits [4:1] from bits [11:8], bit 0 clear.
pub open spec fn b_field(instruction: u32) -> u32 {
    (((instruction >> 31) & 0x1) << 12) | (((instruction >> 7) & 0x1) << 11)
        | (((instruction >> 25) & 0x3f) << 5) | (((instruction >> 8) & 0xf) << 1)
}

/// The immediate of the B format: a thirteen-bit two's complement number.
pub open spec fn b_immediate(instruction: u32) -> int {
    sign_extend(b_field(instruction), 0x1000)
}

/// The bits of the J format in their places: bit 20 from bit 31 of the word, bits [19:12]
/// from bits [19:12], bit 11 from bit 20, bits [10:1] from bits [30:21], bit 0 clear.
pub open spec fn j_field(instruction: u32) -> u32 {
    (((instruction >> 31) & 0x1) << 20) | (((instruction >> 12) & 0xff) << 12)
        | (((instruction >> 20) & 0x1) << 11) | (((instruction >> 21) & 0x3ff) << 1)
}

/// The immediate of the J format: a twenty-one-bit two's complement number.
pub open spec fn j_immediate(instruction: u32) -> int {
    sign_extend(j_field(instruction), 0x10_0000)
}

/// The immediate of the U format: the word with its low twelve bits cleared, read as a
/// signed number.
pub open spec fn u_immediate(instruction: u32) -> int {
    signed((instruction >> 12) << 12)
}

/// Whether the opcode is one of the two ALU opcodes, register-register or
/// register-immediate.
pub open spec fn is_alu_opcode(opcode: u32) -> bool {
    opcode & 0b101_1111 == 0b001_0011
}

/// The immediate that belongs to the instruction's format; zero where no class claims
/// the instruction.
pub open spec fn immediate(instruction: u32) -> int {
    let opcode = opcode_of(instruction);
    if opcode == 0b010_0011 {
        s_immediate(instruction)
    } else if opcode == 0b011_0111 {
        u_immediate(instruction)
    } else if is_alu_opcode(opcode) || opcode == 0b000_0011 || opcode == 0b110_0111 {
        i_immediate(instruction)
    } else if opcode == 0b110_1111 {
        j_immediate(instruction)
    } else if opcode == 0b110_0011 {
        b_immediate(instruction)
    } else {
        0
    }
}

/// The decoded record of a fetched instruction, with the source registers read from
/// `regs`.
pub open spec fn decode_spec(fetched: InstructionFetchValues, regs: Seq<Register32>)
    -> DecodedValues {
    let instruction = fetched.instruction;
    let opcode = opcode_of(instruction);
    DecodedValues {
        instruction,
        opcode,
        rd: rd_of(instruction),
        funct3: funct3_of(instruction),
        rs1: register_value(regs, rs1_of(instruction) as int),
        rs2: register_value(regs, rs2_of(instruction) as int),
        imm11_0: imm11_0_of(instruction),
        funct7: funct7_of(instruction),
        shamt: rs2_of(instruction),
        pc: fetched.pc,
        pc_plus_four: fetched.pc_plus_four,
        is_alu_operation: is_alu_opcode(opcode),
        is_store: opcode == 0b010_0011,
        is_load: opcode == 0b000_0011,
        is_lui: opcode == 0b011_0111,
        is_jal: opcode == 0b110_1111,
        is_jalr: opcode == 0b110_0111,
        is_branch: opcode == 0b110_0011,
        imm32: immediate(instruction) as i32,
    }
}

/// The fields of an instruction word stay within their widths.
pub proof fn lemma_field_widths(instruction: u32)
    ensures
        rd_of(instruction) < 32,
        rs1_of(instruction) < 32,
        rs2_of(instruction) < 32,
        funct3_of(instruction) < 8,
        imm11_0_of(instruction) < 0x1000,
        ((funct7_of(instruction) << 5) | rd_of(instruction)) < 0x1000,
        b_field(instruction) < 0x2000,
        j_field(instruction) < 0x20_0000,
{
    assert((instruction >> 7) & 0x1f < 32) by (bit_vector);
    assert((instruction >> 15) & 0x1f < 32) by (bit_vector);
    assert((instruction >> 20) & 0x1f < 32) by (bit_vector);
    assert((instruction >> 12) & 0x7 < 8) by (bit_vector);
    assert((instruction >> 20) & 0xfff < 0x1000) by (bit_vector);
    assert(((((instruction >> 25) & 0x7f) << 5) | ((instruction >> 7) & 0x1f)) < 0x1000)
        by (bit_vector);
    assert(((((instruction >> 31) & 0x1) << 12) | (((instruction >> 7) & 0x1) << 11)
        | (((instruction >> 25) & 0x3f) << 5) | (((instruction >> 8) & 0xf) << 1)) < 0x2000)
        by (bit_vector);
    assert(((((instruction >> 31) & 0x1) << 20) | (((instruction >> 12) & 0xff) << 12)
        | (((instruction >> 20) & 0x1) << 11) | (((instruction >> 21) & 0x3ff) << 1)) < 0x20_0000)
        by (bit_vector);
}

/// The fields are the digits of the word in the mixed radix of their widths: each is a
/// quotient of the word by a power of two, reduced modulo the size of the field.
pub proof fn lemma_fields_are_digits(instruction: u32)
    ensures
        opcode_of(instruction) == instruction % 0x80,
        rd_of(instruction) == (instruction / 0x80) % 0x20,
        funct3_of(instruction) == (instruction / 0x1000) % 0x8,
        rs1_of(instruction) == (instruction / 0x8000) % 0x20,
        rs2_of(instruction) == (instruction / 0x10_0000) % 0x20,
        imm11_0_of(instruction) == instruction / 0x10_0000,
        funct7_of(instruction) == instruction / 0x200_0000,
{
    assert(instruction & 0x7f == instruction % 0x80
        && (instruction >> 7) & 0x1f == (instruction / 0x80) % 0x20
        && (instruction >> 12) & 0x7 == (instruction / 0x1000) % 0x8
        && (instruction >> 15) & 0x1f == (instruction / 0x8000) % 0x20
        && (instruction >> 20) & 0x1f == (instruction / 0x10_0000) % 0x20
        && (instruction >> 20) & 0xfff == instruction / 0x10_0000
        && (instruction >> 25) & 0x7f == instruction / 0x200_0000) by (bit_vector);
}

/// The immediates lie in the ranges of their formats: twelve bits for I and S, even
/// thirteen-bit offsets for B, even twenty-one-bit offsets for J, multiples of 4096 for U.
pub proof fn lemma_immediate_ranges(instruction: u32)
    ensures
        -0x800 <= i_immediate(instruction) < 0x800,
        -0x800 <= s_immediate(instruction) < 0x800,
        -0x1000 <= b_immediate(instruction) < 0x1000,
        b_immediate(instruction) % 2 == 0,
        -0x10_0000 <= j_immediate(instruction) < 0x10_0000,
        j_immediate(instruction) % 2 == 0,
        -0x8000_0000 <= u_immediate(instruction) < 0x8000_0000,
        u_immediate(instruction) % 0x1000 == 0,
{
    lemma_field_widths(instruction);
    let b = b_field(instruction);
    let j = j_field(instruction);
    let u = (instruction >> 12) << 12;
    assert(b % 2 == 0 && j % 2 == 0 && u % 0x1000 == 0) by (bit_vector)
        requires
            b == (((instruction >> 31) & 0x1) << 12) | (((instruction >> 7) & 0x1) << 11)
                | (((instruction >> 25) & 0x3f) << 5) | (((instruction >> 8) & 0xf) << 1),
            j == (((instruction >> 31) & 0x1) << 20) | (((instruction >> 12) & 0xff) << 12)
                | (((instruction >> 20) & 0x1) << 11) | (((instruction >> 21) & 0x3ff) << 1),
            u == (instruction >> 12) << 12,
    ;
}

/// An opcode belongs to at most one class: the ALU opcodes are none of the other six.
pub proof fn lemma_opcode_classes(instruction: u32)
    ensures
        is_alu_opcode(opcode_of(instruction)) ==> opcode_of(instruction) == 0b001_0011
            || opcode_of(instruction) == 0b011_0011,
{
    let opcode = instruction & 0x7f;
    assert(opcode & 0b101_1111 == 0b001_0011 ==> opcode == 0b001_0011 || opcode == 0b011_0011)
        by (bit_vector)
        requires
            opcode == instruction & 0x7f,
    ;
}

/// Every immediate fits in a signed 32-bit word.
pub proof fn lemma_immediate_fits(instruction: u32)
    ensures
        -0x8000_0000 <= immediate(instruction) < 0x8000_0000,
        (immediate(instruction) as i32) as int == immediate(instruction),
{
    lemma_field_widths(instruction);
}

/// The decode stage: field extraction, register read, classification and immediate
/// formation.
pub struct Decode {
    de_val: DecodedValues,
    de_val_ready: DecodedValues,
}

impl Decode {
    /// A stage that has decoded nothing: both records zero.
    pub fn new() -> (stage: Self)
        ensures
            stage.working() == DecodedValues::zero(),
            stage.ready() == DecodedValues::zero(),
    {
        Self { de_val: DecodedValues::new(), de_val_ready: DecodedValues::new() }
    }
}

impl PipelineStage<InstructionFetchValues, DecodedValues> for Decode {
    type Shared = RegFile;

    open spec fn slot() -> Stage {
        Stage::DE
    }

    closed spec fn working(&self) -> DecodedValues {
        self.de_val
    }

    closed spec fn ready(&self) -> DecodedValues {
        self.de_val_ready
    }

    open spec fn shared_wf(shared: &RegFile) -> bool {
        true
    }

    open spec fn admits(values: InstructionFetchValues) -> bool {
        true
    }

    /// On a live tick the working record becomes the decoded form of `values`. Decoding
    /// never faults and never changes the register file.
    fn compute(&mut self, values: InstructionFetchValues, cursor: Stage, shared: &mut RegFile)
        -> (outcome: Result<(), PipelineFault>)
        ensures
            outcome is Ok,
            *final(shared) == *old(shared),
            cursor == Stage::DE ==> final(self).working() == decode_spec(values, old(shared)@),
    {
        if self.should_stall(cursor) {
            return Ok(());
        }
        let instruction = values.instruction;
        proof {
            lemma_field_widths(instruction);
            lemma_immediate_fits(instruction);
        }
        let opcode = instruction & 0x7f;
        let rd = (instruction >> 7) & 0x1f;
        let funct3 = (instruction >> 12) & 0x7;
        let imm11_0 = (instruction >> 20) & 0xfff;
        let funct7 = (instruction >> 25) & 0x7f;
        let rs1_addr = (instruction >> 15) & 0x1f;
        let rs2_addr = (instruction >> 20) & 0x1f;

        let rs1 = read_register(shared, rs1_addr as usize);
        let rs2 = read_register(shared, rs2_addr as usize);

        let is_alu_operation = opcode & 0b101_1111 == 0b001_0011;
        let is_store = opcode == 0b010_0011;
        let is_lui = opcode == 0b011_0111;
        let is_load = opcode == 0b000_0011;
        let is_jal = opcode == 0b110_1111;
        let is_jalr = opcode == 0b110_0111;
        let is_branch = opcode == 0b110_0011;

        let u_imm = ((instruction >> 12) << 12) as i32;
        let s_field = (funct7 << 5) | rd;
        let s_imm = ((s_field << 20) as i32) >> 20;
        let i_imm = ((imm11_0 << 20) as i32) >> 20;
        let j_field = (((instruction >> 31) & 0x1) << 20) | (((instruction >> 12) & 0xff) << 12)
            | (((instruction >> 20) & 0x1) << 11) | (((instruction >> 21) & 0x3ff) << 1);
        let j_imm = ((j_field << 11) as i32) >> 11;
        let b_field = (((instruction >> 31) & 0x1) << 12) | (((instruction >> 7) & 0x1) << 11)
            | (((instruction >> 25) & 0x3f) << 5) | (((instruction >> 8) & 0xf) << 1);
        let b_imm = ((b_field << 19) as i32) >> 19;
        proof {
            lemma_reinterpret((instruction >> 12) << 12, 0);
            lemma_sign_extend_by_shifts(s_field);
            lemma_sign_extend_by_shifts(imm11_0);
            lemma_sign_extend_by_shifts(j_field);
            lemma_sign_extend_by_shifts(b_field);
        }

        let imm32 = if is_store {
            s_imm
        } else if is_lui {
            u_imm
        } else if is_alu_operation || is_load || is_jalr {
            i_imm
        } else if is_jal {
            j_imm
        } else if is_branch {
            b_imm
        } else {
            0_i32
        };

        self.de_val = DecodedValues {
            instruction,
            opcode,
            rd,
            funct3,
            rs1,
            rs2,
            imm11_0,
            funct7,
            shamt: rs2_addr,
            pc: values.pc,
            pc_plus_four: values.pc_plus_four,
            is_alu_operation,
            is_store,
            is_load,
            is_lui,
            is_jal,
            is_jalr,
            is_branch,
            imm32,
        };
        Ok(())
    }

    fn should_stall(&self, cursor: Stage) -> (stalled: bool) {
        !matches!(cursor, Stage::DE)
    }

    fn get_values_out(&self) -> (values: DecodedValues) {
        self.de_val_ready
    }

    fn latch_next(&mut self) {
        self.de_val_ready = self.de_val;
    }
}

} // verus!
