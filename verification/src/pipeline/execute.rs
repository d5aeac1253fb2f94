use vstd::prelude::*;
use super::{PipelineFault, PipelineStage, Stage};
use super::decode::DecodedValues;
use super::instruction_fetch::PCUpdateInfo;
use crate::word::{
    add_signed,
    add_wrapping,
    less_signed,
    lemma_reinterpret,
    signed,
    sub_wrapping,
    wrap32,
};

verus! {

/// The operation that `funct3` selects in the ALU.
#[allow(clippy::upper_case_acronyms)]
#[derive(Debug, Clone, Copy, PartialEq, Eq, Structural)]
pub enum ALUOperation {
    /// Addition, or subtraction in the alternate register form.
    ADD,
    SLL,
    SLT,
    SLTU,
    XOR,
    /// Logical shift right, or arithmetic in the alternate form.
    SRL,
    OR,
    AND,
}

impl ALUOperation {
    /// The operation with the given three-bit code.
    pub open spec fn from_funct3(funct3: u32) -> Option<ALUOperation> {
        if funct3 == 0b000 {
            Some(ALUOperation::ADD)
        } else if funct3 == 0b001 {
            Some(ALUOperation::SLL)
        } else if funct3 == 0b010 {
            Some(ALUOperation::SLT)
        } else if funct3 == 0b011 {
            Some(ALUOperation::SLTU)
        } else if funct3 == 0b100 {
            Some(ALUOperation::XOR)
        } else if funct3 == 0b101 {
            Some(ALUOperation::SRL)
        } else if funct3 == 0b110 {
            Some(ALUOperation::OR)
        } else if funct3 == 0b111 {
            Some(ALUOperation::AND)
        } else {
            None
        }
    }

    /// Reads an operation from its code; `None` for a number above seven.
    pub fn try_from_u32(number: u32) -> (operation: Option<ALUOperation>)
        ensures
            operation == Self::from_funct3(number),
    {
        match number {
            0b000 => Some(ALUOperation::ADD),
            0b001 => Some(ALUOperation::SLL),
            0b010 => Some(ALUOperation::SLT),
            0b011 => Some(ALUOperation::SLTU),
            0b100 => Some(ALUOperation::XOR),
            0b101 => Some(ALUOperation::SRL),
            0b110 => Some(ALUOperation::OR),
            0b111 => Some(ALUOperation::AND),
            _ => None,
        }
    }
}

/// The comparison that `funct3` selects in a conditional branch.
#[allow(clippy::upper_case_acronyms)]
#[derive(Debug, Clone, Copy, PartialEq, Eq, Structural)]
pub enum BranchType {
    BEQ,
    BNE,
    BLT,
    BGE,
    BLTU,
    BGEU,
}

impl BranchType {
    /// The comparison with the given three-bit code; codes 2 and 3 name none.
    pub open spec fn from_funct3(funct3: u32) -> Option<BranchType> {
        if funct3 == 0b000 {
            Some(BranchType::BEQ)
        } else if funct3 == 0b001 {
            Some(BranchType::BNE)
        } else if funct3 == 0b100 {
            Some(BranchType::BLT)
        } else if funct3 == 0b101 {
            Some(BranchType::BGE)
        } else if funct3 == 0b110 {
            Some(BranchType::BLTU)
        } else if funct3 == 0b111 {
            Some(BranchType::BGEU)
        } else {
            None
        }
    }

    /// Reads a comparison from its code; `None` where the code names none.
    pub fn try_from_u32(number: u32) -> (branch: Option<BranchType>)
        ensures
            branch == Self::from_funct3(number),
    {
        match number {
            0b000 => Some(BranchType::BEQ),
            0b001 => Some(BranchType::BNE),
            0b100 => Some(BranchType::BLT),
            0b101 => Some(BranchType::BGE),
            0b110 => Some(BranchType::BLTU),
            0b111 => Some(BranchType::BGEU),
            _ => None,
        }
    }
}

/// What the execute stage hands to the memory stage: the decoded fields it passes on
/// and the result of the ALU.
#[derive(Debug, Clone, Copy, PartialEq, Eq, Structural)]
pub struct ExecutionValues {
    pub rd: u32,
    pub funct3: u32,
    pub rs1: u32,
    pub rs2: u32,
    pub imm11_0: u32,
    pub shamt: u32,
    pub imm32: i32,
    pub pc: u32,
    pub pc_plus_four: u32,
    pub alu_result: u32,
    pub is_alu_operation: bool,
    pub is_store: bool,
    pub is_load: bool,
    pub is_lui: bool,
    pub is_jal: bool,
    pub is_jalr: bool,
    pub is_branch: bool,
}

impl ExecutionValues {
    /// The record with every field zero and no class.
    pub open spec fn zero() -> ExecutionValues {
        ExecutionValues {
            rd: 0,
            funct3: 0,
            rs1: 0,
            rs2: 0,
            imm11_0: 0,
            shamt: 0,
            imm32: 0,
            pc: 0,
            pc_plus_four: 0,
            alu_result: 0,
            is_alu_operation: false,
            is_store: false,
            is_load: false,
            is_lui: false,
            is_jal: false,
            is_jalr: false,
            is_branch: false,
        }
    }

    /// The record with every field zero and no class.
    pub fn new() -> (values: Self)
        ensures
            values == Self::zero(),
    {
        Self {
            rd: 0,
            funct3: 0,
            rs1: 0,
            rs2: 0,
            imm11_0: 0,
            shamt: 0,
            imm32: 0,
            pc: 0,
            pc_plus_four: 0,
            alu_result: 0,
            is_alu_operation: false,
            is_store: false,
            is_load: false,
            is_lui: false,
            is_jal: false,
            is_jalr: false,
            is_branch: false,
        }
    }
}

/// Whether the second operand comes from a register: bit 5 of the opcode is set and the
/// instruction is not JALR.
pub open spec fn is_register_op(d: DecodedValues) -> bool {
    (d.opcode >> 5) & 1 == 1 && !d.is_jalr
}

/// Whether bit 10 of `imm[11:0]` is set: SUB in place of ADD, SRA in place of SRL.
pub open spec fn is_alternate(d: DecodedValues) -> bool {
    (d.imm11_0 >> 10) & 1 == 1
}

/// The second operand of the comparisons: `rs2`, or the raw twelve-bit immediate field.
pub open spec fn right_operand(d: DecodedValues) -> u32 {
    if is_register_op(d) {
        d.rs2
    } else {
        d.imm11_0
    }
}

/// The second operand of XOR, OR and AND: `rs2`, or the sign-extended immediate.
pub open spec fn logical_operand(d: DecodedValues) -> u32 {
    if is_register_op(d) {
        d.rs2
    } else {
        wrap32(d.imm32 as int)
    }
}

/// How far a shift moves: the low five bits of `rs2`, or of `shamt`.
pub open spec fn shift_amount(d: DecodedValues) -> u32 {
    if is_register_op(d) {
        d.rs2 & 0x1f
    } else {
        d.shamt & 0x1f
    }
}

/// SLL: `value` moved left by `amount` bits, the bits that leave the word dropped.
pub open spec fn shift_left(value: u32, amount: u32) -> u32 {
    value << amount
}

/// SRL: `value` moved right by `amount` bits, zeros coming in.
pub open spec fn shift_right_logical(value: u32, amount: u32) -> u32 {
    value >> amount
}

/// SRA: `value` moved right by `amount` bits, copies of its sign bit coming in.
pub open spec fn shift_right_arithmetic(value: u32, amount: u32) -> u32 {
    ((value as i32) >> amount) as u32
}

/// Whether the instruction is a conditional branch whose condition holds.
pub open spec fn branch_taken(d: DecodedValues) -> bool {
    d.is_branch && match BranchType::from_funct3(d.funct3) {
        Some(BranchType::BEQ) => d.rs1 == d.rs2,
        Some(BranchType::BNE) => d.rs1 != d.rs2,
        Some(BranchType::BLT) => signed(d.rs1) < signed(d.rs2),
        Some(BranchType::BGE) => signed(d.rs1) >= signed(d.rs2),
        Some(BranchType::BLTU) => d.rs1 < d.rs2,
        Some(BranchType::BGEU) => d.rs1 >= d.rs2,
        None => false,
    }
}

/// The output of the adder, which is also the target of a jump or a taken branch:
/// `(rs1 + imm32)` with bit 0 cleared for JALR, `pc + imm32` for JAL and for a taken
/// branch, and the sum or difference of the operands otherwise.
pub open spec fn add_result(d: DecodedValues) -> u32 {
    if d.is_jalr {
        wrap32(d.rs1 + d.imm32) & 0xFFFF_FFFE
    } else if d.is_jal || branch_taken(d) {
        wrap32(d.pc + d.imm32)
    } else if is_register_op(d) {
        if is_alternate(d) {
            wrap32(d.rs1 - d.rs2)
        } else {
            wrap32(d.rs1 + d.rs2)
        }
    } else {
        wrap32(d.rs1 + d.imm32)
    }
}

/// The result of the ALU. An instruction without a class yields zero.
pub open spec fn alu_result(d: DecodedValues) -> u32 {
    if !d.has_class() {
        0
    } else {
        match ALUOperation::from_funct3(d.funct3) {
            Some(ALUOperation::ADD) => add_result(d),
            Some(ALUOperation::SLL) => shift_left(d.rs1, shift_amount(d)),
            Some(ALUOperation::SLT) => if signed(d.rs1) < signed(right_operand(d)) {
                1
            } else {
                0
            },
            Some(ALUOperation::SLTU) => if d.rs1 < right_operand(d) {
                1
            } else {
                0
            },
            Some(ALUOperation::XOR) => d.rs1 ^ logical_operand(d),
            Some(ALUOperation::SRL) => if is_alternate(d) {
                shift_right_arithmetic(d.rs1, shift_amount(d))
            } else {
                shift_right_logical(d.rs1, shift_amount(d))
            },
            Some(ALUOperation::OR) => d.rs1 | logical_operand(d),
            Some(ALUOperation::AND) => d.rs1 & logical_operand(d),
            None => 0,
        }
    }
}

/// The record that the execute stage produces from a decoded instruction.
pub open spec fn execute_spec(d: DecodedValues) -> ExecutionValues {
    ExecutionValues {
        rd: d.rd,
        funct3: d.funct3,
        rs1: d.rs1,
        rs2: d.rs2,
        imm11_0: d.imm11_0,
        shamt: d.shamt,
        imm32: d.imm32,
        pc: d.pc,
        pc_plus_four: d.pc_plus_four,
        alu_result: alu_result(d),
        is_alu_operation: d.is_alu_operation,
        is_store: d.is_store,
        is_load: d.is_load,
        is_lui: d.is_lui,
        is_jal: d.is_jal,
        is_jalr: d.is_jalr,
        is_branch: d.is_branch,
    }
}

/// The PC redirect that a decoded instruction asks for: jumps and taken branches
/// redirect to the adder's output, everything else lets the PC advance.
pub open spec fn redirect_spec(d: DecodedValues) -> PCUpdateInfo {
    PCUpdateInfo {
        should_update: d.is_jal || d.is_jalr || branch_taken(d),
        pc_new: add_result(d),
    }
}

/// The shifts as arithmetic, with `1 << amount` for the power of two: SLL multiplies
/// modulo 2^32, SRL divides, and SRA divides the signed reading, rounding down.
pub proof fn lemma_shifts_are_arithmetic(value: u32, amount: u32)
    requires
        amount < 32,
    ensures
        shift_left(value, amount) == wrap32(value * (1u32 << amount)),
        shift_right_logical(value, amount) == value / (1u32 << amount),
        signed(shift_right_arithmetic(value, amount)) == signed(value) / ((1u32 << amount) as int),
{
    let power = 1u32 << amount;
    let left = value << amount;
    let right = value >> amount;
    let arithmetic = ((value as i32) >> amount) as u32;
    assert(amount < 32 ==> power > 0 && left == (value * power) % 0x1_0000_0000
        && right == value / power) by (bit_vector)
        requires
            power == 1u32 << amount,
            left == value << amount,
            right == value >> amount,
    ;
    assert(amount < 32 && value < 0x8000_0000u32 ==> arithmetic == value >> amount)
        by (bit_vector)
        requires
            arithmetic == ((value as i32) >> amount) as u32,
    ;
    if value >= 0x8000_0000u32 {
        let flipped = !value;
        let moved = flipped >> amount;
        assert(amount < 32 ==> arithmetic == !moved && moved == flipped / power
            && flipped == 0xFFFF_FFFF - value && !moved == 0xFFFF_FFFF - moved) by (bit_vector)
            requires
                value >= 0x8000_0000u32,
                power == 1u32 << amount,
                arithmetic == ((value as i32) >> amount) as u32,
                flipped == !value,
                moved == flipped >> amount,
        ;
        // With f for `flipped` and p for `power`: signed(value) = -(f + 1), and rounding
        // down, -(f + 1) / p = -(f / p) - 1.
        let q = flipped / power;
        let r = flipped % power;
        assert(flipped == q * power + r) by {
            vstd::arithmetic::div_mod::lemma_fundamental_div_mod(flipped as int, power as int);
        }
        assert(signed(value) == (-q - 1) * power + (power - 1 - r)) by (nonlinear_arith)
            requires
                signed(value) == -(flipped + 1),
                flipped == q * power + r,
        ;
        vstd::arithmetic::div_mod::lemma_fundamental_div_mod_converse(
            signed(value),
            power as int,
            -q - 1,
            power - 1 - r,
        );
    }
}

/// SLL followed by SRL by the same amount keeps the low bits of a value and clears its
/// top `amount` bits; a value whose top bits are clear already, such as one that SRL has
/// moved down by `amount`, comes back whole.
pub proof fn lemma_shift_left_then_right(value: u32, amount: u32)
    requires
        amount < 32,
    ensures
        shift_right_logical(shift_left(value, amount), amount) == value & (0xFFFF_FFFFu32
            >> amount),
        shift_right_logical(shift_left(shift_right_logical(value, amount), amount), amount)
            == shift_right_logical(value, amount),
{
    assert(amount < 32 ==> (value << amount) >> amount == value & (0xFFFF_FFFFu32 >> amount)
        && ((value >> amount) << amount) >> amount == value >> amount) by (bit_vector);
}

/// SRA keeps the sign: the result is negative exactly when the value is. A shift by
/// zero keeps the value.
pub proof fn lemma_arithmetic_shift_keeps_sign(value: u32, amount: u32)
    requires
        amount < 32,
    ensures
        signed(shift_right_arithmetic(value, amount)) < 0 <==> signed(value) < 0,
        amount == 0 ==> shift_right_arithmetic(value, amount) == value,
{
    let shifted = ((value as i32) >> amount) as u32;
    assert(amount < 32 ==> ((shifted >= 0x8000_0000u32) == (value >= 0x8000_0000u32))
        && (amount == 0 ==> shifted == value)) by (bit_vector)
        requires
            shifted == ((value as i32) >> amount) as u32,
    ;
}

/// The ALU's SLL on `first`, followed by its SRL by the same amount on the result, gives
/// the first operand of `first` with its top bits cleared.
pub proof fn lemma_alu_sll_then_srl(first: DecodedValues, second: DecodedValues)
    requires
        first.has_class() && first.funct3 == 0b001,
        second.has_class() && second.funct3 == 0b101 && !is_alternate(second),
        second.rs1 == alu_result(first),
        shift_amount(second) == shift_amount(first),
    ensures
        alu_result(second) == first.rs1 & (0xFFFF_FFFFu32 >> shift_amount(first)),
{
    lemma_shift_amount_bound(first);
    lemma_shift_left_then_right(first.rs1, shift_amount(first));
}

/// The ALU's SRA gives a negative result exactly for a negative operand.
pub proof fn lemma_alu_sra_keeps_sign(d: DecodedValues)
    requires
        d.has_class() && d.funct3 == 0b101 && is_alternate(d),
    ensures
        signed(alu_result(d)) < 0 <==> signed(d.rs1) < 0,
{
    lemma_shift_amount_bound(d);
    lemma_arithmetic_shift_keeps_sign(d.rs1, shift_amount(d));
}

/// A shift moves by less than the width of a word.
pub proof fn lemma_shift_amount_bound(d: DecodedValues)
    ensures
        shift_amount(d) < 32,
{
    let a = d.rs2;
    let b = d.shamt;
    assert(a & 0x1f < 32 && b & 0x1f < 32) by (bit_vector);
}

/// The execute stage: the ALU, the branch decision and the PC redirect.
pub struct Execute {
    pc_update_info: PCUpdateInfo,
    pc_update_info_ready: PCUpdateInfo,
    exe_val: ExecutionValues,
    exe_val_ready: ExecutionValues,
}

impl Execute {
    /// The redirect record that `compute` fills.
    pub closed spec fn redirect(&self) -> PCUpdateInfo {
        self.pc_update_info
    }

    /// The redirect record that the fetch stage reads.
    pub closed spec fn redirect_ready(&self) -> PCUpdateInfo {
        self.pc_update_info_ready
    }

    /// A stage that has executed nothing: zero records, no redirect.
    pub fn new() -> (stage: Self)
        ensures
            stage.working() == ExecutionValues::zero(),
            stage.ready() == ExecutionValues::zero(),
            stage.redirect() == (PCUpdateInfo { should_update: false, pc_new: 0 }),
            stage.redirect_ready() == (PCUpdateInfo { should_update: false, pc_new: 0 }),
    {
        let idle = PCUpdateInfo { should_update: false, pc_new: 0 };
        Self {
            pc_update_info: idle,
            pc_update_info_ready: idle,
            exe_val: ExecutionValues::new(),
            exe_val_ready: ExecutionValues::new(),
        }
    }

    /// The latched redirect record.
    pub fn get_pc_update_info(&self) -> (info: PCUpdateInfo)
        ensures
            info == self.redirect_ready(),
    {
        self.pc_update_info_ready
    }
}

impl PipelineStage<DecodedValues, ExecutionValues> for Execute {
    type Shared = ();

    open spec fn slot() -> Stage {
        Stage::EXE
    }

    closed spec fn working(&self) -> ExecutionValues {
        self.exe_val
    }

    closed spec fn ready(&self) -> ExecutionValues {
        self.exe_val_ready
    }

    open spec fn shared_wf(shared: &()) -> bool {
        true
    }

    open spec fn admits(values: DecodedValues) -> bool {
        true
    }

    /// On a live tick the working records become what `execute_spec` and `redirect_spec`
    /// give for `values`; the execute stage never faults.
    fn compute(&mut self, values: DecodedValues, cursor: Stage, shared: &mut ())
        -> (outcome: Result<(), PipelineFault>)
        ensures
            outcome is Ok,
            final(self).redirect_ready() == old(self).redirect_ready(),
            cursor == Stage::EXE ==> final(self).working() == execute_spec(values),
            cursor == Stage::EXE ==> final(self).redirect() == redirect_spec(values),
    {
        if self.should_stall(cursor) {
            return Ok(());
        }
        let de_val = values;

        let has_class = de_val.is_alu_operation || de_val.is_store || de_val.is_load
            || de_val.is_lui || de_val.is_jal || de_val.is_jalr || de_val.is_branch;
        let is_register_op = (de_val.opcode >> 5) & 1 == 1 && !de_val.is_jalr;
        let is_alternate = (de_val.imm11_0 >> 10) & 1 == 1;

        let right_operant = if is_register_op {
            de_val.rs2
        } else {
            de_val.imm11_0
        };
        let logical_operant = if is_register_op {
            de_val.rs2
        } else {
            proof {
                lemma_reinterpret(0, de_val.imm32);
            }
            de_val.imm32 as u32
        };
        let shamt = if is_register_op {
            de_val.rs2 & 0x1f
        } else {
            de_val.shamt & 0x1f
        };
        proof {
            lemma_shift_amount_bound(de_val);
        }

        let sltu_result = de_val.rs1 < right_operant;
        let slt_result = less_signed(de_val.rs1, right_operant);

        let beq_result = de_val.rs1 == de_val.rs2;
        let blt_result = less_signed(de_val.rs1, de_val.rs2);
        let bltu_result = de_val.rs1 < de_val.rs2;
        let branch_type = BranchType::try_from_u32(de_val.funct3);
        let branch_condition_met = de_val.is_branch && match branch_type {
            Some(BranchType::BEQ) => beq_result,
            Some(BranchType::BNE) => !beq_result,
            Some(BranchType::BLT) => blt_result,
            Some(BranchType::BGE) => !blt_result,
            Some(BranchType::BLTU) => bltu_result,
            Some(BranchType::BGEU) => !bltu_result,
            None => false,
        };

        let add_result = if de_val.is_jalr {
            add_signed(de_val.rs1, de_val.imm32) & 0xFFFF_FFFE
        } else if de_val.is_jal || branch_condition_met {
            add_signed(de_val.pc, de_val.imm32)
        } else if is_register_op {
            if is_alternate {
                sub_wrapping(de_val.rs1, de_val.rs2)
            } else {
                add_wrapping(de_val.rs1, de_val.rs2)
            }
        } else {
            add_signed(de_val.rs1, de_val.imm32)
        };

        let sll_result = de_val.rs1 << shamt;
        let srl_result = if is_alternate {
            ((de_val.rs1 as i32) >> shamt) as u32
        } else {
            de_val.rs1 >> shamt
        };

        let and_result = de_val.rs1 & logical_operant;
        let or_result = de_val.rs1 | logical_operant;
        let xor_result = de_val.rs1 ^ logical_operant;

        let alu_result = if !has_class {
            0_u32
        } else {
            match ALUOperation::try_from_u32(de_val.funct3) {
                Some(ALUOperation::ADD) => add_result,
                Some(ALUOperation::SLL) => sll_result,
                Some(ALUOperation::SRL) => srl_result,
                Some(ALUOperation::SLTU) => if sltu_result {
                    1_u32
                } else {
                    0_u32
                },
                Some(ALUOperation::SLT) => if slt_result {
                    1_u32
                } else {
                    0_u32
                },
                Some(ALUOperation::AND) => and_result,
                Some(ALUOperation::OR) => or_result,
                Some(ALUOperation::XOR) => xor_result,
                None => 0_u32,
            }
        };

        self.exe_val = ExecutionValues {
            rd: de_val.rd,
            funct3: de_val.funct3,
            rs1: de_val.rs1,
            rs2: de_val.rs2,
            imm11_0: de_val.imm11_0,
            shamt: de_val.shamt,
            imm32: de_val.imm32,
            pc: de_val.pc,
            pc_plus_four: de_val.pc_plus_four,
            alu_result,
            is_alu_operation: de_val.is_alu_operation,
            is_store: de_val.is_store,
            is_load: de_val.is_load,
            is_lui: de_val.is_lui,
            is_jal: de_val.is_jal,
            is_jalr: de_val.is_jalr,
            is_branch: de_val.is_branch,
        };
        self.pc_update_info = PCUpdateInfo {
            should_update: de_val.is_jal || de_val.is_jalr || branch_condition_met,
            pc_new: add_result,
        };
        Ok(())
    }

    fn should_stall(&self, cursor: Stage) -> (stalled: bool) {
        !matches!(cursor, Stage::EXE)
    }

    fn get_values_out(&self) -> (values: ExecutionValues) {
        self.exe_val_ready
    }

    /// The redirect record is latched together with the output record.
    fn latch_next(&mut self)
        ensures
            final(self).redirect_ready() == old(self).redirect(),
            final(self).redirect() == old(self).redirect(),
    {
        self.exe_val_ready = self.exe_val;
        self.pc_update_info_ready = self.pc_update_info;
    }
}

} // verus!
