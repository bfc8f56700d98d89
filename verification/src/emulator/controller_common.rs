use vstd::prelude::*;

use crate::isa::definitions::spec_decode;
use crate::isa::instruction::imm_for_format;

verus! {

/// The operations of the arithmetic logic unit.
#[derive(Copy, Clone, Debug, PartialEq, Eq, Structural)]
pub enum ALUOp {
    ADD,
    SUB,
    XOR,
    OR,
    AND,
    SLL,
    SRL,
    SRA,
    EQ,
    NEQ,
    LT,
    GE,
    LTU,
    GEU,
    SELB,
}

/// 1 for true, 0 for false.
pub open spec fn flag(b: bool) -> u32 {
    if b {
        1
    } else {
        0
    }
}

/// What the ALU computes from two operands; addition and subtraction wrap around modulo 2^32
/// (as RV32I's `add` and `sub` do).
pub open spec fn spec_alu(op: ALUOp, a: u32, b: u32) -> u32 {
    match op {
        ALUOp::ADD => ((a + b) % 0x1_0000_0000) as u32,
        ALUOp::SUB => ((a - b + 0x1_0000_0000) % 0x1_0000_0000) as u32,
        ALUOp::XOR => a ^ b,
        ALUOp::OR => a | b,
        ALUOp::AND => a & b,
        ALUOp::SLL => a << (b & 0x1f),
        ALUOp::SRL => a >> (b & 0x1f),
        ALUOp::SRA => ((a as i32) >> (b & 0x1f)) as u32,
        ALUOp::EQ => flag(a == b),
        ALUOp::NEQ => flag(a != b),
        ALUOp::LT => flag((a as i32) < (b as i32)),
        ALUOp::GE => flag((a as i32) >= (b as i32)),
        ALUOp::LTU => flag(a < b),
        ALUOp::GEU => flag(a >= b),
        ALUOp::SELB => b,
    }
}

impl ALUOp {
    /// Applies the operation to two operands (see `spec_alu`).
    pub fn apply(self, a: u32, b: u32) -> (r: u32)
        ensures
            r == spec_alu(self, a, b),
    {
        let shamt: u32 = b & 0x1f;
        assert(shamt < 32) by (bit_vector)
            requires
                shamt == b & 0x1f,
        ;
        match self {
            ALUOp::ADD => a.wrapping_add(b),
            ALUOp::SUB => a.wrapping_sub(b),
            ALUOp::XOR => a ^ b,
            ALUOp::OR => a | b,
            ALUOp::AND => a & b,
            ALUOp::SLL => a << shamt,
            ALUOp::SRL => a >> shamt,
            ALUOp::SRA => ((a as i32) >> shamt) as u32,
            ALUOp::EQ => if a == b { 1 } else { 0 },
            ALUOp::NEQ => if a != b { 1 } else { 0 },
            ALUOp::LT => if (a as i32) < (b as i32) { 1 } else { 0 },
            ALUOp::GE => if (a as i32) >= (b as i32) { 1 } else { 0 },
            ALUOp::LTU => if a < b { 1 } else { 0 },
            ALUOp::GEU => if a >= b { 1 } else { 0 },
            ALUOp::SELB => b,
        }
    }
}

/// Each comparison of the ALU answers 0 or 1, and the comparisons come in complementary pairs:
/// equal and not equal, signed less than and greater or equal, unsigned less than and greater
/// or equal.
pub proof fn lemma_alu_comparisons_complement(a: u32, b: u32)
    ensures
        spec_alu(ALUOp::EQ, a, b) + spec_alu(ALUOp::NEQ, a, b) == 1,
        spec_alu(ALUOp::LT, a, b) + spec_alu(ALUOp::GE, a, b) == 1,
        spec_alu(ALUOp::LTU, a, b) + spec_alu(ALUOp::GEU, a, b) == 1,
        spec_alu(ALUOp::EQ, a, b) <= 1,
        spec_alu(ALUOp::LT, a, b) <= 1,
        spec_alu(ALUOp::LTU, a, b) <= 1,
{
}

/// Subtraction undoes addition, also where the sum wraps around.
pub proof fn lemma_alu_sub_undoes_add(a: u32, b: u32)
    ensures
        spec_alu(ALUOp::SUB, spec_alu(ALUOp::ADD, a, b), b) == a,
{
    let s = spec_alu(ALUOp::ADD, a, b);
    if a + b < 0x1_0000_0000 {
        assert(s == a + b);
    } else {
        assert(s == a + b - 0x1_0000_0000);
    }
}

/// The signed comparisons are the unsigned ones after flipping the sign bit of both operands
/// (two's complement order), and ADD and SUB are addition and subtraction modulo 2^32: adding
/// then subtracting the same operand, or the other way round, gives the first operand back.
pub proof fn lemma_alu_signed_is_offset_unsigned(a: u32, b: u32)
    ensures
        spec_alu(ALUOp::LT, a, b) == spec_alu(ALUOp::LTU, a ^ 0x8000_0000, b ^ 0x8000_0000),
        spec_alu(ALUOp::GE, a, b) == spec_alu(ALUOp::GEU, a ^ 0x8000_0000, b ^ 0x8000_0000),
        spec_alu(ALUOp::ADD, spec_alu(ALUOp::SUB, a, b), b) == a,
        (spec_alu(ALUOp::ADD, a, b) as int - a - b) % 0x1_0000_0000 == 0,
{
    assert(((a as i32) < (b as i32)) == ((a ^ 0x8000_0000u32) < (b ^ 0x8000_0000u32))) by (bit_vector);
    let d = spec_alu(ALUOp::SUB, a, b);
    if a >= b {
        assert(d == a - b);
    } else {
        assert(d == a - b + 0x1_0000_0000);
    }
}

/// Addition and equality comparison are symmetric in their operands.
pub proof fn lemma_alu_symmetric(a: u32, b: u32)
    ensures
        spec_alu(ALUOp::ADD, a, b) == spec_alu(ALUOp::ADD, b, a),
        spec_alu(ALUOp::EQ, a, b) == spec_alu(ALUOp::EQ, b, a),
        spec_alu(ALUOp::XOR, a, b) == spec_alu(ALUOp::XOR, b, a),
{
    assert(a ^ b == b ^ a) by (bit_vector);
}

/// The immediate of an instruction word as the decoders of both pipelines pass it on.
pub open spec fn decoded_immediate(raw: u32) -> Option<u32> {
    match spec_decode(raw) {
        Some(def) => match imm_for_format(raw, def.format) {
            Some(i) => Some(i as u32),
            None => None,
        },
        None => None,
    }
}

/// The byte enables of an access width (none for no width).
pub open spec fn byte_enables(t: Option<LSUDataType>) -> [bool; 4] {
    match t {
        Some(t) => spec_byte_enable(t),
        None => [false, false, false, false],
    }
}

/// `data` with bits `size..32` set to bit `size - 1` (sign extension of a `size`-bit value).
pub open spec fn sign_extend(data: u32, size: u32) -> u32 {
    if (data >> ((size - 1) as u32)) & 1 == 1 {
        (0xFFFF_FFFFu32 << size) | data
    } else {
        data
    }
}

/// Sign extension of a loaded byte or half word gives the same value as reading its bits as a
/// signed number.
pub proof fn lemma_sign_extend_loads(data: u32)
    ensures
        data < 0x100 ==> sign_extend(data, 8) as i32 == (data as u8) as i8 as i32,
        data < 0x1_0000 ==> sign_extend(data, 16) as i32 == (data as u16) as i16 as i32,
{
    assert(data < 0x100 ==> (if (data >> 7u32) & 1 == 1 {
        (0xFFFF_FFFFu32 << 8u32) | data
    } else {
        data
    }) as i32 == (data as u8) as i8 as i32) by (bit_vector);
    assert(data < 0x1_0000 ==> (if (data >> 15u32) & 1 == 1 {
        (0xFFFF_FFFFu32 << 16u32) | data
    } else {
        data
    }) as i32 == (data as u16) as i16 as i32) by (bit_vector);
}

/// Where operand A of the ALU comes from.
#[derive(Copy, Clone, Debug, PartialEq, Eq, Structural)]
pub enum OpASel {
    PC,
    RF,
}

/// Where operand B of the ALU comes from.
#[derive(Copy, Clone, Debug, PartialEq, Eq, Structural)]
pub enum OpBSel {
    RF,
    IMM,
    Four,
}

/// Where the data written back to the register file comes from.
#[derive(Copy, Clone, Debug, PartialEq, Eq, Structural)]
pub enum DataDestSel {
    ALU,
    LSU,
}

/// The width of a load or store.
#[derive(Copy, Clone, Debug, PartialEq, Eq, Structural)]
pub enum LSUDataType {
    Word,
    HalfWord,
    Byte,
}

/// The bytes of a word that an access of the given width touches.
pub open spec fn spec_byte_enable(t: LSUDataType) -> [bool; 4] {
    match t {
        LSUDataType::Word => [true, true, true, true],
        LSUDataType::HalfWord => [true, true, false, false],
        LSUDataType::Byte => [true, false, false, false],
    }
}

/// The width of an access in bits.
pub open spec fn spec_size_in_bits(t: LSUDataType) -> usize {
    match t {
        LSUDataType::Word => 32,
        LSUDataType::HalfWord => 16,
        LSUDataType::Byte => 8,
    }
}

/// How many bytes of a word are enabled.
pub open spec fn enabled_lanes(be: [bool; 4]) -> int {
    (if be[0] { 1int } else { 0 }) + (if be[1] { 1int } else { 0 }) + (if be[2] { 1int } else { 0 }) + (
    if be[3] { 1int } else { 0 })
}

/// An access enables the low bytes of the word, as many as its width in bits divided by 8.
pub proof fn lemma_byte_enable_matches_width(t: LSUDataType)
    ensures
        8 * enabled_lanes(spec_byte_enable(t)) == spec_size_in_bits(t),
        forall|i: int, j: int|
            0 <= i <= j < 4 && #[trigger] spec_byte_enable(t)[j] ==> #[trigger] spec_byte_enable(t)[i],
{
}

impl LSUDataType {
    /// The bytes of a word that an access of this width touches (the low bytes first).
    pub fn byte_enable(&self) -> (r: [bool; 4])
        ensures
            r == spec_byte_enable(*self),
    {
        match self {
            LSUDataType::Word => [true, true, true, true],
            LSUDataType::HalfWord => [true, true, false, false],
            LSUDataType::Byte => [true, false, false, false],
        }
    }

    /// The width of an access in bits.
    pub fn size_in_bits(&self) -> (r: usize)
        ensures
            r == spec_size_in_bits(*self),
    {
        match self {
            LSUDataType::Word => 32,
            LSUDataType::HalfWord => 16,
            LSUDataType::Byte => 8,
        }
    }
}

/// Where the next program counter comes from.
#[derive(Copy, Clone, Debug, Default, PartialEq, Eq, Structural)]
pub enum PCSel {
    #[default]
    PC4,
    JMP,
}

} // verus!
