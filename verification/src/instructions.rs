//! The primitive instructions, their 32-bit wire form and its decoder.

use crate::registers::{lemma_index_round_trip, register_of_index, written, Register};
use vstd::prelude::*;

verus! {

/// Opcode shared by the register-format instructions.
pub const OP_SPECIAL: u32 = 0x00;

/// Opcode of `addi`.
pub const OP_ADDI: u32 = 0x09;

/// Opcode of `ori`.
pub const OP_ORI: u32 = 0x0D;

/// Opcode of `lui`.
pub const OP_LUI: u32 = 0x0F;

/// Function code of `addu`.
pub const FUNCT_ADDU: u32 = 0x21;

/// Function code of `syscall`.
pub const FUNCT_SYSCALL: u32 = 0x0C;

/// A primitive instruction: what the simulator executes directly.
#[derive(Debug, Clone, Copy, PartialEq, Eq, Structural)]
pub enum Instruction {
    AddImmediate { res: Register, reg: Register, imm: i16 },
    AddUnsigned { res: Register, reg: Register, ret: Register },
    LoadUpperImmediate { res: Register, imm: i16 },
    OrImmediate { res: Register, reg: Register, imm: i16 },
    SystemCall,
}

/// The register-format word: opcode, `rs`, `rt`, `rd`, a zero shift amount
/// and the function code, from the top bit down.
pub open spec fn r_format_word(opcode: u32, funct: u32, rs: Register, rt: Register, rd: Register) -> u32 {
    (opcode << 26) | ((rs.spec_index() as u32) << 21) | ((rt.spec_index() as u32) << 16) | ((
    rd.spec_index() as u32) << 11) | (0u32 << 6) | funct
}

/// The word of a register-format instruction without operands.
pub open spec fn r_format_syscall_word(opcode: u32, funct: u32) -> u32 {
    (opcode << 26) | funct
}

/// The immediate-format word: opcode, `rs`, `rt` and the low 16 bits of
/// the immediate.
pub open spec fn i_format_word(opcode: u32, rs: Register, rt: Register, imm: i16) -> u32 {
    (opcode << 26) | ((rs.spec_index() as u32) << 21) | ((rt.spec_index() as u32) << 16) | ((
    imm as u16) as u32)
}

/// The jump-format word: opcode and the low 26 bits of the target.
pub open spec fn j_format_word(opcode: u32, addr: u32) -> u32 {
    (opcode << 26) | (addr & 0x03FF_FFFF)
}

/// Builds a register-format word.
pub fn r_format(opcode: u32, funct: u32, rs: Register, rt: Register, rd: Register) -> (word: u32)
    ensures
        word == r_format_word(opcode, funct, rs, rt, rd),
{
    let rs: u32 = rs.index() as u32;
    let rt: u32 = rt.index() as u32;
    let rd: u32 = rd.index() as u32;
    let shamt: u32 = 0;
    (opcode << 26) | (rs << 21) | (rt << 16) | (rd << 11) | (shamt << 6) | funct
}

/// Builds the word of a register-format instruction without operands.
pub fn r_format_syscall(opcode: u32, funct: u32) -> (word: u32)
    ensures
        word == r_format_syscall_word(opcode, funct),
{
    (opcode << 26) | funct
}

/// Builds an immediate-format word.
pub fn i_format(opcode: u32, rs: Register, rt: Register, imm: i16) -> (word: u32)
    ensures
        word == i_format_word(opcode, rs, rt, imm),
{
    let rs: u32 = rs.index() as u32;
    let rt: u32 = rt.index() as u32;
    let low: u16 = #[verifier::truncate]
    (imm as u16);
    (opcode << 26) | (rs << 21) | (rt << 16) | (low as u32)
}

/// Builds a jump-format word.
pub fn j_format(opcode: u32, addr: u32) -> (word: u32)
    ensures
        word == j_format_word(opcode, addr),
{
    (opcode << 26) | (addr & 0x03FF_FFFF)
}

/// The instruction that a word encodes, read field by field; `None` where
/// the word is the wire form of no primitive instruction.
pub open spec fn decode_word(word: u32) -> Option<Instruction> {
    let opcode = word >> 26;
    let rs = register_of_index(((word >> 21) & 0x1F) as int);
    let rt = register_of_index(((word >> 16) & 0x1F) as int);
    let rd = register_of_index(((word >> 11) & 0x1F) as int);
    let imm = ((word & 0xFFFF) as u16) as i16;
    if rs is None || rt is None || rd is None {
        None
    } else if opcode == OP_ADDI {
        Some(Instruction::AddImmediate { res: rt->0, reg: rs->0, imm })
    } else if opcode == OP_ORI {
        Some(Instruction::OrImmediate { res: rt->0, reg: rs->0, imm })
    } else if opcode == OP_LUI && rs->0 == Register::Zero {
        Some(Instruction::LoadUpperImmediate { res: rt->0, imm })
    } else if opcode == OP_SPECIAL && word & 0x7FF == FUNCT_ADDU {
        Some(Instruction::AddUnsigned { res: rd->0, reg: rs->0, ret: rt->0 })
    } else if word == FUNCT_SYSCALL {
        Some(Instruction::SystemCall)
    } else {
        None
    }
}

impl Instruction {
    /// The instruction's wire form.
    pub open spec fn spec_encode(self) -> u32 {
        match self {
            Instruction::AddImmediate { res, reg, imm } => i_format_word(OP_ADDI, reg, res, imm),
            Instruction::AddUnsigned { res, reg, ret } => r_format_word(
                OP_SPECIAL,
                FUNCT_ADDU,
                reg,
                ret,
                res,
            ),
            Instruction::LoadUpperImmediate { res, imm } => i_format_word(
                OP_LUI,
                Register::Zero,
                res,
                imm,
            ),
            Instruction::OrImmediate { res, reg, imm } => i_format_word(OP_ORI, reg, res, imm),
            Instruction::SystemCall => r_format_syscall_word(OP_SPECIAL, FUNCT_SYSCALL),
        }
    }

    /// Encodes the instruction as a 32-bit word.
    pub fn encode(&self) -> (word: u32)
        ensures
            word == self.spec_encode(),
            decode_word(word) == Some(*self),
    {
        proof {
            lemma_decode_encode(*self);
        }
        match *self {
            Instruction::AddImmediate { res, reg, imm } => i_format(OP_ADDI, reg, res, imm),
            Instruction::AddUnsigned { res, reg, ret } => r_format(
                OP_SPECIAL,
                FUNCT_ADDU,
                reg,
                ret,
                res,
            ),
            Instruction::LoadUpperImmediate { res, imm } => i_format(
                OP_LUI,
                Register::Zero,
                res,
                imm,
            ),
            Instruction::OrImmediate { res, reg, imm } => i_format(OP_ORI, reg, res, imm),
            Instruction::SystemCall => r_format_syscall(OP_SPECIAL, FUNCT_SYSCALL),
        }
    }

    /// Decodes a word: the instruction whose wire form the word is, and
    /// `None` where no primitive instruction encodes to it.
    pub fn decode(word: u32) -> (decoded: Option<Instruction>)
        ensures
            decoded == decode_word(word),
            match decoded {
                Some(instruction) => instruction.spec_encode() == word,
                None => forall|other: Instruction| other.spec_encode() != word,
            },
    {
        proof {
            lemma_encode_decode(word);
            assert forall|other: Instruction| decode_word(word) is None implies other.spec_encode()
                != word by {
                lemma_decode_encode(other);
            }
        }
        let opcode: u32 = word >> 26;
        let rs_bits: u32 = (word >> 21) & 0x1F;
        let rt_bits: u32 = (word >> 16) & 0x1F;
        let rd_bits: u32 = (word >> 11) & 0x1F;
        let imm_bits: u32 = word & 0xFFFF;
        assert(rs_bits < 32 && rt_bits < 32 && rd_bits < 32 && imm_bits < 0x10000) by (bit_vector)
            requires
                rs_bits == (word >> 21) & 0x1F,
                rt_bits == (word >> 16) & 0x1F,
                rd_bits == (word >> 11) & 0x1F,
                imm_bits == word & 0xFFFF,
        ;
        let imm: i16 = #[verifier::truncate]
        ((imm_bits as u16) as i16);
        let rs = Register::from_index(rs_bits as u8);
        let rt = Register::from_index(rt_bits as u8);
        let rd = Register::from_index(rd_bits as u8);
        match (rs, rt, rd) {
            (Some(rs), Some(rt), Some(rd)) => {
                if opcode == OP_ADDI {
                    Some(Instruction::AddImmediate { res: rt, reg: rs, imm })
                } else if opcode == OP_ORI {
                    Some(Instruction::OrImmediate { res: rt, reg: rs, imm })
                } else if opcode == OP_LUI && rs_bits == 0 {
                    Some(Instruction::LoadUpperImmediate { res: rt, imm })
                } else if opcode == OP_SPECIAL && word & 0x7FF == FUNCT_ADDU {
                    Some(Instruction::AddUnsigned { res: rd, reg: rs, ret: rt })
                } else if word == FUNCT_SYSCALL {
                    Some(Instruction::SystemCall)
                } else {
                    None
                }
            },
            _ => None,
        }
    }
}

proof fn lemma_i_format_fields(opcode: u32, rs: u32, rt: u32, imm: i16)
    requires
        opcode < 64,
        rs < 32,
        rt < 32,
    ensures
        ({
            let word = (opcode << 26) | (rs << 21) | (rt << 16) | ((imm as u16) as u32);
            &&& word >> 26 == opcode
            &&& (word >> 21) & 0x1F == rs
            &&& (word >> 16) & 0x1F == rt
            &&& ((word & 0xFFFF) as u16) as i16 == imm
        }),
{
    let word = (opcode << 26) | (rs << 21) | (rt << 16) | ((imm as u16) as u32);
    assert(word >> 26 == opcode && (word >> 21) & 0x1F == rs && (word >> 16) & 0x1F == rt && ((word
        & 0xFFFF) as u16) as i16 == imm) by (bit_vector)
        requires
            opcode < 64,
            rs < 32,
            rt < 32,
            word == (opcode << 26) | (rs << 21) | (rt << 16) | ((imm as u16) as u32),
    ;
}

proof fn lemma_r_format_fields(rs: u32, rt: u32, rd: u32)
    requires
        rs < 32,
        rt < 32,
        rd < 32,
    ensures
        ({
            let word = (0u32 << 26) | (rs << 21) | (rt << 16) | (rd << 11) | (0u32 << 6) | 0x21u32;
            &&& word >> 26 == 0
            &&& (word >> 21) & 0x1F == rs
            &&& (word >> 16) & 0x1F == rt
            &&& (word >> 11) & 0x1F == rd
            &&& word & 0x7FF == 0x21
        }),
{
    let word = (0u32 << 26) | (rs << 21) | (rt << 16) | (rd << 11) | (0u32 << 6) | 0x21u32;
    assert(word >> 26 == 0 && (word >> 21) & 0x1F == rs && (word >> 16) & 0x1F == rt && (word >> 11)
        & 0x1F == rd && word & 0x7FF == 0x21) by (bit_vector)
        requires
            rs < 32,
            rt < 32,
            rd < 32,
            word == (0u32 << 26) | (rs << 21) | (rt << 16) | (rd << 11) | (0u32 << 6) | 0x21u32,
    ;
}

/// Decoding the wire form of an instruction gives the instruction back.
pub proof fn lemma_decode_encode(instruction: Instruction)
    ensures
        decode_word(instruction.spec_encode()) == Some(instruction),
{
    let word = instruction.spec_encode();
    match instruction {
        Instruction::AddImmediate { res, reg, imm } => {
            lemma_index_round_trip(res);
            lemma_index_round_trip(reg);
            lemma_i_format_fields(OP_ADDI, reg.spec_index() as u32, res.spec_index() as u32, imm);
            lemma_small_field(word);
        },
        Instruction::OrImmediate { res, reg, imm } => {
            lemma_index_round_trip(res);
            lemma_index_round_trip(reg);
            lemma_i_format_fields(OP_ORI, reg.spec_index() as u32, res.spec_index() as u32, imm);
            lemma_small_field(word);
        },
        Instruction::LoadUpperImmediate { res, imm } => {
            lemma_index_round_trip(res);
            lemma_i_format_fields(OP_LUI, 0, res.spec_index() as u32, imm);
            lemma_small_field(word);
        },
        Instruction::AddUnsigned { res, reg, ret } => {
            lemma_index_round_trip(res);
            lemma_index_round_trip(reg);
            lemma_index_round_trip(ret);
            lemma_r_format_fields(
                reg.spec_index() as u32,
                ret.spec_index() as u32,
                res.spec_index() as u32,
            );
        },
        Instruction::SystemCall => {
            assert(word == 0x0C && word >> 26 == 0 && (word >> 21) & 0x1F == 0 && (word >> 16) & 0x1F
                == 0 && (word >> 11) & 0x1F == 0 && word & 0x7FF == 0x0C) by (bit_vector)
                requires
                    word == (0u32 << 26) | 0x0Cu32,
            ;
        },
    }
}

proof fn lemma_small_field(word: u32)
    ensures
        (word >> 11) & 0x1F < 32,
{
    assert((word >> 11) & 0x1F < 32) by (bit_vector);
}

/// A word that decodes is the wire form of the instruction it decodes to.
pub proof fn lemma_encode_decode(word: u32)
    ensures
        decode_word(word) is Some ==> decode_word(word)->0.spec_encode() == word,
{
    let opcode = word >> 26;
    let rs = (word >> 21) & 0x1F;
    let rt = (word >> 16) & 0x1F;
    let rd = (word >> 11) & 0x1F;
    let imm = ((word & 0xFFFF) as u16) as i16;
    if decode_word(word) is Some {
        let a = register_of_index(rs as int)->0;
        let b = register_of_index(rt as int)->0;
        let c = register_of_index(rd as int)->0;
        assert(a.spec_index() == rs && b.spec_index() == rt && c.spec_index() == rd);
        assert(word == (opcode << 26) | (rs << 21) | (rt << 16) | ((imm as u16) as u32)) by (bit_vector)
            requires
                opcode == word >> 26,
                rs == (word >> 21) & 0x1F,
                rt == (word >> 16) & 0x1F,
                imm == ((word & 0xFFFF) as u16) as i16,
        ;
        assert(opcode == 0 && word & 0x7FF == 0x21 ==> word == (0u32 << 26) | (rs << 21) | (rt << 16)
            | (rd << 11) | (0u32 << 6) | 0x21u32) by (bit_vector)
            requires
                opcode == word >> 26,
                rs == (word >> 21) & 0x1F,
                rt == (word >> 16) & 0x1F,
                rd == (word >> 11) & 0x1F,
        ;
        assert(0x0Cu32 == (0u32 << 26) | 0x0Cu32) by (bit_vector);
    }
}

/// A 16-bit immediate widened to 32 bits with its sign: the word that is
/// congruent to `imm` modulo 2^32.
pub open spec fn sign_extend(imm: i16) -> u32 {
    if imm >= 0 {
        imm as u32
    } else {
        (imm + 0x1_0000_0000) as u32
    }
}

/// The sum of two words modulo 2^32.
pub open spec fn add32(a: u32, b: u32) -> u32 {
    ((a + b) % 0x1_0000_0000) as u32
}

/// The value that an instruction computes from the observed register
/// values. A system call computes none.
pub open spec fn computed(registers: Seq<u32>, instruction: Instruction) -> Option<(Register, u32)> {
    match instruction {
        Instruction::AddImmediate { res, reg, imm } => Some(
            (res, add32(registers[reg.spec_index()], sign_extend(imm))),
        ),
        Instruction::AddUnsigned { res, reg, ret } => Some(
            (res, add32(registers[reg.spec_index()], registers[ret.spec_index()])),
        ),
        Instruction::LoadUpperImmediate { res, imm } => Some((res, sign_extend(imm) << 16)),
        Instruction::OrImmediate { res, reg, imm } => Some(
            (res, registers[reg.spec_index()] | sign_extend(imm)),
        ),
        Instruction::SystemCall => None,
    }
}

/// The observed register values after an instruction: the computed value
/// is written to the result register, and a write to register 0 is
/// discarded. A system call leaves the registers as they are.
pub open spec fn executed(registers: Seq<u32>, instruction: Instruction) -> Seq<u32> {
    match computed(registers, instruction) {
        Some((res, value)) => written(registers, res, value),
        None => registers,
    }
}

/// The observed register values after a list of instructions, in order.
pub open spec fn run(registers: Seq<u32>, list: Seq<Instruction>) -> Seq<u32>
    decreases list.len(),
{
    if list.len() == 0 {
        registers
    } else {
        run(executed(registers, list[0]), list.skip(1))
    }
}

/// The immediate widened to 32 bits with its sign.
pub fn sign_extended(imm: i16) -> (word: u32)
    ensures
        word == sign_extend(imm),
{
    let word: u32 = (imm as i32) as u32;
    assert(sign_extend(imm) == (imm as i32) as u32) by (bit_vector);
    word
}

/// Register 0 reads as 0 after any instruction, whatever it wrote to.
pub proof fn lemma_zero_register_stays(registers: Seq<u32>, instruction: Instruction)
    requires
        registers.len() == 32,
        registers[0] == 0,
    ensures
        executed(registers, instruction).len() == 32,
        executed(registers, instruction)[0] == 0,
{
}

} // verus!
