//! What the mnemonics stand for in primitive instructions.

use crate::errors::AssemblerErrorView;
use crate::instructions::{executed, run, sign_extend, Instruction};
use crate::operands::{
    immediate_operand, label_operand, number_operand, register_operand, token_at, two_registers,
    two_registers_and_immediate,
};
use crate::registers::Register;
use crate::symbols::{Segment, Symbol};
use crate::tokenizer::TokenView;
use vstd::prelude::*;

verus! {

/// Bits 16 to 31 of a number, as a signed immediate.
pub open spec fn upper_half(n: i32) -> i16 {
    (n >> 16) as i16
}

/// Bits 0 to 15 of a number, as a signed immediate.
pub open spec fn lower_half(n: i32) -> i16 {
    (n & 0xFFFF) as i16
}

/// Bits 16 to 31 of an address, as a signed immediate.
pub open spec fn address_upper_half(address: u32) -> i16 {
    (address >> 16) as i16
}

/// Bits 0 to 15 of an address, as a signed immediate.
pub open spec fn address_lower_half(address: u32) -> i16 {
    (address & 0xFFFF) as i16
}

/// What `li res, n` stands for: one `addi` from register 0 where `n` fits
/// in 16 signed bits, one `lui` where its low half is zero, and else a
/// `lui` of the upper half followed by an `ori` of the lower half.
pub open spec fn load_immediate(res: Register, n: i32) -> Seq<Instruction> {
    if -32768 <= n <= 32767 {
        seq![Instruction::AddImmediate { res, reg: Register::Zero, imm: n as i16 }]
    } else if n & 0xFFFF == 0 {
        seq![Instruction::LoadUpperImmediate { res, imm: upper_half(n) }]
    } else {
        seq![
            Instruction::LoadUpperImmediate { res, imm: upper_half(n) },
            Instruction::OrImmediate { res, reg: res, imm: lower_half(n) },
        ]
    }
}

/// What `la res, label` stands for, given the label's address: a `lui`
/// of the upper half followed by an `ori` of the lower half.
pub open spec fn load_address(res: Register, address: u32) -> Seq<Instruction> {
    seq![
        Instruction::LoadUpperImmediate { res, imm: address_upper_half(address) },
        Instruction::OrImmediate { res, reg: res, imm: address_lower_half(address) },
    ]
}

/// The address that `la` loads for a label: the label must be defined,
/// and in the data segment.
pub open spec fn data_label_address(symbols: Map<Seq<char>, Symbol>, name: Seq<char>) -> Result<
    u32,
    AssemblerErrorView,
> {
    if symbols.contains_key(name) && symbols[name].segment == Segment::Data {
        Ok(symbols[name].address)
    } else {
        Err(AssemblerErrorView::InvalidLabel(name))
    }
}

/// The primitive instructions that an instruction line stands for. Its
/// operator stands at position `start`; the operands follow in order,
/// and the first operand that is wrong decides the failure. Tokens behind
/// the last operand are not looked at.
pub open spec fn expansion(
    symbols: Map<Seq<char>, Symbol>,
    tokens: Seq<TokenView>,
    start: int,
) -> Result<Seq<Instruction>, AssemblerErrorView> {
    match token_at(tokens, start) {
        Some(TokenView::Operator { value }) => {
            if value == "syscall"@ {
                Ok(seq![Instruction::SystemCall])
            } else if value == "addi"@ {
                match two_registers_and_immediate(tokens, start) {
                    Err(e) => Err(e),
                    Ok((res, reg, imm)) => Ok(seq![Instruction::AddImmediate { res, reg, imm }]),
                }
            } else if value == "addu"@ {
                match two_registers(tokens, start) {
                    Err(e) => Err(e),
                    Ok((res, reg)) => match register_operand(token_at(tokens, start + 3)) {
                        Err(e) => Err(e),
                        Ok(ret) => Ok(seq![Instruction::AddUnsigned { res, reg, ret }]),
                    },
                }
            } else if value == "lui"@ {
                match register_operand(token_at(tokens, start + 1)) {
                    Err(e) => Err(e),
                    Ok(res) => match immediate_operand(token_at(tokens, start + 2)) {
                        Err(e) => Err(e),
                        Ok(imm) => Ok(seq![Instruction::LoadUpperImmediate { res, imm }]),
                    },
                }
            } else if value == "ori"@ {
                match two_registers_and_immediate(tokens, start) {
                    Err(e) => Err(e),
                    Ok((res, reg, imm)) => Ok(seq![Instruction::OrImmediate { res, reg, imm }]),
                }
            } else if value == "move"@ {
                match two_registers(tokens, start) {
                    Err(e) => Err(e),
                    Ok((res, reg)) => Ok(
                        seq![Instruction::AddUnsigned { res, reg, ret: Register::Zero }],
                    ),
                }
            } else if value == "li"@ {
                match register_operand(token_at(tokens, start + 1)) {
                    Err(e) => Err(e),
                    Ok(res) => match number_operand(token_at(tokens, start + 2)) {
                        Err(e) => Err(e),
                        Ok(n) => Ok(load_immediate(res, n)),
                    },
                }
            } else if value == "la"@ {
                match register_operand(token_at(tokens, start + 1)) {
                    Err(e) => Err(e),
                    Ok(res) => match label_operand(token_at(tokens, start + 2)) {
                        Err(e) => Err(e),
                        Ok(name) => match data_label_address(symbols, name) {
                            Err(e) => Err(e),
                            Ok(address) => Ok(load_address(res, address)),
                        },
                    },
                }
            } else {
                Err(AssemblerErrorView::InvalidInstruction)
            }
        },
        _ => Err(AssemblerErrorView::InvalidInstruction),
    }
}

/// A list of one instruction.
pub(crate) fn one(instruction: Instruction) -> (list: Vec<Instruction>)
    ensures
        list@ == seq![instruction],
{
    let list = vec![instruction];
    assert(list@ =~= seq![instruction]);
    list
}

/// The instructions of `li res, n`.
pub fn expand_load_immediate(res: Register, n: i32) -> (list: Vec<Instruction>)
    ensures
        list@ == load_immediate(res, n),
{
    if -32768 <= n && n <= 32767 {
        let list = vec![Instruction::AddImmediate { res, reg: Register::Zero, imm: n as i16 }];
        assert(list@ =~= load_immediate(res, n));
        list
    } else {
        let upper: i16 = #[verifier::truncate]
        ((n >> 16) as i16);
        if n & 0xFFFF == 0 {
            let list = vec![Instruction::LoadUpperImmediate { res, imm: upper }];
            assert(list@ =~= load_immediate(res, n));
            list
        } else {
            let lower: i16 = #[verifier::truncate]
            ((n & 0xFFFF) as i16);
            let list = vec![
                Instruction::LoadUpperImmediate { res, imm: upper },
                Instruction::OrImmediate { res, reg: res, imm: lower },
            ];
            assert(list@ =~= load_immediate(res, n));
            list
        }
    }
}

/// The instructions of `la res, label` for a label at `address`.
pub fn expand_load_address(res: Register, address: u32) -> (list: Vec<Instruction>)
    ensures
        list@ == load_address(res, address),
{
    let upper: i16 = #[verifier::truncate]
    ((address >> 16) as i16);
    let lower: i16 = #[verifier::truncate]
    ((address & 0xFFFF) as i16);
    let list = vec![
        Instruction::LoadUpperImmediate { res, imm: upper },
        Instruction::OrImmediate { res, reg: res, imm: lower },
    ];
    assert(list@ =~= load_address(res, address));
    list
}

/// The word that holds a signed number in two's complement.
pub open spec fn word_of(n: i32) -> u32 {
    if n >= 0 {
        n as u32
    } else {
        (n + 0x1_0000_0000) as u32
    }
}

/// Whether `li` loads a number bit for bit: it does where the number fits
/// in 16 signed bits or has bit 15 clear. Where neither holds, the `ori`
/// of the expansion extends the sign of its immediate over the upper
/// half.
pub open spec fn loads_exactly(n: i32) -> bool {
    -32768 <= n <= 32767 || n & 0x8000 == 0
}

/// The word that the expansion of `li` leaves in its register: the word
/// of `n` where `li` loads `n` exactly, and else that word with its upper
/// half set to ones.
pub open spec fn loaded_word(n: i32) -> u32 {
    if loads_exactly(n) {
        word_of(n)
    } else {
        word_of(n) | 0xFFFF_0000
    }
}

/// After the expansion of `li res, n` a read of `res` yields
/// `loaded_word(n)`, whatever the registers held before: exactly the word
/// of `n` for every `n` that `li` loads exactly. Register 0 is the one
/// register of which this does not hold, as it reads as 0.
pub proof fn lemma_load_immediate_value(registers: Seq<u32>, res: Register, n: i32)
    requires
        registers.len() == 32,
        registers[0] == 0,
        res != Register::Zero,
    ensures
        run(registers, load_immediate(res, n))[res.spec_index()] == loaded_word(n),
        loads_exactly(n) ==> run(registers, load_immediate(res, n))[res.spec_index()] == word_of(n),
        !loads_exactly(n) ==> loaded_word(n) != word_of(n),
{
    let list = load_immediate(res, n);
    let first = executed(registers, list[0]);
    if -32768 <= n <= 32767 {
        assert(list.skip(1).len() == 0);
        assert(run(first, list.skip(1)) == first);
    } else if n & 0xFFFF == 0 {
        assert(list.skip(1).len() == 0);
        assert(run(first, list.skip(1)) == first);
        assert(n & 0x8000 == 0 && sign_extend(upper_half(n)) << 16 == word_of(n)) by (bit_vector)
            requires
                n & 0xFFFF == 0,
        ;
    } else {
        let second = executed(first, list.skip(1)[0]);
        assert(list.skip(1).skip(1).len() == 0);
        assert(run(second, list.skip(1).skip(1)) == second);
        assert(run(first, list.skip(1)) == second);
        assert((sign_extend(upper_half(n)) << 16) | sign_extend(lower_half(n)) == loaded_word(n))
            by (bit_vector);
    }
    assert(!loads_exactly(n) ==> word_of(n) | 0xFFFF_0000 != word_of(n)) by (bit_vector);
}

/// After the expansion of `li $zero, n` register 0 still reads as 0.
pub proof fn lemma_load_immediate_to_zero(registers: Seq<u32>, n: i32)
    requires
        registers.len() == 32,
        registers[0] == 0,
    ensures
        run(registers, load_immediate(Register::Zero, n)) == registers,
{
    let list = load_immediate(Register::Zero, n);
    let first = executed(registers, list[0]);
    assert(first == registers);
    if list.len() == 1 {
        assert(list.skip(1).len() == 0);
        assert(run(first, list.skip(1)) == first);
    } else {
        let second = executed(first, list.skip(1)[0]);
        assert(second == registers);
        assert(list.skip(1).skip(1).len() == 0);
        assert(run(second, list.skip(1).skip(1)) == second);
        assert(run(first, list.skip(1)) == second);
    }
}

} // verus!
