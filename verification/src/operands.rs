//! The operands of an instruction line.

use crate::errors::{agrees, agrees_view, AssemblerError, AssemblerErrorView};
use crate::registers::{register_of_name, CpuErrorView, Register};
use crate::tokenizer::{Token, TokenView};
use vstd::prelude::*;

verus! {

/// The token at a position of a line, if the line is that long.
pub open spec fn token_at(tokens: Seq<TokenView>, i: int) -> Option<TokenView> {
    if 0 <= i < tokens.len() {
        Some(tokens[i])
    } else {
        None
    }
}

/// A register operand: a register token whose name the processor has.
pub open spec fn register_operand(token: Option<TokenView>) -> Result<Register, AssemblerErrorView> {
    match token {
        Some(TokenView::Register { value }) => match register_of_name(value) {
            Some(register) => Ok(register),
            None => Err(AssemblerErrorView::InvalidRegister(CpuErrorView::NoSuchRegister(value))),
        },
        _ => Err(AssemblerErrorView::InvalidInstruction),
    }
}

/// A number operand of any 32-bit value.
pub open spec fn number_operand(token: Option<TokenView>) -> Result<i32, AssemblerErrorView> {
    match token {
        Some(TokenView::Number { value }) => Ok(value),
        _ => Err(AssemblerErrorView::InvalidInstruction),
    }
}

/// An immediate operand: a number that fits in 16 signed bits.
pub open spec fn immediate_operand(token: Option<TokenView>) -> Result<i16, AssemblerErrorView> {
    match number_operand(token) {
        Ok(n) => if -32768 <= n <= 32767 {
            Ok(n as i16)
        } else {
            Err(AssemblerErrorView::InvalidImmediateValue(n))
        },
        Err(e) => Err(e),
    }
}

/// A label operand: a reference to a label, not a declaration.
pub open spec fn label_operand(token: Option<TokenView>) -> Result<Seq<char>, AssemblerErrorView> {
    match token {
        Some(TokenView::Label { name, decl }) => if decl {
            Err(AssemblerErrorView::InvalidLabel(Seq::empty()))
        } else {
            Ok(name)
        },
        _ => Err(AssemblerErrorView::InvalidLabel(Seq::empty())),
    }
}

/// The operands of `op rd, rs, imm`, with the operator at position
/// `start`.
pub open spec fn two_registers_and_immediate(tokens: Seq<TokenView>, start: int) -> Result<
    (Register, Register, i16),
    AssemblerErrorView,
> {
    match register_operand(token_at(tokens, start + 1)) {
        Err(e) => Err(e),
        Ok(res) => match register_operand(token_at(tokens, start + 2)) {
            Err(e) => Err(e),
            Ok(reg) => match immediate_operand(token_at(tokens, start + 3)) {
                Err(e) => Err(e),
                Ok(imm) => Ok((res, reg, imm)),
            },
        },
    }
}

/// The operands of `op rd, rs`, with the operator at position `start`.
pub open spec fn two_registers(tokens: Seq<TokenView>, start: int) -> Result<
    (Register, Register),
    AssemblerErrorView,
> {
    match register_operand(token_at(tokens, start + 1)) {
        Err(e) => Err(e),
        Ok(res) => match register_operand(token_at(tokens, start + 2)) {
            Err(e) => Err(e),
            Ok(reg) => Ok((res, reg)),
        },
    }
}

/// The token `k` positions behind position `start` of a line.
pub fn operand(tokens: &Vec<Token>, start: usize, k: usize) -> (token: Option<&Token>)
    ensures
        match token {
            Some(t) => token_at(tokens.deep_view(), start + k) == Some(t@),
            None => token_at(tokens.deep_view(), start + k) is None,
        },
{
    if start <= tokens.len() && k < tokens.len() - start {
        Some(&tokens[start + k])
    } else {
        None
    }
}

/// Reads the register operand `k` positions behind `start`.
pub fn parse_register(tokens: &Vec<Token>, start: usize, k: usize) -> (result: Result<
    Register,
    AssemblerError,
>)
    ensures
        agrees(result, register_operand(token_at(tokens.deep_view(), start + k))),
{
    match operand(tokens, start, k) {
        Some(Token::Register { value }) => match Register::from_str(value.as_str()) {
            Ok(register) => Ok(register),
            Err(e) => Err(AssemblerError::InvalidRegister(e)),
        },
        _ => Err(AssemblerError::InvalidInstruction),
    }
}

/// Reads the number operand `k` positions behind `start`.
pub fn parse_number(tokens: &Vec<Token>, start: usize, k: usize) -> (result: Result<
    i32,
    AssemblerError,
>)
    ensures
        agrees(result, number_operand(token_at(tokens.deep_view(), start + k))),
{
    match operand(tokens, start, k) {
        Some(Token::Number { value }) => Ok(*value),
        _ => Err(AssemblerError::InvalidInstruction),
    }
}

/// Reads the 16-bit immediate operand `k` positions behind `start`.
pub fn parse_immediate(tokens: &Vec<Token>, start: usize, k: usize) -> (result: Result<
    i16,
    AssemblerError,
>)
    ensures
        agrees(
            result,
            immediate_operand(token_at(tokens.deep_view(), start + k)),
        ),
{
    match parse_number(tokens, start, k) {
        Ok(n) => if -32768 <= n && n <= 32767 {
            Ok(n as i16)
        } else {
            Err(AssemblerError::InvalidImmediateValue(n))
        },
        Err(e) => Err(e),
    }
}

/// Reads the label operand `k` positions behind `start`.
pub fn parse_label(tokens: &Vec<Token>, start: usize, k: usize) -> (result: Result<
    String,
    AssemblerError,
>)
    ensures
        agrees_view(
            result,
            label_operand(token_at(tokens.deep_view(), start + k)),
        ),
{
    match operand(tokens, start, k) {
        Some(Token::Label { name, decl }) => if *decl {
            Err(AssemblerError::InvalidLabel(String::new()))
        } else {
            Ok(name.clone())
        },
        _ => Err(AssemblerError::InvalidLabel(String::new())),
    }
}

/// Reads the operands of `op rd, rs, imm`, with the operator at `start`.
pub fn parse_two_registers_and_immediate(tokens: &Vec<Token>, start: usize) -> (result: Result<
    (Register, Register, i16),
    AssemblerError,
>)
    ensures
        agrees(result, two_registers_and_immediate(tokens.deep_view(), start as int)),
{
    match parse_register(tokens, start, 1) {
        Err(e) => Err(e),
        Ok(res) => match parse_register(tokens, start, 2) {
            Err(e) => Err(e),
            Ok(reg) => match parse_immediate(tokens, start, 3) {
                Err(e) => Err(e),
                Ok(imm) => Ok((res, reg, imm)),
            },
        },
    }
}

/// Reads the operands of `op rd, rs`, with the operator at `start`.
pub fn parse_two_registers(tokens: &Vec<Token>, start: usize) -> (result: Result<
    (Register, Register),
    AssemblerError,
>)
    ensures
        agrees(result, two_registers(tokens.deep_view(), start as int)),
{
    match parse_register(tokens, start, 1) {
        Err(e) => Err(e),
        Ok(res) => match parse_register(tokens, start, 2) {
            Err(e) => Err(e),
            Ok(reg) => Ok((res, reg)),
        },
    }
}

} // verus!
