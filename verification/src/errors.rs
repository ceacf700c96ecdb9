//! The assembler's failures.

use crate::registers::{CpuError, CpuErrorView};
use crate::tokenizer::{TokenizerError, TokenizerErrorView};
use vstd::prelude::*;

verus! {

/// Why a program could not be assembled.
#[derive(Debug, Clone, PartialEq, Eq)]
pub enum AssemblerError {
    /// A directive that the assembler does not carry out.
    UnknownDirective,
    /// A line that begins with neither a directive nor an operator.
    InvalidToken,
    /// `.globl` without a label behind it.
    EntrypointMissing,
    /// An unknown mnemonic, or an operand of the wrong kind.
    InvalidInstruction,
    /// A register operand that names no register.
    InvalidRegister(CpuError),
    /// A label operand that is missing (then the name is empty), not yet
    /// defined, or defined outside the data segment.
    InvalidLabel(String),
    /// A string with a zero byte in it.
    InvalidString,
    /// An immediate operand outside the signed 16-bit range.
    InvalidImmediateValue(i32),
    /// A `.byte` value below -128 or above 255.
    InvalidByteValue,
    /// The source text could not be turned into tokens.
    TokenizationFailed(TokenizerError),
    /// A segment would grow past the end of the 32-bit address space.
    AddressOverflow,
}

/// The mathematical content of an [`AssemblerError`].
pub enum AssemblerErrorView {
    UnknownDirective,
    InvalidToken,
    EntrypointMissing,
    InvalidInstruction,
    InvalidRegister(CpuErrorView),
    InvalidLabel(Seq<char>),
    InvalidString,
    InvalidImmediateValue(i32),
    InvalidByteValue,
    TokenizationFailed(TokenizerErrorView),
    AddressOverflow,
}

impl View for AssemblerError {
    type V = AssemblerErrorView;

    open spec fn view(&self) -> AssemblerErrorView {
        match self {
            AssemblerError::UnknownDirective => AssemblerErrorView::UnknownDirective,
            AssemblerError::InvalidToken => AssemblerErrorView::InvalidToken,
            AssemblerError::EntrypointMissing => AssemblerErrorView::EntrypointMissing,
            AssemblerError::InvalidInstruction => AssemblerErrorView::InvalidInstruction,
            AssemblerError::InvalidRegister(e) => AssemblerErrorView::InvalidRegister(e@),
            AssemblerError::InvalidLabel(name) => AssemblerErrorView::InvalidLabel(name@),
            AssemblerError::InvalidString => AssemblerErrorView::InvalidString,
            AssemblerError::InvalidImmediateValue(n) => AssemblerErrorView::InvalidImmediateValue(
                *n,
            ),
            AssemblerError::InvalidByteValue => AssemblerErrorView::InvalidByteValue,
            AssemblerError::TokenizationFailed(e) => AssemblerErrorView::TokenizationFailed(e@),
            AssemblerError::AddressOverflow => AssemblerErrorView::AddressOverflow,
        }
    }
}

/// Whether an outcome is the one expected, for a plain value.
pub open spec fn agrees<T>(
    result: Result<T, AssemblerError>,
    expected: Result<T, AssemblerErrorView>,
) -> bool {
    match expected {
        Ok(value) => result is Ok && result->Ok_0 == value,
        Err(e) => result is Err && result->Err_0@ == e,
    }
}

/// Whether an outcome is the one expected, for a value with a view.
pub open spec fn agrees_view<T: View>(
    result: Result<T, AssemblerError>,
    expected: Result<T::V, AssemblerErrorView>,
) -> bool {
    match expected {
        Ok(value) => result is Ok && result->Ok_0@ == value,
        Err(e) => result is Err && result->Err_0@ == e,
    }
}

} // verus!
