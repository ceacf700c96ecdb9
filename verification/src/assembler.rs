//! The assembler: token lines to a symbol table, data bytes and an
//! ordered list of primitive instructions.

use crate::address::Address;
use crate::errors::{agrees, agrees_view, AssemblerError, AssemblerErrorView};
use crate::expansion::{
    data_label_address, expand_load_address, expand_load_immediate, expansion, one,
};
use crate::instructions::Instruction;
use crate::operands::{
    label_operand, operand, parse_immediate, parse_label, parse_number, parse_register,
    parse_two_registers, parse_two_registers_and_immediate, token_at,
};
use crate::registers::Register;
use crate::symbols::{
    Segment, Symbol, BASE_DATA_ADDR, BASE_TEXT_ADDR, MAX_DATA_LEN, MAX_TEXT_LEN,
};
use crate::text::str_eq;
use crate::tokenizer::{is_label_declaration, tokenize, tokenize_text, Directive, Token, TokenView};
use std::collections::HashMap;
use vstd::prelude::*;

verus! {

/// What the assembler has gathered so far.
pub struct AssemblerState {
    /// The labels defined so far.
    pub symbols: Map<Seq<char>, Symbol>,
    /// The label named by the last `.globl`.
    pub entry_point: Option<Seq<char>>,
    /// The bytes of the data segment, from its base upward.
    pub data: Seq<u8>,
    /// The instructions of the text segment, one every four bytes from
    /// its base upward.
    pub text: Seq<Instruction>,
    /// The segment that labels and directives now refer to.
    pub segment: Segment,
}

impl AssemblerState {
    /// The state before the first line.
    pub open spec fn initial() -> AssemblerState {
        AssemblerState {
            symbols: Map::empty(),
            entry_point: None,
            data: Seq::empty(),
            text: Seq::empty(),
            segment: Segment::Text,
        }
    }

    /// The address of the next data byte.
    pub open spec fn data_addr(self) -> int {
        BASE_DATA_ADDR + self.data.len()
    }

    /// The address of the next instruction.
    pub open spec fn text_addr(self) -> int {
        BASE_TEXT_ADDR + 4 * self.text.len()
    }

    /// The address that a label declared now stands for.
    pub open spec fn cursor(self) -> int {
        match self.segment {
            Segment::Text => self.text_addr(),
            Segment::Data => self.data_addr(),
        }
    }

    /// Whether both cursors are 32-bit addresses.
    pub open spec fn fits(self) -> bool {
        self.data.len() <= MAX_DATA_LEN && self.text.len() <= MAX_TEXT_LEN
    }

    /// The state with a label declared at the cursor.
    pub open spec fn declare(self, name: Seq<char>) -> AssemblerState {
        AssemblerState {
            symbols: self.symbols.insert(
                name,
                Symbol { address: self.cursor() as u32, segment: self.segment },
            ),
            ..self
        }
    }

    /// The state with bytes added to the data segment, if they fit.
    pub open spec fn emit(self, bytes: Seq<u8>) -> Result<AssemblerState, AssemblerErrorView> {
        if self.data.len() + bytes.len() > MAX_DATA_LEN {
            Err(AssemblerErrorView::AddressOverflow)
        } else {
            Ok(AssemblerState { data: self.data + bytes, ..self })
        }
    }

    /// The state with instructions added to the text segment, if they fit.
    pub open spec fn append(self, list: Seq<Instruction>) -> Result<
        AssemblerState,
        AssemblerErrorView,
    > {
        if self.text.len() + list.len() > MAX_TEXT_LEN {
            Err(AssemblerErrorView::AddressOverflow)
        } else {
            Ok(AssemblerState { text: self.text + list, ..self })
        }
    }

    /// The address at which execution begins: that of the entry label
    /// where one is named and defined, and the base of the text segment
    /// otherwise.
    pub open spec fn entry_address(self) -> u32 {
        match self.entry_point {
            Some(name) => if self.symbols.contains_key(name) {
                self.symbols[name].address
            } else {
                BASE_TEXT_ADDR
            },
            None => BASE_TEXT_ADDR,
        }
    }
}

/// The bytes that a string directive writes: the UTF-8 form of the
/// string, which must hold no zero byte, and a zero byte after it where
/// the directive asks for one.
pub open spec fn string_data(value: Seq<char>, terminated: bool) -> Result<
    Seq<u8>,
    AssemblerErrorView,
> {
    let bytes = vstd::utf8::encode_utf8(value);
    if bytes.contains(0u8) {
        Err(AssemblerErrorView::InvalidString)
    } else if terminated {
        Ok(bytes.push(0u8))
    } else {
        Ok(bytes)
    }
}

/// The byte that a `.byte` value between -128 and 255 stands for: its low
/// eight bits.
pub open spec fn byte_of(value: i32) -> u8 {
    if value >= 0 {
        value as u8
    } else {
        (value + 256) as u8
    }
}

/// The bytes of the numbers that stand from position `at` on, up to the
/// first token that is no number. Each must lie between -128 and 255.
pub open spec fn byte_run(tokens: Seq<TokenView>, at: int) -> Result<Seq<u8>, AssemblerErrorView>
    decreases tokens.len() - at,
{
    if 0 <= at < tokens.len() {
        match tokens[at] {
            TokenView::Number { value } => if value < -128 || value > 255 {
                Err(AssemblerErrorView::InvalidByteValue)
            } else {
                match byte_run(tokens, at + 1) {
                    Err(e) => Err(e),
                    Ok(rest) => Ok(seq![byte_of(value)] + rest),
                }
            },
            _ => Ok(seq![]),
        }
    } else {
        Ok(seq![])
    }
}

/// What a directive does to the state. Its operands stand from position
/// `at` of the line on.
pub open spec fn directive_effect(
    state: AssemblerState,
    kind: Directive,
    tokens: Seq<TokenView>,
    at: int,
) -> Result<AssemblerState, AssemblerErrorView> {
    match kind {
        Directive::DataDirective => Ok(AssemblerState { segment: Segment::Data, ..state }),
        Directive::TextDirective => Ok(AssemblerState { segment: Segment::Text, ..state }),
        Directive::GlobalDirective => match label_operand(token_at(tokens, at)) {
            Ok(name) => Ok(AssemblerState { entry_point: Some(name), ..state }),
            Err(_) => Err(AssemblerErrorView::EntrypointMissing),
        },
        Directive::AsciiDirective | Directive::AsciizDirective => match token_at(tokens, at) {
            Some(TokenView::Text { value }) => match string_data(
                value,
                kind == Directive::AsciizDirective,
            ) {
                Err(e) => Err(e),
                Ok(bytes) => state.emit(bytes),
            },
            _ => Err(AssemblerErrorView::InvalidToken),
        },
        Directive::ByteDirective => match byte_run(tokens, at) {
            Err(e) => Err(e),
            Ok(bytes) => state.emit(bytes),
        },
        Directive::WordDirective => Err(AssemblerErrorView::UnknownDirective),
    }
}

/// The state after the label declaration at the start of a line, if the
/// line has one.
pub open spec fn declared(state: AssemblerState, line: Seq<TokenView>) -> AssemblerState {
    if line.len() > 0 && is_label_declaration(line[0]) {
        state.declare(line[0]->name)
    } else {
        state
    }
}

/// The position behind the label declaration of a line.
pub open spec fn body_start(line: Seq<TokenView>) -> int {
    if line.len() > 0 && is_label_declaration(line[0]) {
        1
    } else {
        0
    }
}

/// What one token line does to the state. A label declaration at the
/// start of the line is recorded at the cursor. Behind it a directive is
/// carried out, an instruction line is expanded and added to the text
/// segment, and nothing more on the line leaves the state as it is.
pub open spec fn line_effect(state: AssemblerState, line: Seq<TokenView>) -> Result<
    AssemblerState,
    AssemblerErrorView,
> {
    let labelled = declared(state, line);
    let at = body_start(line);
    match token_at(line, at) {
        None => Ok(labelled),
        Some(TokenView::Directive { kind }) => directive_effect(labelled, kind, line, at + 1),
        Some(TokenView::Operator { .. }) => match expansion(labelled.symbols, line, at) {
            Err(e) => Err(e),
            Ok(list) => labelled.append(list),
        },
        Some(_) => Err(AssemblerErrorView::InvalidToken),
    }
}

/// What a program does to the state: the effect of its lines in order,
/// or the failure of the first line that fails.
pub open spec fn program_effect(state: AssemblerState, program: Seq<Seq<TokenView>>) -> Result<
    AssemblerState,
    AssemblerErrorView,
>
    decreases program.len(),
{
    if program.len() == 0 {
        Ok(state)
    } else {
        match line_effect(state, program[0]) {
            Err(e) => Err(e),
            Ok(next) => program_effect(next, program.skip(1)),
        }
    }
}

/// The state in which a program leaves the assembler: after its last
/// line or, where a line fails, after the lines before that one and the
/// label declaration of that line.
pub open spec fn program_progress(state: AssemblerState, program: Seq<Seq<TokenView>>) -> AssemblerState
    decreases program.len(),
{
    if program.len() == 0 {
        state
    } else {
        match line_effect(state, program[0]) {
            Err(e) => declared(state, program[0]),
            Ok(next) => program_progress(next, program.skip(1)),
        }
    }
}

/// What a source text does to the state: it is turned into tokens, and
/// the tokens are assembled.
pub open spec fn source_effect(state: AssemblerState, source: Seq<char>) -> Result<
    AssemblerState,
    AssemblerErrorView,
> {
    match tokenize_text(source) {
        Err(e) => Err(AssemblerErrorView::TokenizationFailed(e)),
        Ok(program) => program_effect(state, program),
    }
}

/// The state in which a source text leaves the assembler: unchanged
/// where the text cannot be turned into tokens.
pub open spec fn source_progress(state: AssemblerState, source: Seq<char>) -> AssemblerState {
    match tokenize_text(source) {
        Err(e) => state,
        Ok(program) => program_progress(state, program),
    }
}

/// The text image of a list of instructions: instruction `i` stands at
/// the base of the text segment plus `4 * i`.
pub open spec fn text_image(text: Seq<Instruction>) -> Map<u32, Instruction> {
    Map::new(
        |a: u32| a >= BASE_TEXT_ADDR && (a - BASE_TEXT_ADDR) % 4 == 0 && (a - BASE_TEXT_ADDR) / 4 < text.len(),
        |a: u32| text[(a - BASE_TEXT_ADDR) / 4],
    )
}

/// The memory image of the data bytes: byte `i` stands at the base of the
/// data segment plus `i`.
pub open spec fn data_image(data: Seq<u8>) -> Map<u32, u8> {
    Map::new(
        |a: u32| a >= BASE_DATA_ADDR && a - BASE_DATA_ADDR < data.len(),
        |a: u32| data[a - BASE_DATA_ADDR],
    )
}

/// The data bytes that an address refers to, up to the last one.
pub open spec fn memory_from(data: Seq<u8>, addr: u32) -> Seq<u8> {
    let offset = if addr >= BASE_DATA_ADDR {
        addr - BASE_DATA_ADDR
    } else {
        addr - BASE_TEXT_ADDR
    };
    if addr >= BASE_TEXT_ADDR && offset <= data.len() {
        data.skip(offset)
    } else {
        seq![]
    }
}

/// The address of instruction `i` of the text segment.
pub open spec fn text_address(i: int) -> int {
    BASE_TEXT_ADDR + 4 * i
}

/// The keys of a text image are exactly the addresses of the positions
/// below the number of instructions, without gaps, and each key holds the
/// instruction of its position.
pub proof fn lemma_text_image_keys(text: Seq<Instruction>)
    requires
        text.len() <= MAX_TEXT_LEN,
    ensures
        forall|a: u32| #[trigger]
            text_image(text).dom().contains(a) <==> exists|i: int|
                0 <= i < text.len() && a == #[trigger] text_address(i),
        forall|i: int|
            0 <= i < text.len() ==> text_image(text).dom().contains(
                #[trigger] (text_address(i) as u32),
            ) && text_image(text)[text_address(i) as u32] == text[i],
{
    assert forall|a: u32| #[trigger] text_image(text).dom().contains(a) implies exists|i: int|
        0 <= i < text.len() && a == #[trigger] text_address(i) by {
        let i = (a - BASE_TEXT_ADDR) / 4;
        assert(0 <= i < text.len() && a == text_address(i));
    }
}

/// Whether an outcome and the state left behind are as expected: after
/// a success the state that was expected, after a failure the state
/// `otherwise`.
pub open spec fn state_agrees(
    result: Result<(), AssemblerError>,
    after: AssemblerState,
    expected: Result<AssemblerState, AssemblerErrorView>,
    otherwise: AssemblerState,
) -> bool {
    match expected {
        Ok(state) => result is Ok && after == state,
        Err(e) => result is Err && result->Err_0@ == e && after == otherwise,
    }
}

/// The assembler: it takes a program line by line and gathers the symbol
/// table, the data bytes and the instructions.
pub struct Assembler {
    symbols: vstd::hash_map::StringHashMap<Symbol>,
    entry_point: Option<String>,
    memory: Vec<u8>,
    text_lines: Vec<Instruction>,
    current_segment: Segment,
}

impl View for Assembler {
    type V = AssemblerState;

    closed spec fn view(&self) -> AssemblerState {
        AssemblerState {
            symbols: self.symbols@,
            entry_point: match self.entry_point {
                Some(name) => Some(name@),
                None => None,
            },
            data: self.memory@,
            text: self.text_lines@,
            segment: self.current_segment,
        }
    }
}

/// Whether a list of bytes holds a zero byte.
fn has_zero(bytes: &[u8]) -> (found: bool)
    ensures
        found == bytes@.contains(0u8),
{
    let mut i: usize = 0;
    while i < bytes.len()
        invariant
            i <= bytes.len(),
            forall|j: int| 0 <= j < i ==> bytes@[j] != 0,
        decreases bytes.len() - i,
    {
        if bytes[i] == 0 {
            return true;
        }
        i += 1;
    }
    false
}

/// Reads the `.byte` values that stand from position `start` on.
fn collect_bytes(tokens: &Vec<Token>, start: usize) -> (result: Result<Vec<u8>, AssemblerError>)
    ensures
        agrees_view(result, byte_run(tokens.deep_view(), start as int)),
{
    let ghost line = tokens.deep_view();
    let mut bytes: Vec<u8> = Vec::new();
    let mut i: usize = start;
    assert(prepend_bytes(bytes@, byte_run(line, start as int)) == byte_run(line, start as int)) by {
        if let Ok(rest) = byte_run(line, start as int) {
            assert(bytes@ + rest =~= rest);
        }
    }
    while i < tokens.len()
        invariant
            start <= i,
            line == tokens.deep_view(),
            prepend_bytes(bytes@, byte_run(line, i as int)) == byte_run(line, start as int),
        decreases tokens.len() - i,
    {
        let ghost done = bytes@;
        assert(line[i as int] == tokens@[i as int]@);
        match &tokens[i] {
            Token::Number { value } => {
                let value: i32 = *value;
                if value < -128 || value > 255 {
                    return Err(AssemblerError::InvalidByteValue);
                }
                let byte: u8 = if value >= 0 {
                    value as u8
                } else {
                    (value + 256) as u8
                };
                bytes.push(byte);
                assert(prepend_bytes(bytes@, byte_run(line, i + 1)) == prepend_bytes(
                    done,
                    byte_run(line, i as int),
                )) by {
                    if let Ok(rest) = byte_run(line, i + 1) {
                        assert(done.push(byte) + rest =~= done + (seq![byte] + rest));
                    }
                }
            },
            _ => {
                assert(bytes@ + Seq::<u8>::empty() =~= bytes@);
                return Ok(bytes);
            },
        }
        i += 1;
    }
    assert(bytes@ + Seq::<u8>::empty() =~= bytes@);
    Ok(bytes)
}

/// Bytes put before the outcome of what follows them; a failure stays.
pub open spec fn prepend_bytes(head: Seq<u8>, tail: Result<Seq<u8>, AssemblerErrorView>) -> Result<
    Seq<u8>,
    AssemblerErrorView,
> {
    match tail {
        Ok(rest) => Ok(head + rest),
        Err(e) => Err(e),
    }
}

impl Assembler {
    /// Whether both segments still end inside the address space. Every
    /// function of the assembler keeps this true.
    pub open spec fn wf(&self) -> bool {
        self@.fits()
    }

    /// Whether both segments still end inside the address space.
    pub fn within_address_space(&self) -> (yes: bool)
        ensures
            yes == self.wf(),
    {
        self.memory.len() <= MAX_DATA_LEN as usize && self.text_lines.len() <= MAX_TEXT_LEN as usize
    }

    /// An assembler before its first line: in the text segment, with no
    /// label, no data and no instruction.
    pub fn new() -> (assembler: Assembler)
        ensures
            assembler.wf(),
            assembler@ == AssemblerState::initial(),
    {
        let assembler = Assembler {
            symbols: vstd::hash_map::StringHashMap::new(),
            entry_point: None,
            memory: Vec::new(),
            text_lines: Vec::new(),
            current_segment: Segment::Text,
        };
        assert(assembler@.symbols =~= Map::empty());
        assert(assembler@.data =~= Seq::empty());
        assert(assembler@.text =~= Seq::empty());
        assembler
    }

    /// Looks a label up in the symbol table.
    pub fn lookup(&self, name: &str) -> (found: Option<Symbol>)
        ensures
            found == if self@.symbols.contains_key(name@) {
                Some(self@.symbols[name@])
            } else {
                None
            },
    {
        match self.symbols.get(name) {
            Some(symbol) => Some(*symbol),
            None => None,
        }
    }

    /// The address that a label declared now stands for.
    fn cursor(&self) -> (address: u32)
        requires
            self.wf(),
        ensures
            address == self@.cursor(),
    {
        match self.current_segment {
            Segment::Text => BASE_TEXT_ADDR + 4 * (self.text_lines.len() as u32),
            Segment::Data => BASE_DATA_ADDR + (self.memory.len() as u32),
        }
    }

    /// Records a label at the cursor.
    fn declare(&mut self, name: &String)
        requires
            old(self).wf(),
        ensures
            final(self).wf(),
            final(self)@ == old(self)@.declare(name@),
    {
        let address = self.cursor();
        let symbol = Symbol { address, segment: self.current_segment };
        self.symbols.insert(name.clone(), symbol);
        assert(self@.symbols =~= old(self)@.declare(name@).symbols);
    }

    /// Adds bytes to the data segment, if they fit.
    fn emit(&mut self, bytes: &[u8]) -> (result: Result<(), AssemblerError>)
        requires
            old(self).wf(),
        ensures
            final(self).wf(),
            state_agrees(result, final(self)@, old(self)@.emit(bytes@), old(self)@),
    {
        if bytes.len() > (MAX_DATA_LEN as usize) - self.memory.len() {
            return Err(AssemblerError::AddressOverflow);
        }
        let mut i: usize = 0;
        assert(bytes@.take(0) =~= Seq::empty());
        assert(self.memory@ =~= old(self).memory@ + bytes@.take(0));
        while i < bytes.len()
            invariant
                i <= bytes.len(),
                self.symbols == old(self).symbols,
                self.entry_point == old(self).entry_point,
                self.text_lines == old(self).text_lines,
                self.current_segment == old(self).current_segment,
                self.memory@ == old(self).memory@ + bytes@.take(i as int),
            decreases bytes.len() - i,
        {
            self.memory.push(bytes[i]);
            assert(self.memory@ =~= old(self).memory@ + bytes@.take(i + 1));
            i += 1;
        }
        assert(bytes@.take(i as int) =~= bytes@);
        Ok(())
    }

    /// Adds instructions to the text segment, if they fit.
    fn append(&mut self, list: &Vec<Instruction>) -> (result: Result<(), AssemblerError>)
        requires
            old(self).wf(),
        ensures
            final(self).wf(),
            state_agrees(result, final(self)@, old(self)@.append(list@), old(self)@),
    {
        if list.len() > (MAX_TEXT_LEN as usize) - self.text_lines.len() {
            return Err(AssemblerError::AddressOverflow);
        }
        let mut i: usize = 0;
        assert(list@.take(0) =~= Seq::empty());
        assert(self.text_lines@ =~= old(self).text_lines@ + list@.take(0));
        while i < list.len()
            invariant
                i <= list.len(),
                self.symbols == old(self).symbols,
                self.entry_point == old(self).entry_point,
                self.memory == old(self).memory,
                self.current_segment == old(self).current_segment,
                self.text_lines@ == old(self).text_lines@ + list@.take(i as int),
            decreases list.len() - i,
        {
            self.text_lines.push(list[i]);
            assert(self.text_lines@ =~= old(self).text_lines@ + list@.take(i + 1));
            i += 1;
        }
        assert(list@.take(i as int) =~= list@);
        Ok(())
    }

    /// The address that `la` loads for a label.
    pub fn data_label(&self, label: String) -> (result: Result<u32, AssemblerError>)
        ensures
            agrees(result, data_label_address(self@.symbols, label@)),
    {
        match self.lookup(label.as_str()) {
            Some(symbol) => {
                if symbol.segment == Segment::Data {
                    Ok(symbol.address)
                } else {
                    Err(AssemblerError::InvalidLabel(label))
                }
            },
            None => Err(AssemblerError::InvalidLabel(label)),
        }
    }

    /// Expands the instruction line that begins at position `start` of a
    /// token line.
    pub fn expand_at(&self, tokens: &Vec<Token>, start: usize) -> (result: Result<
        Vec<Instruction>,
        AssemblerError,
    >)
        ensures
            agrees_view(result, expansion(self@.symbols, tokens.deep_view(), start as int)),
    {
        let value = match operand(tokens, start, 0) {
            Some(Token::Operator { value }) => value.as_str(),
            _ => {
                return Err(AssemblerError::InvalidInstruction);
            },
        };
        if str_eq(value, "syscall") {
            Ok(one(Instruction::SystemCall))
        } else if str_eq(value, "addi") {
            match parse_two_registers_and_immediate(tokens, start) {
                Err(e) => Err(e),
                Ok((res, reg, imm)) => Ok(one(Instruction::AddImmediate { res, reg, imm })),
            }
        } else if str_eq(value, "addu") {
            match parse_two_registers(tokens, start) {
                Err(e) => Err(e),
                Ok((res, reg)) => match parse_register(tokens, start, 3) {
                    Err(e) => Err(e),
                    Ok(ret) => Ok(one(Instruction::AddUnsigned { res, reg, ret })),
                },
            }
        } else if str_eq(value, "lui") {
            match parse_register(tokens, start, 1) {
                Err(e) => Err(e),
                Ok(res) => match parse_immediate(tokens, start, 2) {
                    Err(e) => Err(e),
                    Ok(imm) => Ok(one(Instruction::LoadUpperImmediate { res, imm })),
                },
            }
        } else if str_eq(value, "ori") {
            match parse_two_registers_and_immediate(tokens, start) {
                Err(e) => Err(e),
                Ok((res, reg, imm)) => Ok(one(Instruction::OrImmediate { res, reg, imm })),
            }
        } else if str_eq(value, "move") {
            match parse_two_registers(tokens, start) {
                Err(e) => Err(e),
                Ok((res, reg)) => Ok(
                    one(Instruction::AddUnsigned { res, reg, ret: Register::Zero }),
                ),
            }
        } else if str_eq(value, "li") {
            match parse_register(tokens, start, 1) {
                Err(e) => Err(e),
                Ok(res) => match parse_number(tokens, start, 2) {
                    Err(e) => Err(e),
                    Ok(n) => Ok(expand_load_immediate(res, n)),
                },
            }
        } else if str_eq(value, "la") {
            match parse_register(tokens, start, 1) {
                Err(e) => Err(e),
                Ok(res) => match parse_label(tokens, start, 2) {
                    Err(e) => Err(e),
                    Ok(label) => match self.data_label(label) {
                        Err(e) => Err(e),
                        Ok(address) => Ok(expand_load_address(res, address)),
                    },
                },
            }
        } else {
            Err(AssemblerError::InvalidInstruction)
        }
    }

    /// Expands one instruction line, which begins with its operator, into
    /// the primitive instructions that it stands for.
    pub fn expand_instruction(&self, tokens: Vec<Token>) -> (result: Result<
        Vec<Instruction>,
        AssemblerError,
    >)
        ensures
            agrees_view(result, expansion(self@.symbols, tokens.deep_view(), 0)),
    {
        self.expand_at(&tokens, 0)
    }

    /// Writes the string of a `.ascii` or `.asciiz` directive.
    fn emit_string(&mut self, value: &str, terminated: bool) -> (result: Result<
        (),
        AssemblerError,
    >)
        requires
            old(self).wf(),
        ensures
            final(self).wf(),
            state_agrees(
                result,
                final(self)@,
                match string_data(value@, terminated) {
                    Err(e) => Err(e),
                    Ok(bytes) => old(self)@.emit(bytes),
                },
                old(self)@,
            ),
    {
        let bytes = value.as_bytes();
        if has_zero(bytes) {
            return Err(AssemblerError::InvalidString);
        }
        if terminated {
            let mut with_zero = vstd::slice::slice_to_vec(bytes);
            with_zero.push(0u8);
            self.emit(with_zero.as_slice())
        } else {
            self.emit(bytes)
        }
    }

    /// Carries out a directive; its operands stand from position `start`
    /// of the token line on.
    pub fn handle_directive(&mut self, kind: Directive, tokens: &Vec<Token>, start: usize) -> (result:
        Result<(), AssemblerError>)
        requires
            old(self).wf(),
        ensures
            final(self).wf(),
            state_agrees(
                result,
                final(self)@,
                directive_effect(old(self)@, kind, tokens.deep_view(), start as int),
                old(self)@,
            ),
    {
        match kind {
            Directive::DataDirective => {
                self.current_segment = Segment::Data;
                Ok(())
            },
            Directive::TextDirective => {
                self.current_segment = Segment::Text;
                Ok(())
            },
            Directive::GlobalDirective => {
                match parse_label(tokens, start, 0) {
                    Ok(name) => {
                        self.entry_point = Some(name);
                        Ok(())
                    },
                    Err(_) => Err(AssemblerError::EntrypointMissing),
                }
            },
            Directive::AsciiDirective => match operand(tokens, start, 0) {
                Some(Token::Text { value }) => self.emit_string(value.as_str(), false),
                _ => Err(AssemblerError::InvalidToken),
            },
            Directive::AsciizDirective => match operand(tokens, start, 0) {
                Some(Token::Text { value }) => self.emit_string(value.as_str(), true),
                _ => Err(AssemblerError::InvalidToken),
            },
            Directive::ByteDirective => match collect_bytes(tokens, start) {
                Err(e) => Err(e),
                Ok(bytes) => self.emit(bytes.as_slice()),
            },
            Directive::WordDirective => Err(AssemblerError::UnknownDirective),
        }
    }

    /// Assembles one token line.
    pub fn assemble_line(&mut self, line: &Vec<Token>) -> (result: Result<(), AssemblerError>)
        requires
            old(self).wf(),
        ensures
            final(self).wf(),
            state_agrees(
                result,
                final(self)@,
                line_effect(old(self)@, line.deep_view()),
                declared(old(self)@, line.deep_view()),
            ),
    {
        let mut at: usize = 0;
        if line.len() > 0 {
            if let Token::Label { name, decl } = &line[0] {
                if *decl {
                    self.declare(name);
                    at = 1;
                }
            }
        }
        match operand(line, at, 0) {
            None => Ok(()),
            Some(Token::Directive { kind }) => self.handle_directive(*kind, line, at + 1),
            Some(Token::Operator { .. }) => match self.expand_at(line, at) {
                Err(e) => Err(e),
                Ok(expanded) => self.append(&expanded),
            },
            Some(_) => Err(AssemblerError::InvalidToken),
        }
    }

    /// Assembles a program, line by line, and stops at the first line
    /// that fails.
    pub fn assemble(&mut self, tokenized: Vec<Vec<Token>>) -> (result: Result<(), AssemblerError>)
        requires
            old(self).wf(),
        ensures
            final(self).wf(),
            state_agrees(
                result,
                final(self)@,
                program_effect(old(self)@, tokenized.deep_view()),
                program_progress(old(self)@, tokenized.deep_view()),
            ),
    {
        let ghost program = tokenized.deep_view();
        let mut i: usize = 0;
        assert(program.skip(0) =~= program);
        while i < tokenized.len()
            invariant
                i <= tokenized.len(),
                self.wf(),
                program == tokenized.deep_view(),
                program_effect(self@, program.skip(i as int)) == program_effect(old(self)@, program),
                program_progress(self@, program.skip(i as int)) == program_progress(
                    old(self)@,
                    program,
                ),
            decreases tokenized.len() - i,
        {
            assert(program.skip(i as int).skip(1) =~= program.skip(i + 1));
            assert(program.skip(i as int)[0] == tokenized@[i as int].deep_view());
            self.assemble_line(&tokenized[i])?;
            i += 1;
        }
        Ok(())
    }

    /// Turns a source text into tokens and assembles them.
    pub fn assemble_source(&mut self, source: &str) -> (result: Result<(), AssemblerError>)
        requires
            old(self).wf(),
        ensures
            final(self).wf(),
            state_agrees(
                result,
                final(self)@,
                source_effect(old(self)@, source@),
                source_progress(old(self)@, source@),
            ),
    {
        match tokenize(source) {
            Err(e) => Err(AssemblerError::TokenizationFailed(e)),
            Ok(tokenized) => self.assemble(tokenized),
        }
    }

    /// The instructions gathered so far, in order.
    pub fn instruction_list(&self) -> (list: &Vec<Instruction>)
        ensures
            list@ == self@.text,
    {
        &self.text_lines
    }

    /// The address at which execution begins.
    pub fn get_entry_point(&self) -> (entry: Address)
        ensures
            entry.0 == self@.entry_address(),
    {
        match &self.entry_point {
            Some(name) => match self.lookup(name.as_str()) {
                Some(symbol) => Address(symbol.address),
                None => Address(BASE_TEXT_ADDR),
            },
            None => Address(BASE_TEXT_ADDR),
        }
    }

    /// The data bytes from an address on. An address in the data segment
    /// is counted from the base of that segment, one between the two
    /// bases from the base of the text segment; below the text segment,
    /// and past the last byte, nothing is left.
    pub fn memory_at(&self, addr: u32) -> (bytes: &[u8])
        ensures
            bytes@ == memory_from(self@.data, addr),
    {
        let offset: usize = if addr >= BASE_DATA_ADDR {
            (addr - BASE_DATA_ADDR) as usize
        } else if addr >= BASE_TEXT_ADDR {
            (addr - BASE_TEXT_ADDR) as usize
        } else {
            return vstd::slice::slice_subrange(self.memory.as_slice(), 0, 0);
        };
        if offset <= self.memory.len() {
            vstd::slice::slice_subrange(self.memory.as_slice(), offset, self.memory.len())
        } else {
            vstd::slice::slice_subrange(self.memory.as_slice(), 0, 0)
        }
    }

    /// The memory that the program's data directives wrote, by address.
    pub fn take_memory(&self) -> (memory: HashMap<u32, u8>)
        requires
            self.wf(),
        ensures
            memory@ == data_image(self@.data),
            forall|a: u32| #[trigger]
                memory@.contains_key(a) <==> BASE_DATA_ADDR <= a < BASE_DATA_ADDR
                    + self@.data.len(),
            forall|a: u32| #[trigger]
                memory@.contains_key(a) ==> memory@[a] == self@.data[a - BASE_DATA_ADDR],
    {
        broadcast use vstd::std_specs::hash::group_hash_axioms;

        let mut memory: HashMap<u32, u8> = HashMap::new();
        let mut i: usize = 0;
        assert(memory@ =~= data_image(self.memory@.take(0)));
        while i < self.memory.len()
            invariant
                i <= self.memory.len(),
                self.wf(),
                memory@ == data_image(self.memory@.take(i as int)),
            decreases self.memory.len() - i,
        {
            let address: u32 = BASE_DATA_ADDR + (i as u32);
            memory.insert(address, self.memory[i]);
            assert(memory@ =~= data_image(self.memory@.take(i + 1)));
            i += 1;
        }
        assert(self.memory@.take(i as int) =~= self.memory@);
        memory
    }

    /// The text image: each instruction by its address.
    pub fn get_instructions(&self) -> (image: HashMap<u32, Instruction>)
        requires
            self.wf(),
        ensures
            image@ == text_image(self@.text),
            forall|a: u32| #[trigger]
                image@.contains_key(a) <==> exists|i: int|
                    0 <= i < self@.text.len() && a == #[trigger] text_address(i),
            forall|i: int|
                0 <= i < self@.text.len() ==> image@[#[trigger] (text_address(i) as u32)]
                    == self@.text[i],
    {
        broadcast use vstd::std_specs::hash::group_hash_axioms;

        proof {
            lemma_text_image_keys(self@.text);
        }

        let mut image: HashMap<u32, Instruction> = HashMap::new();
        let mut i: usize = 0;
        assert(image@ =~= text_image(self.text_lines@.take(0)));
        while i < self.text_lines.len()
            invariant
                i <= self.text_lines.len(),
                self.wf(),
                image@ == text_image(self.text_lines@.take(i as int)),
            decreases self.text_lines.len() - i,
        {
            let address: u32 = BASE_TEXT_ADDR + 4 * (i as u32);
            image.insert(address, self.text_lines[i]);
            assert(image@ =~= text_image(self.text_lines@.take(i + 1)));
            i += 1;
        }
        assert(self.text_lines@.take(i as int) =~= self.text_lines@);
        image
    }
}

} // verus!
