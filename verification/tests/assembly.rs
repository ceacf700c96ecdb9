use mips_sim::address::Address;
use mips_sim::assembler::Assembler;
use mips_sim::errors::AssemblerError;
use mips_sim::expansion::{expand_load_address, expand_load_immediate};
use mips_sim::operands::{parse_immediate, parse_label, parse_number, parse_register};
use mips_sim::symbols::{BASE_DATA_ADDR, BASE_TEXT_ADDR};
use mips_sim::instructions::Instruction;
use mips_sim::registers::{CpuError, Register};
use mips_sim::tokenizer::{tokenize, Directive, Token, TokenizerError};

fn line(source: &str) -> Vec<Token> {
    tokenize(source).unwrap().remove(0)
}

fn expand(source: &str) -> Result<Vec<Instruction>, AssemblerError> {
    Assembler::new().expand_instruction(line(source))
}

fn assembled(source: &str) -> Assembler {
    let mut assembler = Assembler::new();
    assert_eq!(assembler.assemble_source(source), Ok(()));
    assembler
}

fn failure(source: &str) -> AssemblerError {
    Assembler::new().assemble_source(source).unwrap_err()
}

fn data_of(assembler: &Assembler) -> Vec<u8> {
    let memory = assembler.take_memory();
    let mut bytes = Vec::new();
    while let Some(b) = memory.get(&(BASE_DATA_ADDR + bytes.len() as u32)) {
        bytes.push(*b);
    }
    assert_eq!(memory.len(), bytes.len());
    bytes
}

fn text_of(assembler: &Assembler) -> Vec<Instruction> {
    let image = assembler.get_instructions();
    let mut list = Vec::new();
    while let Some(i) = image.get(&(BASE_TEXT_ADDR + 4 * list.len() as u32)) {
        list.push(*i);
    }
    assert_eq!(image.len(), list.len());
    list
}

#[test]
fn operands_are_read_by_kind() {
    let tokens = line("op $t0 12 name 40000 $bad lab:");
    assert_eq!(parse_register(&tokens, 0, 1), Ok(Register::T0));
    assert_eq!(parse_register(&tokens, 1, 0), Ok(Register::T0));
    assert_eq!(parse_register(&tokens, 0, 2), Err(AssemblerError::InvalidInstruction));
    assert_eq!(parse_register(&tokens, 0, 9), Err(AssemblerError::InvalidInstruction));
    assert_eq!(
        parse_register(&tokens, 0, 5),
        Err(AssemblerError::InvalidRegister(CpuError::NoSuchRegister("$bad".to_string())))
    );
    assert_eq!(parse_number(&tokens, 0, 2), Ok(12));
    assert_eq!(parse_number(&tokens, 0, 4), Ok(40000));
    assert_eq!(parse_number(&tokens, 0, 1), Err(AssemblerError::InvalidInstruction));
    assert_eq!(parse_immediate(&tokens, 0, 2), Ok(12));
    assert_eq!(parse_immediate(&tokens, 0, 4), Err(AssemblerError::InvalidImmediateValue(40000)));
    assert_eq!(parse_immediate(&tokens, 0, 3), Err(AssemblerError::InvalidInstruction));
    assert_eq!(parse_label(&tokens, 0, 3), Ok("name".to_string()));
    assert_eq!(parse_label(&tokens, 0, 6), Err(AssemblerError::InvalidLabel(String::new())));
    assert_eq!(parse_label(&tokens, 0, 1), Err(AssemblerError::InvalidLabel(String::new())));
    assert_eq!(parse_label(&tokens, 7, 0), Err(AssemblerError::InvalidLabel(String::new())));
    assert_eq!(parse_register(&tokens, 100, 0), Err(AssemblerError::InvalidInstruction));
    assert_eq!(parse_register(&tokens, usize::MAX, 2), Err(AssemblerError::InvalidInstruction));
    assert_eq!(parse_number(&tokens, 1, usize::MAX), Err(AssemblerError::InvalidInstruction));
    assert_eq!(parse_number(&tokens, 1, 1), Ok(12));
}

#[test]
fn expansion_from_a_position_of_the_line() {
    let tokens = line("main: addi $t0, $t1, 3");
    let assembler = Assembler::new();
    assert_eq!(
        assembler.expand_at(&tokens, 1),
        Ok(vec![Instruction::AddImmediate { res: Register::T0, reg: Register::T1, imm: 3 }])
    );
    assert_eq!(assembler.expand_at(&tokens, 0), Err(AssemblerError::InvalidInstruction));
    assert_eq!(assembler.expand_at(&tokens, 5), Err(AssemblerError::InvalidInstruction));
    assert_eq!(assembler.expand_at(&tokens, usize::MAX), Err(AssemblerError::InvalidInstruction));
}

#[test]
fn directives_from_a_position_of_the_line() {
    let tokens = line(".byte 1 2 3");
    let mut assembler = Assembler::new();
    assert_eq!(assembler.handle_directive(Directive::ByteDirective, &tokens, 2), Ok(()));
    assert_eq!(assembler.handle_directive(Directive::ByteDirective, &tokens, 9), Ok(()));
    assert_eq!(data_of(&assembler), vec![2, 3]);
    assert_eq!(
        assembler.handle_directive(Directive::AsciiDirective, &tokens, 1),
        Err(AssemblerError::InvalidToken)
    );
    assert_eq!(
        assembler.handle_directive(Directive::GlobalDirective, &tokens, 4),
        Err(AssemblerError::EntrypointMissing)
    );
    assert_eq!(assembler.handle_directive(Directive::DataDirective, &tokens, 0), Ok(()));
    assert_eq!(assembler.assemble_line(&line("here:")), Ok(()));
    assert_eq!(assembler.lookup("here").map(|s| s.address), Some(BASE_DATA_ADDR + 2));
}

#[test]
fn immediates_at_the_edge_of_sixteen_bits() {
    assert_eq!(parse_immediate(&line("x 32767"), 0, 1), Ok(32767));
    assert_eq!(parse_immediate(&line("x -32768"), 0, 1), Ok(-32768));
    assert_eq!(
        parse_immediate(&line("x 32768"), 0, 1),
        Err(AssemblerError::InvalidImmediateValue(32768))
    );
    assert_eq!(
        parse_immediate(&line("x -32769"), 0, 1),
        Err(AssemblerError::InvalidImmediateValue(-32769))
    );
}

#[test]
fn plain_mnemonics_expand_to_one_instruction() {
    assert_eq!(expand("syscall"), Ok(vec![Instruction::SystemCall]));
    assert_eq!(
        expand("addi $t0, $t1, -4"),
        Ok(vec![Instruction::AddImmediate { res: Register::T0, reg: Register::T1, imm: -4 }])
    );
    assert_eq!(
        expand("addu $a0, $t0, $zero"),
        Ok(vec![Instruction::AddUnsigned {
            res: Register::A0,
            reg: Register::T0,
            ret: Register::Zero
        }])
    );
    assert_eq!(
        expand("lui $s0, 0x1001"),
        Ok(vec![Instruction::LoadUpperImmediate { res: Register::S0, imm: 0x1001 }])
    );
    assert_eq!(
        expand("ori $s0, $s1, 255"),
        Ok(vec![Instruction::OrImmediate { res: Register::S0, reg: Register::S1, imm: 255 }])
    );
    assert_eq!(
        expand("move $v0, $a3"),
        Ok(vec![Instruction::AddUnsigned {
            res: Register::V0,
            reg: Register::A3,
            ret: Register::Zero
        }])
    );
}

#[test]
fn trailing_tokens_are_not_looked_at() {
    assert_eq!(expand("syscall $t0 12"), Ok(vec![Instruction::SystemCall]));
    assert_eq!(
        expand("move $v0, $a3, $bad"),
        Ok(vec![Instruction::AddUnsigned {
            res: Register::V0,
            reg: Register::A3,
            ret: Register::Zero
        }])
    );
}

#[test]
fn load_immediate_has_three_shapes() {
    let t0 = Register::T0;
    let small = |imm: i16| vec![Instruction::AddImmediate { res: t0, reg: Register::Zero, imm }];
    assert_eq!(expand_load_immediate(t0, 0), small(0));
    assert_eq!(expand_load_immediate(t0, 32767), small(32767));
    assert_eq!(expand_load_immediate(t0, -32768), small(-32768));
    assert_eq!(expand_load_immediate(t0, -1), small(-1));
    assert_eq!(
        expand_load_immediate(t0, 0x0001_0000),
        vec![Instruction::LoadUpperImmediate { res: t0, imm: 1 }]
    );
    assert_eq!(
        expand_load_immediate(t0, i32::MIN),
        vec![Instruction::LoadUpperImmediate { res: t0, imm: -32768 }]
    );
    assert_eq!(
        expand_load_immediate(t0, 0x1234_5678),
        vec![
            Instruction::LoadUpperImmediate { res: t0, imm: 0x1234 },
            Instruction::OrImmediate { res: t0, reg: t0, imm: 0x5678 },
        ]
    );
    assert_eq!(
        expand_load_immediate(t0, 32768),
        vec![
            Instruction::LoadUpperImmediate { res: t0, imm: 0 },
            Instruction::OrImmediate { res: t0, reg: t0, imm: -32768 },
        ]
    );
    assert_eq!(
        expand_load_immediate(t0, -32769),
        vec![
            Instruction::LoadUpperImmediate { res: t0, imm: -1 },
            Instruction::OrImmediate { res: t0, reg: t0, imm: 0x7FFF },
        ]
    );
    assert_eq!(expand("li $t0, 0x12345678"), Ok(expand_load_immediate(t0, 0x1234_5678)));
    assert_eq!(expand("li $t0 7"), Ok(small(7)));
}

#[test]
fn load_address_splits_the_address() {
    assert_eq!(
        expand_load_address(Register::A0, 0x1001_0004),
        vec![
            Instruction::LoadUpperImmediate { res: Register::A0, imm: 0x1001 },
            Instruction::OrImmediate { res: Register::A0, reg: Register::A0, imm: 4 },
        ]
    );
    assert_eq!(
        expand_load_address(Register::A0, 0xFFFF_8000),
        vec![
            Instruction::LoadUpperImmediate { res: Register::A0, imm: -1 },
            Instruction::OrImmediate { res: Register::A0, reg: Register::A0, imm: -32768 },
        ]
    );
}

#[test]
fn load_address_needs_a_data_label_defined_before() {
    let assembler = assembled(".data\nfirst: .byte 1 2 3\nsecond: .byte 4\n.text\nla $a0, second");
    assert_eq!(text_of(&assembler), expand_load_address(Register::A0, BASE_DATA_ADDR + 3));
    assert_eq!(
        failure(".text\nla $a0, later\n.data\nlater: .byte 1"),
        AssemblerError::InvalidLabel("later".to_string())
    );
    assert_eq!(
        failure(".text\nmain: la $a0, main"),
        AssemblerError::InvalidLabel("main".to_string())
    );
    assert_eq!(failure("la $a0"), AssemblerError::InvalidLabel(String::new()));
    assert_eq!(failure("la $a0, 5"), AssemblerError::InvalidLabel(String::new()));
}

#[test]
fn a_later_definition_of_a_label_replaces_the_earlier() {
    let assembler = assembled(".data\nx: .byte 1\nx: .byte 2\n.text\nla $t0, x");
    assert_eq!(text_of(&assembler), expand_load_address(Register::T0, BASE_DATA_ADDR + 1));
    assert_eq!(assembler.lookup("x").map(|s| s.address), Some(BASE_DATA_ADDR + 1));
    assert_eq!(assembler.lookup("y"), None);
}

#[test]
fn the_first_wrong_operand_decides_the_failure() {
    assert_eq!(expand("frob $t0"), Err(AssemblerError::InvalidInstruction));
    assert_eq!(expand("addi $t0, $t1"), Err(AssemblerError::InvalidInstruction));
    assert_eq!(expand("addi $t0, 5, 5"), Err(AssemblerError::InvalidInstruction));
    assert_eq!(
        expand("addi $t0, $t1, 70000"),
        Err(AssemblerError::InvalidImmediateValue(70000))
    );
    assert_eq!(
        expand("addi $tx, $ty, 70000"),
        Err(AssemblerError::InvalidRegister(CpuError::NoSuchRegister("$tx".to_string())))
    );
    assert_eq!(
        expand("addu $t0, $t1, $ty"),
        Err(AssemblerError::InvalidRegister(CpuError::NoSuchRegister("$ty".to_string())))
    );
    assert_eq!(expand("lui $t0, 65536"), Err(AssemblerError::InvalidImmediateValue(65536)));
    assert_eq!(expand("ori $t0, $t0, -32769"), Err(AssemblerError::InvalidImmediateValue(-32769)));
    assert_eq!(expand("li $t0"), Err(AssemblerError::InvalidInstruction));
    assert_eq!(expand("move $t0"), Err(AssemblerError::InvalidInstruction));
    assert_eq!(
        Assembler::new().expand_instruction(vec![Token::Number { value: 1 }]),
        Err(AssemblerError::InvalidInstruction)
    );
    assert_eq!(
        Assembler::new().expand_instruction(Vec::new()),
        Err(AssemblerError::InvalidInstruction)
    );
}

#[test]
fn string_directives_write_bytes() {
    let assembler = assembled(".data\n.ascii \"ab\"\n.asciiz \"cd\\n\"\n.ascii \"\"\n.asciiz \"\"");
    assert_eq!(data_of(&assembler), b"abcd\n\0\0".to_vec());
    let utf8 = assembled(".data\n.asciiz \"é\"");
    assert_eq!(data_of(&utf8), vec![0xC3, 0xA9, 0]);
}

#[test]
fn byte_directive_writes_the_low_eight_bits() {
    let assembler = assembled(".data\n.byte 65, 66, 67, 0\n.byte -128 -1 255 128\n.byte");
    assert_eq!(data_of(&assembler), vec![65, 66, 67, 0, 128, 255, 255, 128]);
    let stops = assembled(".byte 1 2 x 3");
    assert_eq!(data_of(&stops), vec![1, 2]);
}

#[test]
fn byte_values_out_of_range() {
    assert_eq!(failure(".byte 1 256"), AssemblerError::InvalidByteValue);
    assert_eq!(failure(".byte -129"), AssemblerError::InvalidByteValue);
}

#[test]
fn directive_failures() {
    assert_eq!(failure(".globl"), AssemblerError::EntrypointMissing);
    assert_eq!(failure(".globl 5"), AssemblerError::EntrypointMissing);
    assert_eq!(failure(".globl main:"), AssemblerError::EntrypointMissing);
    assert_eq!(failure(".ascii 5"), AssemblerError::InvalidToken);
    assert_eq!(failure(".asciiz"), AssemblerError::InvalidToken);
    assert_eq!(failure(".word 5"), AssemblerError::UnknownDirective);
    assert_eq!(
        failure(".frob"),
        AssemblerError::TokenizationFailed(TokenizerError::UnknownDirective(".frob".to_string()))
    );
}

#[test]
fn a_string_with_a_zero_byte_is_refused() {
    let mut assembler = Assembler::new();
    let tokens = vec![vec![
        Token::Directive { kind: Directive::AsciizDirective },
        Token::Text { value: "a\0b".to_string() },
    ]];
    assert_eq!(assembler.assemble(tokens), Err(AssemblerError::InvalidString));
    assert_eq!(data_of(&assembler), Vec::<u8>::new());
}

#[test]
fn lines_that_begin_with_something_else() {
    assert_eq!(failure("$t0 li"), AssemblerError::InvalidToken);
    assert_eq!(failure("5"), AssemblerError::InvalidToken);
    assert_eq!(failure("a: b: syscall"), AssemblerError::InvalidToken);
    assert_eq!(failure("\"text\""), AssemblerError::InvalidToken);
    assert_eq!(failure("syscall\n5\n.globl"), AssemblerError::InvalidToken);
}

#[test]
fn labels_take_the_cursor_of_their_segment() {
    let assembler = assembled(
        "start: li $t0, 0x12345678\nnext: syscall\n.data\nd0: .asciiz \"hey\"\nd1:\n.text\nlast:",
    );
    let at = |name: &str| assembler.lookup(name).map(|s| s.address);
    assert_eq!(at("start"), Some(BASE_TEXT_ADDR));
    assert_eq!(at("next"), Some(BASE_TEXT_ADDR + 8));
    assert_eq!(at("d0"), Some(BASE_DATA_ADDR));
    assert_eq!(at("d1"), Some(BASE_DATA_ADDR + 4));
    assert_eq!(at("last"), Some(BASE_TEXT_ADDR + 12));
}

#[test]
fn entry_point_is_the_label_or_the_text_base() {
    assert_eq!(Assembler::new().get_entry_point(), Address(BASE_TEXT_ADDR));
    assert_eq!(assembled(".globl main").get_entry_point(), Address(BASE_TEXT_ADDR));
    assert_eq!(
        assembled(".globl main\nsyscall\nmain: syscall").get_entry_point(),
        Address(BASE_TEXT_ADDR + 4)
    );
    assert_eq!(
        assembled(".globl a\n.globl b\nsyscall\na: syscall\nsyscall\nb:").get_entry_point(),
        Address(BASE_TEXT_ADDR + 12)
    );
}

#[test]
fn text_image_keys_have_no_gaps() {
    let assembler = assembled("li $t0, 0x12345678\nsyscall\nmove $a0, $t0\nli $t1, 0x10000");
    let image = assembler.get_instructions();
    let mut keys: Vec<u32> = image.keys().copied().collect();
    keys.sort();
    assert_eq!(keys, (0..5).map(|i| BASE_TEXT_ADDR + 4 * i).collect::<Vec<u32>>());
    assert_eq!(image[&(BASE_TEXT_ADDR + 8)], Instruction::SystemCall);
    assert!(Assembler::new().get_instructions().is_empty());
    assert!(Assembler::new().take_memory().is_empty());
}

#[test]
fn memory_from_an_address_on() {
    let assembler = assembled(".data\n.ascii \"abcdef\"");
    assert_eq!(assembler.memory_at(BASE_DATA_ADDR), b"abcdef");
    assert_eq!(assembler.memory_at(BASE_DATA_ADDR + 4), b"ef");
    assert_eq!(assembler.memory_at(BASE_DATA_ADDR + 6), b"");
    assert_eq!(assembler.memory_at(BASE_DATA_ADDR + 7), b"");
    assert_eq!(assembler.memory_at(BASE_TEXT_ADDR + 2), b"cdef");
    assert_eq!(assembler.memory_at(BASE_TEXT_ADDR - 1), b"");
    assert_eq!(assembler.memory_at(0), b"");
}

#[test]
fn assembling_goes_on_where_it_stopped() {
    let mut assembler = Assembler::new();
    assert_eq!(assembler.assemble(tokenize(".data\n.byte 1").unwrap()), Ok(()));
    assert_eq!(assembler.assemble(tokenize("here: .byte 2").unwrap()), Ok(()));
    assert_eq!(data_of(&assembler), vec![1, 2]);
    assert_eq!(assembler.lookup("here").map(|s| s.address), Some(BASE_DATA_ADDR + 1));
}

#[test]
fn a_new_assembler_is_within_the_address_space() {
    assert!(Assembler::new().within_address_space());
    assert!(assembled(".data\n.asciiz \"abc\"\n.text\nsyscall").within_address_space());
    assert_eq!(assembled("li $t0, 0x12345678\nsyscall").instruction_list().len(), 3);
}

#[test]
fn a_failed_line_keeps_what_came_before_and_its_label() {
    let mut assembler = Assembler::new();
    let program = tokenize(".data\n.byte 7\nsyscall\nbad: .byte 300\n.byte 9").unwrap();
    assert_eq!(assembler.assemble(program), Err(AssemblerError::InvalidByteValue));
    assert_eq!(data_of(&assembler), vec![7]);
    assert_eq!(text_of(&assembler), vec![Instruction::SystemCall]);
    assert_eq!(assembler.lookup("bad").map(|s| s.address), Some(BASE_DATA_ADDR + 1));
    let mut assembler = Assembler::new();
    assert_eq!(
        assembler.assemble_source("syscall\n.frob"),
        Err(AssemblerError::TokenizationFailed(TokenizerError::UnknownDirective(
            ".frob".to_string()
        )))
    );
    assert!(assembler.instruction_list().is_empty());
}

#[test]
fn a_string_with_a_zero_character_in_the_source() {
    assert_eq!(failure(".asciiz \"a\0b\""), AssemblerError::InvalidString);
    assert_eq!(failure(".ascii \"\0\""), AssemblerError::InvalidString);
}

#[test]
fn an_instruction_line_may_use_its_own_label() {
    let assembler = assembled(".data\n.byte 1\nhere: la $t0, here");
    assert_eq!(text_of(&assembler), expand_load_address(Register::T0, BASE_DATA_ADDR + 1));
}
