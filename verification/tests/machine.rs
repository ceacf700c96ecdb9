use mips_sim::address::Address;
use mips_sim::cpu::Cpu;
use mips_sim::instructions::{i_format, j_format, r_format, r_format_syscall, Instruction};
use mips_sim::registers::{CpuError, RegFile, Register};

const ALL: [Register; 32] = [
    Register::Zero, Register::At, Register::V0, Register::V1, Register::A0, Register::A1,
    Register::A2, Register::A3, Register::T0, Register::T1, Register::T2, Register::T3,
    Register::T4, Register::T5, Register::T6, Register::T7, Register::S0, Register::S1,
    Register::S2, Register::S3, Register::S4, Register::S5, Register::S6, Register::S7,
    Register::T8, Register::T9, Register::K0, Register::K1, Register::Gp, Register::Sp,
    Register::Fp, Register::Ra,
];

#[test]
fn registers_are_numbered_in_order() {
    for (i, r) in ALL.iter().enumerate() {
        assert_eq!(r.index() as usize, i);
        assert_eq!(Register::from_index(i as u8), Some(*r));
    }
    assert_eq!(Register::from_index(32), None);
    assert_eq!(Register::from_index(255), None);
}

#[test]
fn registers_by_name() {
    let names = [
        "$zero", "$at", "$v0", "$v1", "$a0", "$a1", "$a2", "$a3", "$t0", "$t1", "$t2", "$t3",
        "$t4", "$t5", "$t6", "$t7", "$s0", "$s1", "$s2", "$s3", "$s4", "$s5", "$s6", "$s7", "$t8",
        "$t9", "$k0", "$k1", "$gp", "$sp", "$fp", "$ra",
    ];
    for (name, r) in names.iter().zip(ALL.iter()) {
        assert_eq!(Register::from_str(name), Ok(*r));
    }
    assert_eq!(Register::from_str("$0"), Ok(Register::Zero));
}

#[test]
fn unknown_register_names() {
    for name in ["$t10", "t0", "$", "", "$1", "$ZERO", "$a4", " $t0"] {
        assert_eq!(Register::from_str(name), Err(CpuError::NoSuchRegister(name.to_string())));
    }
}

#[test]
fn register_file_reads_what_was_written() {
    let mut file = RegFile::new();
    for r in ALL {
        assert_eq!(file.get(r), 0);
    }
    file.set(Register::T0, 0xDEAD_BEEF);
    file.set(Register::Ra, 7);
    assert_eq!(file.get(Register::T0), 0xDEAD_BEEF);
    assert_eq!(file.get(Register::Ra), 7);
    assert_eq!(file.get(Register::T1), 0);
    file.set(Register::T0, 1);
    assert_eq!(file.get(Register::T0), 1);
}

#[test]
fn default_register_file_is_all_zero() {
    let file = RegFile::default();
    for r in ALL {
        assert_eq!(file.get(r), 0);
    }
}

#[test]
fn register_zero_ignores_writes() {
    let mut file = RegFile::new();
    file.set(Register::Zero, 99);
    assert_eq!(file.get(Register::Zero), 0);
    file.set(Register::At, 5);
    file.set(Register::Zero, u32::MAX);
    assert_eq!(file.get(Register::Zero), 0);
    assert_eq!(file.get(Register::At), 5);
}

#[test]
fn cpu_registers_by_name() {
    let mut cpu = Cpu::new();
    assert_eq!(cpu.program_counter(), 0);
    assert_eq!(cpu.high_register(), 0);
    assert_eq!(cpu.low_register(), 0);
    assert_eq!(cpu.get_register("$t3"), Ok(0));
    assert_eq!(cpu.set_register("$t3", 12), Ok(()));
    assert_eq!(cpu.get_register("$t3"), Ok(12));
    assert_eq!(cpu.set_register("$zero", 12), Ok(()));
    assert_eq!(cpu.get_register("$0"), Ok(0));
    assert_eq!(cpu.get_register("$x"), Err(CpuError::NoSuchRegister("$x".to_string())));
    assert_eq!(cpu.set_register("$x", 1), Err(CpuError::NoSuchRegister("$x".to_string())));
}

#[test]
fn addresses() {
    let base = Address(0x1001_0000);
    assert_eq!(base.value(), 0x1001_0000);
    assert_eq!(base.offset(4), Address(0x1001_0004));
    assert_eq!(base.offset(4).distance_from(base), 4);
    assert_eq!(Address(0xFFFF_FFFC).wrapping_offset(4), Address(0));
    assert_eq!(Address(0xFFFF_FFFF).wrapping_offset(4), Address(3));
    assert_eq!(Address(8).wrapping_offset(4), Address(12));
}

#[test]
fn format_words() {
    assert_eq!(r_format(0, 0x21, Register::T0, Register::Zero, Register::A0), 0x0100_2021);
    assert_eq!(r_format(0, 0x21, Register::Ra, Register::Ra, Register::Ra), 0x03FF_F821);
    assert_eq!(r_format_syscall(0, 0x0C), 0x0000_000C);
    assert_eq!(i_format(0x09, Register::Zero, Register::T0, 5), 0x2408_0005);
    assert_eq!(i_format(0x09, Register::T1, Register::T0, -1), 0x2528_FFFF);
    assert_eq!(i_format(0x0F, Register::Zero, Register::T0, 0x1234), 0x3C08_1234);
    assert_eq!(j_format(2, 0x0FFF_FFFF), 0x0BFF_FFFF);
    assert_eq!(j_format(3, 0x0040_0000), 0x0C40_0000);
}

#[test]
fn instruction_words() {
    let addi = Instruction::AddImmediate { res: Register::T0, reg: Register::Zero, imm: 5 };
    let addu = Instruction::AddUnsigned { res: Register::A0, reg: Register::T0, ret: Register::Zero };
    let lui = Instruction::LoadUpperImmediate { res: Register::T0, imm: 0x1234 };
    let ori = Instruction::OrImmediate { res: Register::T0, reg: Register::T0, imm: 0x5678 };
    assert_eq!(addi.encode(), 0x2408_0005);
    assert_eq!(addu.encode(), 0x0100_2021);
    assert_eq!(lui.encode(), 0x3C08_1234);
    assert_eq!(ori.encode(), 0x3508_5678);
    assert_eq!(Instruction::SystemCall.encode(), 0x0000_000C);
    let negative = Instruction::AddImmediate { res: Register::Sp, reg: Register::Sp, imm: -32768 };
    assert_eq!(negative.encode(), 0x27BD_8000);
}

#[test]
fn decoding_gives_the_instruction_back() {
    let imms = [0i16, 1, -1, 0x7FFF, -0x8000, 0x1234, -2];
    for a in ALL {
        for b in [Register::Zero, Register::T0, Register::Ra, Register::V0] {
            for imm in imms {
                let list = [
                    Instruction::AddImmediate { res: a, reg: b, imm },
                    Instruction::OrImmediate { res: b, reg: a, imm },
                    Instruction::LoadUpperImmediate { res: a, imm },
                    Instruction::AddUnsigned { res: a, reg: b, ret: a },
                    Instruction::AddUnsigned { res: b, reg: a, ret: b },
                ];
                for instruction in list {
                    assert_eq!(Instruction::decode(instruction.encode()), Some(instruction));
                }
            }
        }
    }
    assert_eq!(Instruction::decode(0x0000_000C), Some(Instruction::SystemCall));
}

#[test]
fn words_that_encode_nothing() {
    assert_eq!(Instruction::decode(0), None);
    assert_eq!(Instruction::decode(0xFFFF_FFFF), None);
    assert_eq!(Instruction::decode(0x0800_0000), None);
    assert_eq!(Instruction::decode(0x0000_004C), None);
    assert_eq!(Instruction::decode(0x0100_2061), None);
    assert_eq!(Instruction::decode(0x3D08_1234), None);
    assert_eq!(Instruction::decode(0x0100_2020), None);
}

#[test]
fn decoded_words_encode_to_themselves() {
    for word in [0x2408_0005u32, 0x0100_2021, 0x3C08_1234, 0x3508_5678, 0x0C, 0x27BD_8000] {
        assert_eq!(Instruction::decode(word).map(|i| i.encode()), Some(word));
    }
}

fn command_line(words: &[&str]) -> mips_sim::args::Args {
    mips_sim::args::Args::new(&words.iter().map(|w| w.to_string()).collect())
}

#[test]
fn command_line_with_a_file_and_switches() {
    let args = command_line(&["prog", "hello.asm", "-t", "--memory"]);
    assert_eq!(args.file, "hello.asm");
    assert!(args.tokens && args.memory);
    assert!(!args.help && !args.args && !args.instructions && !args.version);
    let args = command_line(&["prog", "x.s", "-a", "-i", "-v", "-h", "-m", "-t"]);
    assert!(args.args && args.instructions && args.version && args.help && args.memory);
    let args = command_line(&["prog", "x.s", "--args", "--instructions", "--version", "--help", "--tokens"]);
    assert!(args.args && args.instructions && args.version && args.help && args.tokens);
    assert!(!args.memory);
}

#[test]
fn command_line_without_a_file_asks_for_help() {
    assert!(command_line(&["prog"]).help);
    assert_eq!(command_line(&["prog"]).file, "");
    assert!(command_line(&[]).help);
    assert!(command_line(&["prog", ""]).help);
    assert!(!command_line(&["prog", "file"]).help);
    let args = command_line(&["prog", "-v"]);
    assert_eq!(args.file, "-v");
    assert!(args.version && !args.help);
    assert!(!command_line(&["prog", "f", "-x", "--Help", "-hh"]).help);
}

#[test]
fn usage_text() {
    let text = command_line(&["prog"]).help_text("mips");
    let lines: Vec<&str> = text.lines().collect();
    assert_eq!(lines.len(), 8);
    assert_eq!(lines[0], "Usage: mips <file> [options]");
    assert_eq!(lines[1], "Options:");
    assert_eq!(lines[2], "  -h, --help     Print this help message");
    assert_eq!(lines[7], "  -v, --version  Print program version");
    assert!(text.ends_with('\n'));
}
