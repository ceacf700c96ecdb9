//! The simulator: register file, memory, program counter and the
//! fetch-and-execute step. Input, output and the clock are the host's:
//! a step says what the host is to do, and the host hands back what it
//! read.

use crate::address::Address;
use crate::instructions::{add32, computed, executed, sign_extended, Instruction};
use crate::numbers::{decimal_digits, decimal_string, parse_u32, read_u32};
use crate::registers::{written, RegFile, Register};
use crate::text::{chars_of, string_of, trim_end, trimmed_end};
use std::collections::HashMap;
use vstd::prelude::*;

verus! {

/// Why the simulator stopped.
#[derive(Debug, Clone, PartialEq, Eq)]
pub enum SimulatorError {
    /// A system call with a number that stands for no service.
    UnknownSyscall(u32),
    /// The program asked to end, with this exit code.
    Exit(u32),
    /// No instruction stands at the program counter.
    NoMoreInstructions,
    /// The host could not read the input.
    IoError(String),
    /// The line read is no unsigned 32-bit decimal number.
    WrongInputType(String),
    /// The host could not read the clock.
    InvalidSystemTime(String),
}

/// The mathematical content of a [`SimulatorError`].
pub enum SimulatorErrorView {
    UnknownSyscall(u32),
    Exit(u32),
    NoMoreInstructions,
    IoError(Seq<char>),
    WrongInputType(Seq<char>),
    InvalidSystemTime(Seq<char>),
}

impl View for SimulatorError {
    type V = SimulatorErrorView;

    open spec fn view(&self) -> SimulatorErrorView {
        match self {
            SimulatorError::UnknownSyscall(number) => SimulatorErrorView::UnknownSyscall(*number),
            SimulatorError::Exit(code) => SimulatorErrorView::Exit(*code),
            SimulatorError::NoMoreInstructions => SimulatorErrorView::NoMoreInstructions,
            SimulatorError::IoError(text) => SimulatorErrorView::IoError(text@),
            SimulatorError::WrongInputType(text) => SimulatorErrorView::WrongInputType(text@),
            SimulatorError::InvalidSystemTime(text) => SimulatorErrorView::InvalidSystemTime(text@),
        }
    }
}

/// The exit code with which a run ends: the code of an `Exit`, read as a
/// signed word; 0 where the program ran off its last instruction; 1 after
/// any other error.
pub open spec fn exit_code_of(end: SimulatorErrorView) -> i32 {
    match end {
        SimulatorErrorView::Exit(code) => if code <= 0x7FFF_FFFF {
            code as i32
        } else {
            (code - 0x1_0000_0000) as i32
        },
        SimulatorErrorView::NoMoreInstructions => 0,
        _ => 1,
    }
}

impl SimulatorError {
    /// The exit code with which the run ends.
    pub fn exit_code(&self) -> (code: i32)
        ensures
            code == exit_code_of(self@),
    {
        match self {
            SimulatorError::Exit(code) => {
                let code: u32 = *code;
                if code <= 0x7FFF_FFFF {
                    code as i32
                } else {
                    (code as i64 - 0x1_0000_0000) as i32
                }
            },
            SimulatorError::NoMoreInstructions => 0,
            _ => 1,
        }
    }
}

/// What the host is to do after a step, before the next one.
#[derive(Debug, Clone, PartialEq, Eq)]
pub enum Action {
    /// Nothing.
    Continue,
    /// Write the text to standard output.
    Print(String),
    /// Read a line from standard input and hand it to
    /// [`Simulator::finish_read_int`], which completes the step.
    ReadInt,
    /// Read the clock and hand the time to [`Simulator::finish_time`],
    /// which completes the step.
    ReadTime,
}

/// The mathematical content of an [`Action`].
pub enum ActionView {
    Continue,
    Print(Seq<char>),
    ReadInt,
    ReadTime,
}

impl View for Action {
    type V = ActionView;

    open spec fn view(&self) -> ActionView {
        match self {
            Action::Continue => ActionView::Continue,
            Action::Print(text) => ActionView::Print(text@),
            Action::ReadInt => ActionView::ReadInt,
            Action::ReadTime => ActionView::ReadTime,
        }
    }
}

/// The text that `String::from_utf8_lossy` makes of a byte string: its
/// UTF-8 reading, with the replacement character in place of what is no
/// UTF-8. Only the name is given here; how the broken parts are replaced
/// is std's.
pub uninterp spec fn utf8_lossy(bytes: Seq<u8>) -> Seq<char>;

/// Calls `String::from_utf8_lossy`. Believed, not proved: the text is a
/// function of the bytes alone, and for bytes that are UTF-8 it is the
/// text that they encode.
#[verifier::external_body]
fn decode_lossy(bytes: &Vec<u8>) -> (text: String)
    ensures
        text@ == utf8_lossy(bytes@),
        vstd::utf8::valid_utf8(bytes@) ==> text@ == vstd::utf8::decode_utf8(bytes@),
{
    String::from_utf8_lossy(bytes).into_owned()
}

/// The bytes of the string that stands at an address: those from the
/// address upward, up to the first byte that is zero or missing.
pub open spec fn string_at(memory: Map<u32, u8>, address: int) -> Seq<u8>
    decreases 0x1_0000_0000 - address,
{
    if 0 <= address <= 0xFFFF_FFFF && memory.contains_key(address as u32) && memory[address as u32]
        != 0 {
        seq![memory[address as u32]] + string_at(memory, address + 1)
    } else {
        seq![]
    }
}

/// What a system call asks for, by the number in `$v0`: 1 prints `$a0` in
/// decimal, 4 prints the string at the address in `$a0`, 5 reads a
/// number, 10 ends the program with code 0, 17 ends it with the code in
/// `$a0`, 30 reads the clock; any other number is an error.
pub open spec fn syscall_outcome(registers: Seq<u32>, memory: Map<u32, u8>) -> Result<
    ActionView,
    SimulatorErrorView,
> {
    let v0 = registers[Register::V0.spec_index()];
    let a0 = registers[Register::A0.spec_index()];
    if v0 == 1 {
        Ok(ActionView::Print(decimal_digits(a0 as nat)))
    } else if v0 == 4 {
        Ok(ActionView::Print(utf8_lossy(string_at(memory, a0 as int))))
    } else if v0 == 5 {
        Ok(ActionView::ReadInt)
    } else if v0 == 10 {
        Err(SimulatorErrorView::Exit(0))
    } else if v0 == 17 {
        Err(SimulatorErrorView::Exit(a0))
    } else if v0 == 30 {
        Ok(ActionView::ReadTime)
    } else {
        Err(SimulatorErrorView::UnknownSyscall(v0))
    }
}

/// What executing an instruction asks of the host: a system call says
/// it, any other instruction asks for nothing.
pub open spec fn execute_outcome(
    registers: Seq<u32>,
    memory: Map<u32, u8>,
    instruction: Instruction,
) -> Result<ActionView, SimulatorErrorView> {
    match instruction {
        Instruction::SystemCall => syscall_outcome(registers, memory),
        _ => Ok(ActionView::Continue),
    }
}

/// The state of the simulated machine.
pub struct MachineState {
    /// The data memory, by address.
    pub memory: Map<u32, u8>,
    /// The 32 observed register values.
    pub registers: Seq<u32>,
    /// The text image, by address.
    pub instructions: Map<u32, Instruction>,
    /// The program counter.
    pub pc: u32,
}

impl MachineState {
    /// What the next step does: without an instruction at the program
    /// counter it fails, and else it executes that instruction.
    pub open spec fn step_outcome(self) -> Result<ActionView, SimulatorErrorView> {
        if self.instructions.contains_key(self.pc) {
            execute_outcome(self.registers, self.memory, self.instructions[self.pc])
        } else {
            Err(SimulatorErrorView::NoMoreInstructions)
        }
    }

    /// Whether the next step hands a read to the host: the step is then
    /// completed only when the host hands in what it read.
    pub open spec fn awaits_host(self) -> bool {
        self.step_outcome() == Ok::<ActionView, SimulatorErrorView>(ActionView::ReadInt)
            || self.step_outcome() == Ok::<ActionView, SimulatorErrorView>(ActionView::ReadTime)
    }

    /// The state after a step that did not fail. The instruction at the
    /// program counter has been executed, and the program counter has
    /// moved on by 4, round the end of the address space. A step that
    /// hands a read to the host changes nothing yet: the program counter
    /// stays at the system call until the read has succeeded.
    pub open spec fn stepped(self) -> MachineState {
        if self.awaits_host() {
            self
        } else {
            MachineState {
                registers: executed(self.registers, self.instructions[self.pc]),
                pc: add32(self.pc, 4),
                ..self
            }
        }
    }

    /// The state after the host has handed in the number that it read:
    /// the number stands in `$v0`, and the program counter has moved on
    /// by 4.
    pub open spec fn with_input(self, value: u32) -> MachineState {
        MachineState {
            registers: written(self.registers, Register::V0, value),
            pc: add32(self.pc, 4),
            ..self
        }
    }

    /// The state after the host has handed in the time: the low word of
    /// the milliseconds stands in `$a0`, the high word in `$a1`, and the
    /// program counter has moved on by 4.
    pub open spec fn with_time(self, millis: u64) -> MachineState {
        MachineState {
            registers: written(
                written(self.registers, Register::A0, (millis % 0x1_0000_0000) as u32),
                Register::A1,
                (millis / 0x1_0000_0000) as u32,
            ),
            pc: add32(self.pc, 4),
            ..self
        }
    }
}

/// Whether an action prints the decoded string: where a system call
/// asks for the string at `$a0` and the bytes of that string are UTF-8,
/// the text printed is the text that they encode.
pub open spec fn prints_decoded(registers: Seq<u32>, memory: Map<u32, u8>, action: ActionView) -> bool {
    let bytes = string_at(memory, registers[Register::A0.spec_index()] as int);
    registers[Register::V0.spec_index()] == 4 && vstd::utf8::valid_utf8(bytes) ==> action
        == ActionView::Print(vstd::utf8::decode_utf8(bytes))
}

/// What a line of input is read as: the number that stands on it once
/// the whitespace at its end is cut off.
pub open spec fn input_value(line: Seq<char>) -> Option<u32> {
    parse_u32(trim_end(line))
}

/// A read is one step in two parts. The first part, the step that hands
/// the read to the host, changes nothing. The second part, the number or
/// the time that the host hands in, writes the result and moves the
/// program counter on by 4. So a read that fails leaves the machine as it
/// was before the step, and one that succeeds leaves it as one whole step
/// would.
pub proof fn lemma_read_in_two_parts(state: MachineState, value: u32, millis: u64)
    requires
        state.awaits_host(),
    ensures
        state.stepped() == state,
        state.stepped().with_input(value).pc == add32(state.pc, 4),
        state.stepped().with_input(value).registers == written(
            state.registers,
            Register::V0,
            value,
        ),
        state.stepped().with_time(millis).pc == add32(state.pc, 4),
{
}

/// A system call with 17 in `$v0` ends the program with the code in
/// `$a0`, whatever else the machine holds.
pub proof fn lemma_exit_code(state: MachineState)
    requires
        state.instructions.contains_key(state.pc),
        state.instructions[state.pc] == Instruction::SystemCall,
        state.registers[Register::V0.spec_index()] == 17,
    ensures
        state.step_outcome() == Err::<ActionView, SimulatorErrorView>(
            SimulatorErrorView::Exit(state.registers[Register::A0.spec_index()]),
        ),
{
}

/// The simulated machine.
#[derive(Debug)]
pub struct Simulator {
    memory: HashMap<u32, u8>,
    registers: RegFile,
    instructions: HashMap<u32, Instruction>,
    pc: Address,
}

impl View for Simulator {
    type V = MachineState;

    closed spec fn view(&self) -> MachineState {
        MachineState {
            memory: self.memory@,
            registers: self.registers@,
            instructions: self.instructions@,
            pc: self.pc.0,
        }
    }
}

impl Simulator {
    /// A machine with the given text image and memory, all registers 0,
    /// and the program counter at `entry`.
    pub fn new(instructions: HashMap<u32, Instruction>, memory: HashMap<u32, u8>, entry: Address) -> (simulator:
        Simulator)
        ensures
            simulator@ == (MachineState {
                memory: memory@,
                registers: Seq::new(32, |i: int| 0u32),
                instructions: instructions@,
                pc: entry.0,
            }),
    {
        Simulator { memory, registers: RegFile::new(), instructions, pc: entry }
    }

    /// The program counter.
    pub fn pc(&self) -> (pc: Address)
        ensures
            pc.0 == self@.pc,
    {
        self.pc
    }

    /// The register file.
    pub fn registers(&self) -> (file: &RegFile)
        ensures
            file@ == self@.registers,
    {
        &self.registers
    }

    /// The data memory.
    pub fn memory(&self) -> (memory: &HashMap<u32, u8>)
        ensures
            memory@ == self@.memory,
    {
        &self.memory
    }

    /// The machine has 32 registers, and register 0 reads as 0.
    pub proof fn lemma_registers_shape(&self)
        ensures
            self@.registers.len() == 32,
            self@.registers[0] == 0,
    {
        self.registers.lemma_view_shape();
    }

    /// Reads the bytes of the string that stands at an address.
    pub fn read_string(&self, address: u32) -> (bytes: Vec<u8>)
        ensures
            bytes@ == string_at(self@.memory, address as int),
    {
        broadcast use vstd::std_specs::hash::group_hash_axioms;

        let mut bytes: Vec<u8> = Vec::new();
        let mut at: u64 = address as u64;
        assert(bytes@ + string_at(self.memory@, at as int) =~= string_at(
            self.memory@,
            address as int,
        ));
        while at <= 0xFFFF_FFFF
            invariant
                address <= at <= 0x1_0000_0000,
                bytes@ + string_at(self.memory@, at as int) == string_at(
                    self.memory@,
                    address as int,
                ),
            decreases 0x1_0000_0000 - at,
        {
            let key: u32 = at as u32;
            let ghost before = bytes@;
            match self.memory.get(&key) {
                Some(byte) => {
                    if *byte == 0 {
                        assert(before + Seq::<u8>::empty() =~= before);
                        return bytes;
                    }
                    bytes.push(*byte);
                    assert(bytes@ + string_at(self.memory@, at + 1) =~= before + string_at(
                        self.memory@,
                        at as int,
                    ));
                },
                None => {
                    assert(before + Seq::<u8>::empty() =~= before);
                    return bytes;
                },
            }
            at += 1;
        }
        assert(bytes@ + Seq::<u8>::empty() =~= bytes@);
        bytes
    }

    /// Serves the system call that the registers ask for. The registers
    /// stay as they are: what the host reads comes in through
    /// [`Simulator::finish_read_int`] and [`Simulator::finish_time`].
    pub fn handle_syscall(&self) -> (result: Result<Action, SimulatorError>)
        ensures
            match syscall_outcome(self@.registers, self@.memory) {
                Ok(action) => result is Ok && result->Ok_0@ == action,
                Err(e) => result is Err && result->Err_0@ == e,
            },
            result is Ok ==> prints_decoded(self@.registers, self@.memory, result->Ok_0@),
    {
        let v0 = self.registers.get(Register::V0);
        let a0 = self.registers.get(Register::A0);
        if v0 == 1 {
            Ok(Action::Print(decimal_string(a0)))
        } else if v0 == 4 {
            let bytes = self.read_string(a0);
            Ok(Action::Print(decode_lossy(&bytes)))
        } else if v0 == 5 {
            Ok(Action::ReadInt)
        } else if v0 == 10 {
            Err(SimulatorError::Exit(0))
        } else if v0 == 17 {
            Err(SimulatorError::Exit(a0))
        } else if v0 == 30 {
            Ok(Action::ReadTime)
        } else {
            Err(SimulatorError::UnknownSyscall(v0))
        }
    }

    /// Executes one instruction on the registers.
    pub fn execute_instruction(&mut self, instruction: Instruction) -> (result: Result<
        Action,
        SimulatorError,
    >)
        ensures
            match execute_outcome(old(self)@.registers, old(self)@.memory, instruction) {
                Ok(action) => result is Ok && result->Ok_0@ == action && final(self)@ == (
                MachineState {
                    registers: executed(old(self)@.registers, instruction),
                    ..old(self)@
                }),
                Err(e) => result is Err && result->Err_0@ == e && final(self)@ == old(self)@,
            },
            instruction == Instruction::SystemCall && result is Ok ==> prints_decoded(
                old(self)@.registers,
                old(self)@.memory,
                result->Ok_0@,
            ),
    {
        match instruction {
            Instruction::AddImmediate { res, reg, imm } => {
                let value = self.registers.get(reg).wrapping_add(sign_extended(imm));
                self.registers.set(res, value);
                Ok(Action::Continue)
            },
            Instruction::LoadUpperImmediate { res, imm } => {
                let value = sign_extended(imm) << 16;
                self.registers.set(res, value);
                Ok(Action::Continue)
            },
            Instruction::OrImmediate { res, reg, imm } => {
                let value = self.registers.get(reg) | sign_extended(imm);
                self.registers.set(res, value);
                Ok(Action::Continue)
            },
            Instruction::AddUnsigned { res, reg, ret } => {
                let value = self.registers.get(reg).wrapping_add(self.registers.get(ret));
                self.registers.set(res, value);
                Ok(Action::Continue)
            },
            Instruction::SystemCall => self.handle_syscall(),
        }
    }

    /// One step: fetches the instruction at the program counter,
    /// executes it and moves the program counter on by 4. A step that
    /// fails leaves the machine as it was, and so does one that hands a
    /// read to the host: that step is completed by
    /// [`Simulator::finish_read_int`] or [`Simulator::finish_time`].
    pub fn step(&mut self) -> (result: Result<Action, SimulatorError>)
        ensures
            match old(self)@.step_outcome() {
                Ok(action) => result is Ok && result->Ok_0@ == action && final(self)@ == old(
                    self,
                )@.stepped(),
                Err(e) => result is Err && result->Err_0@ == e && final(self)@ == old(self)@,
            },
            old(self)@.instructions.contains_key(old(self)@.pc) && old(self)@.instructions[old(
                self,
            )@.pc] == Instruction::SystemCall && result is Ok ==> prints_decoded(
                old(self)@.registers,
                old(self)@.memory,
                result->Ok_0@,
            ),
    {
        broadcast use vstd::std_specs::hash::group_hash_axioms;

        let key: u32 = self.pc.0;
        let instruction = match self.instructions.get(&key) {
            Some(instruction) => *instruction,
            None => {
                return Err(SimulatorError::NoMoreInstructions);
            },
        };
        match self.execute_instruction(instruction) {
            Ok(action) => {
                let waits = match &action {
                    Action::ReadInt => true,
                    Action::ReadTime => true,
                    _ => false,
                };
                if !waits {
                    self.pc = self.pc.wrapping_offset(4);
                }
                Ok(action)
            },
            Err(e) => Err(e),
        }
    }

    /// Takes what the host read for a `ReadInt`: the line, or why there
    /// is none. The number on the line goes to `$v0` and the program
    /// counter moves on by 4. Without a number the machine stays as it
    /// was, at the system call.
    pub fn finish_read_int(&mut self, input: Result<String, String>) -> (result: Result<
        (),
        SimulatorError,
    >)
        ensures
            match input {
                Err(reason) => result is Err && result->Err_0@ == SimulatorErrorView::IoError(
                    reason@,
                ) && final(self)@ == old(self)@,
                Ok(line) => match input_value(line@) {
                    Some(value) => result is Ok && final(self)@ == old(self)@.with_input(value),
                    None => result is Err && result->Err_0@ == SimulatorErrorView::WrongInputType(
                        trim_end(line@),
                    ) && final(self)@ == old(self)@,
                },
            },
    {
        match input {
            Err(reason) => Err(SimulatorError::IoError(reason)),
            Ok(line) => {
                let kept = trimmed_end(&chars_of(line.as_str()));
                match read_u32(&kept) {
                    Some(value) => {
                        self.registers.set(Register::V0, value);
                        self.pc = self.pc.wrapping_offset(4);
                        Ok(())
                    },
                    None => Err(SimulatorError::WrongInputType(string_of(&kept))),
                }
            },
        }
    }

    /// Takes what the host read for a `ReadTime`: the milliseconds since
    /// the Unix epoch, or why there are none. The time goes to `$a0` and
    /// `$a1` and the program counter moves on by 4. Without a time the
    /// machine stays as it was, at the system call.
    pub fn finish_time(&mut self, clock: Result<u64, String>) -> (result: Result<
        (),
        SimulatorError,
    >)
        ensures
            match clock {
                Err(reason) => result is Err && result->Err_0@
                    == SimulatorErrorView::InvalidSystemTime(reason@) && final(self)@ == old(self)@,
                Ok(millis) => result is Ok && final(self)@ == old(self)@.with_time(millis),
            },
    {
        match clock {
            Err(reason) => Err(SimulatorError::InvalidSystemTime(reason)),
            Ok(millis) => {
                let low: u32 = (millis % 0x1_0000_0000) as u32;
                let high: u32 = (millis / 0x1_0000_0000) as u32;
                self.registers.set(Register::A0, low);
                self.registers.set(Register::A1, high);
                self.pc = self.pc.wrapping_offset(4);
                Ok(())
            },
        }
    }
}

} // verus!
