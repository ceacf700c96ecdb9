//! A processor's registers, addressed by their source names.

use crate::registers::{register_of_name, written, CpuError, CpuErrorView, RegFile, Register};
use vstd::prelude::*;

verus! {

/// What a processor holds.
pub struct CpuState {
    pub program_counter: u32,
    pub high_register: u32,
    pub low_register: u32,
    /// The 32 observed values of the general-purpose registers.
    pub gprs: Seq<u32>,
}

/// A processor: the program counter, the two multiplication registers
/// and the general-purpose registers.
#[derive(Debug, Clone, Copy)]
pub struct Cpu {
    program_counter: u32,
    high_register: u32,
    low_register: u32,
    gprs: RegFile,
}

impl View for Cpu {
    type V = CpuState;

    closed spec fn view(&self) -> CpuState {
        CpuState {
            program_counter: self.program_counter,
            high_register: self.high_register,
            low_register: self.low_register,
            gprs: self.gprs@,
        }
    }
}

impl Cpu {
    /// A processor in which everything is 0.
    pub fn new() -> (cpu: Cpu)
        ensures
            cpu@ == (CpuState {
                program_counter: 0,
                high_register: 0,
                low_register: 0,
                gprs: Seq::new(32, |i: int| 0u32),
            }),
    {
        Cpu { program_counter: 0, high_register: 0, low_register: 0, gprs: RegFile::new() }
    }

    /// The program counter.
    pub fn program_counter(&self) -> (value: u32)
        ensures
            value == self@.program_counter,
    {
        self.program_counter
    }

    /// The high word of the last multiplication.
    pub fn high_register(&self) -> (value: u32)
        ensures
            value == self@.high_register,
    {
        self.high_register
    }

    /// The low word of the last multiplication.
    pub fn low_register(&self) -> (value: u32)
        ensures
            value == self@.low_register,
    {
        self.low_register
    }

    /// The value of the register with the given source name.
    pub fn get_register(&self, register: &str) -> (result: Result<u32, CpuError>)
        ensures
            match register_of_name(register@) {
                Some(r) => result == Ok::<u32, CpuError>(self@.gprs[r.spec_index()]),
                None => result is Err && result->Err_0@ == CpuErrorView::NoSuchRegister(
                    register@,
                ),
            },
    {
        match Register::from_str(register) {
            Ok(r) => Ok(self.gprs.get(r)),
            Err(e) => Err(e),
        }
    }

    /// Writes the register with the given source name; a write to
    /// register 0 is discarded. An unknown name changes nothing.
    pub fn set_register(&mut self, register: &str, value: u32) -> (result: Result<(), CpuError>)
        ensures
            match register_of_name(register@) {
                Some(r) => result is Ok && final(self)@ == (CpuState {
                    gprs: written(old(self)@.gprs, r, value),
                    ..old(self)@
                }),
                None => result is Err && result->Err_0@ == CpuErrorView::NoSuchRegister(
                    register@,
                ) && final(self)@ == old(self)@,
            },
    {
        match Register::from_str(register) {
            Ok(r) => {
                self.gprs.set(r, value);
                Ok(())
            },
            Err(e) => Err(e),
        }
    }
}

} // verus!
