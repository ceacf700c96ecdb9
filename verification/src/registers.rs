//! The general-purpose registers and the register file.

use crate::text::str_eq;
use vstd::prelude::*;

verus! {

/// The 32 general-purpose registers, in the order of their numbers.
#[derive(Debug, Clone, Copy, PartialEq, Eq, Structural)]
pub enum Register {
    Zero,
    At,
    V0,
    V1,
    A0,
    A1,
    A2,
    A3,
    T0,
    T1,
    T2,
    T3,
    T4,
    T5,
    T6,
    T7,
    S0,
    S1,
    S2,
    S3,
    S4,
    S5,
    S6,
    S7,
    T8,
    T9,
    K0,
    K1,
    Gp,
    Sp,
    Fp,
    Ra,
}

/// A register name that the processor does not have.
#[derive(Debug, Clone, PartialEq, Eq)]
pub enum CpuError {
    NoSuchRegister(String),
}

/// The mathematical content of a [`CpuError`].
pub enum CpuErrorView {
    NoSuchRegister(Seq<char>),
}

impl View for CpuError {
    type V = CpuErrorView;

    open spec fn view(&self) -> CpuErrorView {
        match self {
            CpuError::NoSuchRegister(name) => CpuErrorView::NoSuchRegister(name@),
        }
    }
}

/// The register that a source name denotes: `$zero` and `$0` both name
/// register 0, every other register has one name.
pub open spec fn register_of_name(name: Seq<char>) -> Option<Register> {
    if name == "$zero"@ || name == "$0"@ {
        Some(Register::Zero)
    } else if name == "$at"@ {
        Some(Register::At)
    } else if name == "$v0"@ {
        Some(Register::V0)
    } else if name == "$v1"@ {
        Some(Register::V1)
    } else if name == "$a0"@ {
        Some(Register::A0)
    } else if name == "$a1"@ {
        Some(Register::A1)
    } else if name == "$a2"@ {
        Some(Register::A2)
    } else if name == "$a3"@ {
        Some(Register::A3)
    } else if name == "$t0"@ {
        Some(Register::T0)
    } else if name == "$t1"@ {
        Some(Register::T1)
    } else if name == "$t2"@ {
        Some(Register::T2)
    } else if name == "$t3"@ {
        Some(Register::T3)
    } else if name == "$t4"@ {
        Some(Register::T4)
    } else if name == "$t5"@ {
        Some(Register::T5)
    } else if name == "$t6"@ {
        Some(Register::T6)
    } else if name == "$t7"@ {
        Some(Register::T7)
    } else if name == "$s0"@ {
        Some(Register::S0)
    } else if name == "$s1"@ {
        Some(Register::S1)
    } else if name == "$s2"@ {
        Some(Register::S2)
    } else if name == "$s3"@ {
        Some(Register::S3)
    } else if name == "$s4"@ {
        Some(Register::S4)
    } else if name == "$s5"@ {
        Some(Register::S5)
    } else if name == "$s6"@ {
        Some(Register::S6)
    } else if name == "$s7"@ {
        Some(Register::S7)
    } else if name == "$t8"@ {
        Some(Register::T8)
    } else if name == "$t9"@ {
        Some(Register::T9)
    } else if name == "$k0"@ {
        Some(Register::K0)
    } else if name == "$k1"@ {
        Some(Register::K1)
    } else if name == "$gp"@ {
        Some(Register::Gp)
    } else if name == "$sp"@ {
        Some(Register::Sp)
    } else if name == "$fp"@ {
        Some(Register::Fp)
    } else if name == "$ra"@ {
        Some(Register::Ra)
    } else {
        None
    }
}

/// The register with the given number, if the number is below 32.
pub open spec fn register_of_index(index: int) -> Option<Register> {
    if index == 0 {
        Some(Register::Zero)
    } else if index == 1 {
        Some(Register::At)
    } else if index == 2 {
        Some(Register::V0)
    } else if index == 3 {
        Some(Register::V1)
    } else if index == 4 {
        Some(Register::A0)
    } else if index == 5 {
        Some(Register::A1)
    } else if index == 6 {
        Some(Register::A2)
    } else if index == 7 {
        Some(Register::A3)
    } else if index == 8 {
        Some(Register::T0)
    } else if index == 9 {
        Some(Register::T1)
    } else if index == 10 {
        Some(Register::T2)
    } else if index == 11 {
        Some(Register::T3)
    } else if index == 12 {
        Some(Register::T4)
    } else if index == 13 {
        Some(Register::T5)
    } else if index == 14 {
        Some(Register::T6)
    } else if index == 15 {
        Some(Register::T7)
    } else if index == 16 {
        Some(Register::S0)
    } else if index == 17 {
        Some(Register::S1)
    } else if index == 18 {
        Some(Register::S2)
    } else if index == 19 {
        Some(Register::S3)
    } else if index == 20 {
        Some(Register::S4)
    } else if index == 21 {
        Some(Register::S5)
    } else if index == 22 {
        Some(Register::S6)
    } else if index == 23 {
        Some(Register::S7)
    } else if index == 24 {
        Some(Register::T8)
    } else if index == 25 {
        Some(Register::T9)
    } else if index == 26 {
        Some(Register::K0)
    } else if index == 27 {
        Some(Register::K1)
    } else if index == 28 {
        Some(Register::Gp)
    } else if index == 29 {
        Some(Register::Sp)
    } else if index == 30 {
        Some(Register::Fp)
    } else if index == 31 {
        Some(Register::Ra)
    } else {
        None
    }
}

impl Register {
    /// The register's number, between 0 and 31.
    pub open spec fn spec_index(self) -> int {
        match self {
            Register::Zero => 0,
            Register::At => 1,
            Register::V0 => 2,
            Register::V1 => 3,
            Register::A0 => 4,
            Register::A1 => 5,
            Register::A2 => 6,
            Register::A3 => 7,
            Register::T0 => 8,
            Register::T1 => 9,
            Register::T2 => 10,
            Register::T3 => 11,
            Register::T4 => 12,
            Register::T5 => 13,
            Register::T6 => 14,
            Register::T7 => 15,
            Register::S0 => 16,
            Register::S1 => 17,
            Register::S2 => 18,
            Register::S3 => 19,
            Register::S4 => 20,
            Register::S5 => 21,
            Register::S6 => 22,
            Register::S7 => 23,
            Register::T8 => 24,
            Register::T9 => 25,
            Register::K0 => 26,
            Register::K1 => 27,
            Register::Gp => 28,
            Register::Sp => 29,
            Register::Fp => 30,
            Register::Ra => 31,
        }
    }

    /// The register's number, between 0 and 31.
    pub fn index(self) -> (index: u8)
        ensures
            index == self.spec_index(),
            index < 32,
    {
        match self {
            Register::Zero => 0,
            Register::At => 1,
            Register::V0 => 2,
            Register::V1 => 3,
            Register::A0 => 4,
            Register::A1 => 5,
            Register::A2 => 6,
            Register::A3 => 7,
            Register::T0 => 8,
            Register::T1 => 9,
            Register::T2 => 10,
            Register::T3 => 11,
            Register::T4 => 12,
            Register::T5 => 13,
            Register::T6 => 14,
            Register::T7 => 15,
            Register::S0 => 16,
            Register::S1 => 17,
            Register::S2 => 18,
            Register::S3 => 19,
            Register::S4 => 20,
            Register::S5 => 21,
            Register::S6 => 22,
            Register::S7 => 23,
            Register::T8 => 24,
            Register::T9 => 25,
            Register::K0 => 26,
            Register::K1 => 27,
            Register::Gp => 28,
            Register::Sp => 29,
            Register::Fp => 30,
            Register::Ra => 31,
        }
    }

    /// The register with the given number; `None` from 32 on.
    pub fn from_index(index: u8) -> (register: Option<Register>)
        ensures
            register == register_of_index(index as int),
            register is Some <==> index < 32,
            register is Some ==> register->0.spec_index() == index,
    {
        match index {
            0 => Some(Register::Zero),
            1 => Some(Register::At),
            2 => Some(Register::V0),
            3 => Some(Register::V1),
            4 => Some(Register::A0),
            5 => Some(Register::A1),
            6 => Some(Register::A2),
            7 => Some(Register::A3),
            8 => Some(Register::T0),
            9 => Some(Register::T1),
            10 => Some(Register::T2),
            11 => Some(Register::T3),
            12 => Some(Register::T4),
            13 => Some(Register::T5),
            14 => Some(Register::T6),
            15 => Some(Register::T7),
            16 => Some(Register::S0),
            17 => Some(Register::S1),
            18 => Some(Register::S2),
            19 => Some(Register::S3),
            20 => Some(Register::S4),
            21 => Some(Register::S5),
            22 => Some(Register::S6),
            23 => Some(Register::S7),
            24 => Some(Register::T8),
            25 => Some(Register::T9),
            26 => Some(Register::K0),
            27 => Some(Register::K1),
            28 => Some(Register::Gp),
            29 => Some(Register::Sp),
            30 => Some(Register::Fp),
            31 => Some(Register::Ra),
            _ => None,
        }
    }

    /// Reads a register name as it stands in a source file.
    pub fn from_str(s: &str) -> (result: Result<Register, CpuError>)
        ensures
            match register_of_name(s@) {
                Some(register) => result == Ok::<Register, CpuError>(register),
                None => result is Err && result->Err_0@ == CpuErrorView::NoSuchRegister(s@),
            },
    {
        if str_eq(s, "$zero") || str_eq(s, "$0") {
            Ok(Register::Zero)
        } else if str_eq(s, "$at") {
            Ok(Register::At)
        } else if str_eq(s, "$v0") {
            Ok(Register::V0)
        } else if str_eq(s, "$v1") {
            Ok(Register::V1)
        } else if str_eq(s, "$a0") {
            Ok(Register::A0)
        } else if str_eq(s, "$a1") {
            Ok(Register::A1)
        } else if str_eq(s, "$a2") {
            Ok(Register::A2)
        } else if str_eq(s, "$a3") {
            Ok(Register::A3)
        } else if str_eq(s, "$t0") {
            Ok(Register::T0)
        } else if str_eq(s, "$t1") {
            Ok(Register::T1)
        } else if str_eq(s, "$t2") {
            Ok(Register::T2)
        } else if str_eq(s, "$t3") {
            Ok(Register::T3)
        } else if str_eq(s, "$t4") {
            Ok(Register::T4)
        } else if str_eq(s, "$t5") {
            Ok(Register::T5)
        } else if str_eq(s, "$t6") {
            Ok(Register::T6)
        } else if str_eq(s, "$t7") {
            Ok(Register::T7)
        } else if str_eq(s, "$s0") {
            Ok(Register::S0)
        } else if str_eq(s, "$s1") {
            Ok(Register::S1)
        } else if str_eq(s, "$s2") {
            Ok(Register::S2)
        } else if str_eq(s, "$s3") {
            Ok(Register::S3)
        } else if str_eq(s, "$s4") {
            Ok(Register::S4)
        } else if str_eq(s, "$s5") {
            Ok(Register::S5)
        } else if str_eq(s, "$s6") {
            Ok(Register::S6)
        } else if str_eq(s, "$s7") {
            Ok(Register::S7)
        } else if str_eq(s, "$t8") {
            Ok(Register::T8)
        } else if str_eq(s, "$t9") {
            Ok(Register::T9)
        } else if str_eq(s, "$k0") {
            Ok(Register::K0)
        } else if str_eq(s, "$k1") {
            Ok(Register::K1)
        } else if str_eq(s, "$gp") {
            Ok(Register::Gp)
        } else if str_eq(s, "$sp") {
            Ok(Register::Sp)
        } else if str_eq(s, "$fp") {
            Ok(Register::Fp)
        } else if str_eq(s, "$ra") {
            Ok(Register::Ra)
        } else {
            Err(CpuError::NoSuchRegister(s.to_owned()))
        }
    }
}

/// Every register is the one that its own number names.
pub proof fn lemma_index_round_trip(register: Register)
    ensures
        0 <= register.spec_index() < 32,
        register_of_index(register.spec_index()) == Some(register),
{
}

/// The register file: 32 words, of which register 0 always reads as 0.
#[derive(Debug, Clone, Copy)]
pub struct RegFile([u32; 32]);

impl View for RegFile {
    type V = Seq<u32>;

    /// The 32 values that the registers are observed to hold.
    closed spec fn view(&self) -> Seq<u32> {
        Seq::new(32, |i: int| if i == 0 { 0u32 } else { self.0@[i] })
    }
}

impl RegFile {
    /// A register file in which every register holds 0.
    pub fn new() -> (file: RegFile)
        ensures
            file@ == Seq::new(32, |i: int| 0u32),
    {
        let file = RegFile([0u32; 32]);
        assert(file@ =~= Seq::new(32, |i: int| 0u32));
        file
    }

    /// The value of a register.
    pub fn get(&self, r: Register) -> (value: u32)
        ensures
            value == self@[r.spec_index()],
            r == Register::Zero ==> value == 0,
    {
        let idx = r.index();
        if idx == 0 {
            0
        } else {
            self.0[idx as usize]
        }
    }

    /// Writes a register; a write to register 0 is discarded.
    pub fn set(&mut self, r: Register, val: u32)
        ensures
            final(self)@ == written(old(self)@, r, val),
    {
        let idx = r.index();
        if idx != 0 {
            self.0[idx as usize] = val;
        }
        assert(self@ =~= written(old(self)@, r, val));
    }

    /// Observed values always number 32, and the first of them is 0.
    pub proof fn lemma_view_shape(&self)
        ensures
            self@.len() == 32,
            self@[0] == 0,
    {
    }
}

impl Default for RegFile {
    /// A register file in which every register holds 0.
    fn default() -> (file: RegFile)
        ensures
            file@ == Seq::new(32, |i: int| 0u32),
    {
        RegFile::new()
    }
}

/// The observed register values after a write of `val` to `r`.
pub open spec fn written(values: Seq<u32>, r: Register, val: u32) -> Seq<u32> {
    if r == Register::Zero {
        values
    } else {
        values.update(r.spec_index(), val)
    }
}

/// No write changes what register 0 reads as: it is 0 before and after.
pub proof fn lemma_zero_register_pinned(file: RegFile, r: Register, val: u32)
    ensures
        file@[Register::Zero.spec_index()] == 0,
        written(file@, r, val)[Register::Zero.spec_index()] == 0,
        written(file@, r, val).len() == 32,
{
    file.lemma_view_shape();
}

} // verus!
