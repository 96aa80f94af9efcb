//! The named registers and how an instruction refers to them.

use crate::machine::Fault;
use vstd::prelude::*;

verus! {

/// A register of the processor. An instruction names a register by its
/// index, which is its place in this list, counted from zero.
#[derive(Clone, Copy, Debug, PartialEq, Eq, Structural)]
pub enum Register {
    /// The instruction pointer: the address of the next byte to fetch.
    Ip,
    /// The accumulator, which takes the result of arithmetic.
    Acc,
    /// The first of the eight general registers.
    R1,
    R2,
    R3,
    R4,
    R5,
    R6,
    R7,
    R8,
}

impl Register {
    /// How many registers there are.
    pub const COUNT: usize = 10;

    /// The index by which an instruction names the register.
    pub open spec fn index(self) -> int {
        match self {
            Register::Ip => 0,
            Register::Acc => 1,
            Register::R1 => 2,
            Register::R2 => 3,
            Register::R3 => 4,
            Register::R4 => 5,
            Register::R5 => 6,
            Register::R6 => 7,
            Register::R7 => 8,
            Register::R8 => 9,
        }
    }

    /// The register that an instruction names by `index`.
    pub open spec fn at(index: int) -> Register
        recommends
            0 <= index < Register::COUNT,
    {
        if index == 0 {
            Register::Ip
        } else if index == 1 {
            Register::Acc
        } else if index == 2 {
            Register::R1
        } else if index == 3 {
            Register::R2
        } else if index == 4 {
            Register::R3
        } else if index == 5 {
            Register::R4
        } else if index == 6 {
            Register::R5
        } else if index == 7 {
            Register::R6
        } else if index == 8 {
            Register::R7
        } else {
            Register::R8
        }
    }

    /// Where the register's two bytes start in the register file.
    pub open spec fn byte_offset(self) -> int {
        2 * self.index()
    }

    /// Where the register's two bytes start in the register file.
    pub fn as_byte_offset(&self) -> (offset: usize)
        ensures
            offset == self.byte_offset(),
    {
        match self {
            Register::Ip => 0,
            Register::Acc => 2,
            Register::R1 => 4,
            Register::R2 => 6,
            Register::R3 => 8,
            Register::R4 => 10,
            Register::R5 => 12,
            Register::R6 => 14,
            Register::R7 => 16,
            Register::R8 => 18,
        }
    }

    /// Where the two bytes of the register named by `raw_index` start in
    /// the register file. The index comes from an instruction's bytes, so
    /// it may name no register: that is a fault.
    pub fn offset_for(raw_index: u8) -> (res: Result<usize, Fault>)
        ensures
            raw_index < Register::COUNT ==> res == Ok::<usize, Fault>(
                Register::at(raw_index as int).byte_offset() as usize,
            ),
            raw_index >= Register::COUNT ==> res == Err::<usize, Fault>(
                Fault::UnknownRegister(raw_index),
            ),
    {
        if (raw_index as usize) < Register::COUNT {
            Ok(raw_index as usize * 2)
        } else {
            Err(Fault::UnknownRegister(raw_index))
        }
    }
}

/// Index zero names the instruction pointer and index one the accumulator;
/// every index below the count names the register that has that index, and
/// every register is named by its own.
pub proof fn lemma_register_indices()
    ensures
        Register::at(0) == Register::Ip,
        Register::at(1) == Register::Acc,
        forall|index: int|
            0 <= index < Register::COUNT ==> (#[trigger] Register::at(index)).index() == index,
        forall|reg: Register|
            0 <= (#[trigger] reg.index()) < Register::COUNT && Register::at(reg.index()) == reg,
{
}

} // verus!
