//! The opcodes. An opcode is one byte; the operands that follow it are fixed
//! by the opcode. Literals and addresses take two bytes, most significant
//! byte first; a register takes one byte, its index.

use vstd::prelude::*;

verus! {

/// `MOV_LIT_REG literal register`: the register takes the literal.
pub const MOV_LIT_REG: u8 = 0x10;

/// `MOV_REG_REG from to`: the second register takes the value of the first.
pub const MOV_REG_REG: u8 = 0x11;

/// `MOV_REG_MEM register address`: the word at the address takes the value
/// of the register.
pub const MOV_REG_MEM: u8 = 0x12;

/// `MOV_MEM_REG address register`: the register takes the word at the
/// address.
pub const MOV_MEM_REG: u8 = 0x13;

/// `ADD_REG_REG first second`: the accumulator takes the sum of the two
/// registers, wrapped to sixteen bits.
pub const ADD_REG_REG: u8 = 0x14;

/// `JMP_NOT_EQ literal address`: the instruction pointer takes the address
/// unless the accumulator equals the literal.
pub const JMP_NOT_EQ: u8 = 0x15;

/// Whether `byte` is one of the opcodes.
pub open spec fn is_opcode(byte: u8) -> bool {
    ||| byte == MOV_LIT_REG
    ||| byte == MOV_REG_REG
    ||| byte == MOV_REG_MEM
    ||| byte == MOV_MEM_REG
    ||| byte == ADD_REG_REG
    ||| byte == JMP_NOT_EQ
}

} // verus!
