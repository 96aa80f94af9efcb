//! What the processor does, stated over plain values: the memory as a
//! sequence of bytes, the registers as a sequence of words.

use crate::instructions::{
    is_opcode, ADD_REG_REG, JMP_NOT_EQ, MOV_LIT_REG, MOV_MEM_REG, MOV_REG_MEM, MOV_REG_REG,
};
use crate::register::Register;
use crate::word::{in_bounds, put_word, word_at};
use vstd::prelude::*;

verus! {

/// Why a step cannot be taken.
#[derive(Clone, Copy, Debug, PartialEq, Eq, Structural)]
pub enum Fault {
    /// A byte or a word is wanted at this address, and the memory does not
    /// reach that far.
    OutOfBounds(u16),
    /// This byte stands where an opcode is wanted and is none.
    UnknownOpcode(u8),
    /// This byte stands where a register's index is wanted and names none.
    UnknownRegister(u8),
}

/// One instruction with its operands, as it stands in memory.
pub enum Instruction {
    MovLitReg { literal: u16, to: Register },
    MovRegReg { from: Register, to: Register },
    MovRegMem { from: Register, address: u16 },
    MovMemReg { address: u16, to: Register },
    AddRegReg { first: Register, second: Register },
    JmpNotEq { literal: u16, address: u16 },
}

impl Instruction {
    /// How many bytes the instruction takes in memory, its opcode included.
    pub open spec fn len(self) -> int {
        match self {
            Instruction::MovLitReg { .. } => 4,
            Instruction::MovRegReg { .. } => 3,
            Instruction::MovRegMem { .. } => 4,
            Instruction::MovMemReg { .. } => 4,
            Instruction::AddRegReg { .. } => 3,
            Instruction::JmpNotEq { .. } => 5,
        }
    }
}

/// The address `count` bytes after `address`. Addresses have sixteen bits:
/// after the last comes the first.
pub open spec fn advance(address: u16, count: int) -> u16 {
    ((address as int + count) % 0x1_0000) as u16
}

/// The sum of two words, wrapped to sixteen bits.
pub open spec fn wrapping_sum(first: u16, second: u16) -> u16 {
    ((first as int + second as int) % 0x1_0000) as u16
}

/// Both values, or the first of the two faults.
pub open spec fn both<A, B>(first: Result<A, Fault>, second: Result<B, Fault>) -> Result<
    (A, B),
    Fault,
> {
    match first {
        Err(fault) => Err(fault),
        Ok(a) => match second {
            Err(fault) => Err(fault),
            Ok(b) => Ok((a, b)),
        },
    }
}

/// The state of the processor: the bytes of its memory, and the value of
/// each register, in the registers' order.
#[verifier::ext_equal]
pub struct Machine {
    pub memory: Seq<u8>,
    pub registers: Seq<u16>,
}

impl Machine {
    /// There is one value for each register.
    pub open spec fn wf(self) -> bool {
        self.registers.len() == Register::COUNT
    }

    /// The value of a register.
    pub open spec fn register(self, reg: Register) -> u16 {
        self.registers[reg.index()]
    }

    /// The instruction pointer.
    pub open spec fn ip(self) -> u16 {
        self.register(Register::Ip)
    }

    /// The accumulator.
    pub open spec fn acc(self) -> u16 {
        self.register(Register::Acc)
    }

    /// The machine with `value` in a register.
    pub open spec fn with_register(self, reg: Register, value: u16) -> Machine {
        Machine { memory: self.memory, registers: self.registers.update(reg.index(), value) }
    }

    /// The machine with `value` in memory at `address`.
    pub open spec fn with_word(self, address: u16, value: u16) -> Machine {
        Machine {
            memory: put_word(self.memory, address as int, value),
            registers: self.registers,
        }
    }

    /// The byte in memory at `address`.
    pub open spec fn byte(self, address: u16) -> Result<u8, Fault> {
        if in_bounds(self.memory.len(), address as int, 1) {
            Ok(self.memory[address as int])
        } else {
            Err(Fault::OutOfBounds(address))
        }
    }

    /// The word in memory at `address`.
    pub open spec fn word(self, address: u16) -> Result<u16, Fault> {
        if in_bounds(self.memory.len(), address as int, 2) {
            Ok(word_at(self.memory, address as int))
        } else {
            Err(Fault::OutOfBounds(address))
        }
    }

    /// The register named by the byte in memory at `address`.
    pub open spec fn register_operand(self, address: u16) -> Result<Register, Fault> {
        match self.byte(address) {
            Err(fault) => Err(fault),
            Ok(index) => if index < Register::COUNT {
                Ok(Register::at(index as int))
            } else {
                Err(Fault::UnknownRegister(index))
            },
        }
    }

    /// The instruction with this opcode whose operands start in memory at
    /// `at`. The operands are read in the order in which they stand.
    pub open spec fn operands(self, opcode: u8, at: u16) -> Result<Instruction, Fault> {
        if opcode == MOV_LIT_REG {
            match both(self.word(at), self.register_operand(advance(at, 2))) {
                Ok((literal, to)) => Ok(Instruction::MovLitReg { literal, to }),
                Err(fault) => Err(fault),
            }
        } else if opcode == MOV_REG_REG {
            match both(self.register_operand(at), self.register_operand(advance(at, 1))) {
                Ok((from, to)) => Ok(Instruction::MovRegReg { from, to }),
                Err(fault) => Err(fault),
            }
        } else if opcode == MOV_REG_MEM {
            match both(self.register_operand(at), self.word(advance(at, 1))) {
                Ok((from, address)) => Ok(Instruction::MovRegMem { from, address }),
                Err(fault) => Err(fault),
            }
        } else if opcode == MOV_MEM_REG {
            match both(self.word(at), self.register_operand(advance(at, 2))) {
                Ok((address, to)) => Ok(Instruction::MovMemReg { address, to }),
                Err(fault) => Err(fault),
            }
        } else if opcode == ADD_REG_REG {
            match both(self.register_operand(at), self.register_operand(advance(at, 1))) {
                Ok((first, second)) => Ok(Instruction::AddRegReg { first, second }),
                Err(fault) => Err(fault),
            }
        } else if opcode == JMP_NOT_EQ {
            match both(self.word(at), self.word(advance(at, 2))) {
                Ok((literal, address)) => Ok(Instruction::JmpNotEq { literal, address }),
                Err(fault) => Err(fault),
            }
        } else {
            Err(Fault::UnknownOpcode(opcode))
        }
    }

    /// The instruction at the instruction pointer.
    pub open spec fn decode(self) -> Result<Instruction, Fault> {
        match self.byte(self.ip()) {
            Err(fault) => Err(fault),
            Ok(opcode) => self.operands(opcode, advance(self.ip(), 1)),
        }
    }

    /// What an instruction does to a machine whose instruction pointer is
    /// already past it.
    pub open spec fn apply(self, instruction: Instruction) -> Result<Machine, Fault> {
        match instruction {
            Instruction::MovLitReg { literal, to } => Ok(self.with_register(to, literal)),
            Instruction::MovRegReg { from, to } => Ok(
                self.with_register(to, self.register(from)),
            ),
            Instruction::MovRegMem { from, address } => if in_bounds(
                self.memory.len(),
                address as int,
                2,
            ) {
                Ok(self.with_word(address, self.register(from)))
            } else {
                Err(Fault::OutOfBounds(address))
            },
            Instruction::MovMemReg { address, to } => match self.word(address) {
                Err(fault) => Err(fault),
                Ok(value) => Ok(self.with_register(to, value)),
            },
            Instruction::AddRegReg { first, second } => Ok(
                self.with_register(
                    Register::Acc,
                    wrapping_sum(self.register(first), self.register(second)),
                ),
            ),
            Instruction::JmpNotEq { literal, address } => if literal != self.acc() {
                Ok(self.with_register(Register::Ip, address))
            } else {
                Ok(self)
            },
        }
    }

    /// What executing `opcode` does to a machine whose instruction pointer
    /// is at the opcode's operands.
    pub open spec fn execute(self, opcode: u8) -> Result<Machine, Fault> {
        match self.operands(opcode, self.ip()) {
            Err(fault) => Err(fault),
            Ok(instruction) => self.with_register(
                Register::Ip,
                advance(self.ip(), instruction.len() - 1),
            ).apply(instruction),
        }
    }

    /// One step: the machine after the instruction at the instruction
    /// pointer, or the fault that the instruction runs into. Of two faults,
    /// it is the one met first when the instruction is read byte by byte
    /// and then carried out.
    pub open spec fn step(self) -> Result<Machine, Fault> {
        match self.decode() {
            Err(fault) => Err(fault),
            Ok(instruction) => self.with_register(
                Register::Ip,
                advance(self.ip(), instruction.len()),
            ).apply(instruction),
        }
    }
}

/// A step is a fetch of the opcode followed by its execution.
pub proof fn lemma_step_is_fetch_then_execute(machine: Machine)
    requires
        machine.wf(),
        machine.byte(machine.ip()) is Ok,
    ensures
        machine.step() == machine.with_register(
            Register::Ip,
            advance(machine.ip(), 1),
        ).execute(machine.byte(machine.ip())->Ok_0),
{
    let ip = machine.ip();
    let opcode = machine.byte(ip)->Ok_0;
    let fetched = machine.with_register(Register::Ip, advance(ip, 1));
    assert(fetched.memory == machine.memory);
    assert(fetched.ip() == advance(ip, 1));
    assert(fetched.operands(opcode, fetched.ip()) == machine.operands(opcode, advance(ip, 1)));
    match machine.decode() {
        Err(fault) => {},
        Ok(instruction) => {
            assert(advance(advance(ip, 1), instruction.len() - 1) == advance(
                ip,
                instruction.len(),
            ));
            assert(fetched.with_register(Register::Ip, advance(ip, instruction.len()))
                =~= machine.with_register(Register::Ip, advance(ip, instruction.len())));
        },
    }
}

/// A byte that is no opcode, met where an opcode is wanted, is a fault: the
/// step does not pass over it.
pub proof fn lemma_unknown_opcode_faults(machine: Machine, opcode: u8)
    requires
        machine.byte(machine.ip()) == Ok::<u8, Fault>(opcode),
        !is_opcode(opcode),
    ensures
        machine.step() == Err::<Machine, Fault>(Fault::UnknownOpcode(opcode)),
{
}

/// `JMP_NOT_EQ literal address` sets the instruction pointer to the address
/// where the accumulator differs from the literal, and to the byte after
/// the instruction where it does not. Nothing else changes.
pub proof fn lemma_jump_not_equal(machine: Machine, literal: u16, address: u16)
    requires
        machine.wf(),
        machine.byte(machine.ip()) == Ok::<u8, Fault>(JMP_NOT_EQ),
        machine.word(advance(machine.ip(), 1)) == Ok::<u16, Fault>(literal),
        machine.word(advance(machine.ip(), 3)) == Ok::<u16, Fault>(address),
    ensures
        machine.step() is Ok,
        machine.step()->Ok_0.ip() == if literal != machine.acc() {
            address
        } else {
            advance(machine.ip(), 5)
        },
        machine.step()->Ok_0.memory == machine.memory,
        forall|reg: Register|
            reg != Register::Ip ==> machine.step()->Ok_0.register(reg) == machine.register(reg),
{
    let ip = machine.ip();
    assert(advance(advance(ip, 1), 2) == advance(ip, 3));
    assert(machine.decode() == Ok::<Instruction, Fault>(
        Instruction::JmpNotEq { literal, address },
    ));
}

/// A value put in a register is the value found there afterwards, and the
/// other registers and the memory keep theirs.
pub proof fn lemma_register_round_trip(machine: Machine, reg: Register, value: u16)
    requires
        machine.wf(),
    ensures
        machine.with_register(reg, value).wf(),
        machine.with_register(reg, value).register(reg) == value,
        machine.with_register(reg, value).memory == machine.memory,
        forall|other: Register|
            other != reg ==> machine.with_register(reg, value).register(other)
                == machine.register(other),
{
}

} // verus!
