//! The processor: it fetches the instruction at the instruction pointer
//! from its memory, carries it out, and is then ready for the next.

use crate::device::{Device, MemoryStick};
use crate::instructions::{
    ADD_REG_REG, JMP_NOT_EQ, MOV_LIT_REG, MOV_MEM_REG, MOV_REG_MEM, MOV_REG_REG,
};
use crate::machine::{advance, wrapping_sum, Fault, Instruction, Machine};
use crate::register::Register;
use crate::word::{in_bounds, put_word, word_at};
use vstd::prelude::*;

verus! {

/// The registers' values, read from the bytes of the register file.
spec fn words_of(bytes: Seq<u8>) -> Seq<u16> {
    Seq::new(Register::COUNT as nat, |index: int| word_at(bytes, 2 * index))
}

/// A word stored in the register file at a register's place changes that
/// register's value and no other.
proof fn lemma_store_in_file(bytes: Seq<u8>, reg: Register, value: u16)
    requires
        bytes.len() == 2 * Register::COUNT,
    ensures
        words_of(put_word(bytes, reg.byte_offset(), value)) == words_of(bytes).update(
            reg.index(),
            value,
        ),
{
    let stored = put_word(bytes, reg.byte_offset(), value);
    assert forall|index: int| 0 <= index < Register::COUNT implies words_of(stored)[index]
        == words_of(bytes).update(reg.index(), value)[index] by {
        if index == reg.index() {
            crate::word::lemma_word_round_trip(bytes, reg.byte_offset(), value);
        } else {
            crate::word::lemma_word_elsewhere(bytes, reg.byte_offset(), value, 2 * index);
        }
    }
}

/// A processor with its memory, a device of any kind, and its registers.
pub struct Cpu<T: Device> {
    memory: T,
    registers: MemoryStick,
}

impl<T: Device> View for Cpu<T> {
    type V = Machine;

    closed spec fn view(&self) -> Machine {
        self.state()
    }
}

impl<T: Device> Cpu<T> {
    /// The memory's bytes and the registers' values.
    #[verifier::opaque]
    spec fn state(&self) -> Machine {
        Machine { memory: self.memory.bytes(), registers: words_of(self.registers.bytes()) }
    }

    /// The register file has two bytes for each register.
    pub closed spec fn wf(&self) -> bool {
        &&& self.registers.bytes().len() == 2 * Register::COUNT
        &&& self@.wf()
    }

    /// The device that is the processor's memory.
    pub closed spec fn device(&self) -> T {
        self.memory
    }

    /// Whether `opcode` can be executed, the instruction pointer being at
    /// its operands: it runs into no fault, and the memory accepts what it
    /// stores.
    pub open spec fn can_execute(&self, opcode: u8) -> bool {
        &&& self@.execute(opcode) is Ok
        &&& self@.operands(opcode, self@.ip()) matches Ok(Instruction::MovRegMem { address, .. })
            ==> self.device().accepts(address as int, 2)
    }

    /// Whether a step can be taken: the instruction at the instruction
    /// pointer runs into no fault, and the memory accepts what it stores.
    pub open spec fn can_step(&self) -> bool {
        &&& self@.step() is Ok
        &&& self@.decode() matches Ok(Instruction::MovRegMem { address, .. })
            ==> self.device().accepts(address as int, 2)
    }

    /// A processor on `memory`, which holds the program. Every register is
    /// zero, so the first instruction is fetched at address zero.
    pub fn new(memory: T) -> (cpu: Cpu<T>)
        ensures
            cpu.wf(),
            cpu.device() == memory,
            cpu@.memory == memory.bytes(),
            cpu@.registers == Seq::new(Register::COUNT as nat, |index: int| 0u16),
    {
        let cpu = Cpu { memory, registers: MemoryStick::try_new(Register::COUNT * 2).unwrap() };
        proof {
            reveal(Cpu::state);
            assert(cpu@.registers =~= Seq::new(Register::COUNT as nat, |index: int| 0u16));
        }
        cpu
    }

    /// The value of a register.
    pub fn get_register(&self, reg: Register) -> (val: u16)
        requires
            self.wf(),
        ensures
            val == self@.register(reg),
    {
        self.register_at(reg.as_byte_offset(), Ghost(reg))
    }

    /// Puts `val` in a register.
    fn set_register(&mut self, reg: Register, val: u16)
        requires
            old(self).wf(),
        ensures
            final(self).wf(),
            final(self)@ == old(self)@.with_register(reg, val),
            final(self).device() == old(self).device(),
    {
        self.set_register_at(reg.as_byte_offset(), val, Ghost(reg));
    }

    /// The value of the register whose bytes start at `offset` in the
    /// register file.
    fn register_at(&self, offset: usize, Ghost(reg): Ghost<Register>) -> (val: u16)
        requires
            self.wf(),
            offset == reg.byte_offset(),
        ensures
            val == self@.register(reg),
    {
        proof {
            reveal(Cpu::state);
        }
        self.registers.read_u16(offset)
    }

    /// Puts `val` in the register whose bytes start at `offset` in the
    /// register file.
    fn set_register_at(&mut self, offset: usize, val: u16, Ghost(reg): Ghost<Register>)
        requires
            old(self).wf(),
            offset == reg.byte_offset(),
        ensures
            final(self).wf(),
            final(self)@ == old(self)@.with_register(reg, val),
            final(self).device() == old(self).device(),
    {
        proof {
            reveal(Cpu::state);
            lemma_store_in_file(self.registers.bytes(), reg, val);
        }
        self.registers.write_u16(offset, val).unwrap();
    }

    /// The word in memory at `address`.
    fn memory_word(&self, address: u16) -> (val: u16)
        requires
            self@.word(address) is Ok,
        ensures
            self@.word(address) == Ok::<u16, Fault>(val),
    {
        proof {
            reveal(Cpu::state);
        }
        self.memory.read_u16(address as usize)
    }

    /// The byte in memory at `address`.
    fn memory_byte(&self, address: u16) -> (val: u8)
        requires
            self@.byte(address) is Ok,
        ensures
            self@.byte(address) == Ok::<u8, Fault>(val),
    {
        proof {
            reveal(Cpu::state);
        }
        self.memory.read_u8(address as usize)
    }

    /// Stores `val` in memory at `address`.
    fn set_memory_word(&mut self, address: u16, val: u16)
        requires
            old(self).wf(),
            old(self).device().accepts(address as int, 2),
        ensures
            final(self).wf(),
            final(self)@ == old(self)@.with_word(address, val),
            in_bounds(old(self)@.memory.len(), address as int, 2),
    {
        proof {
            reveal(Cpu::state);
        }
        self.memory.write_u16(address as usize, val).unwrap();
    }

    /// Fetches the byte that the instruction pointer points to, and moves
    /// the pointer past it.
    fn fetch(&mut self) -> (byte: u8)
        requires
            old(self).wf(),
            old(self)@.byte(old(self)@.ip()) is Ok,
        ensures
            final(self).wf(),
            old(self)@.byte(old(self)@.ip()) == Ok::<u8, Fault>(byte),
            final(self)@ == old(self)@.with_register(Register::Ip, advance(old(self)@.ip(), 1)),
            final(self).device() == old(self).device(),
    {
        let next_instruction_address = self.get_register(Register::Ip);
        let next_instruction = self.memory_byte(next_instruction_address);
        self.set_register(Register::Ip, next_instruction_address.wrapping_add(1));
        next_instruction
    }

    /// Fetches the word that the instruction pointer points to, and moves
    /// the pointer past it.
    fn fetch16(&mut self) -> (word: u16)
        requires
            old(self).wf(),
            old(self)@.word(old(self)@.ip()) is Ok,
        ensures
            final(self).wf(),
            old(self)@.word(old(self)@.ip()) == Ok::<u16, Fault>(word),
            final(self)@ == old(self)@.with_register(Register::Ip, advance(old(self)@.ip(), 2)),
            final(self).device() == old(self).device(),
    {
        let next_instruction_address = self.get_register(Register::Ip);
        let next_instruction = self.memory_word(next_instruction_address);
        self.set_register(Register::Ip, next_instruction_address.wrapping_add(2));
        next_instruction
    }

    /// Fetches the byte that the instruction pointer points to as a
    /// register's index, and gives where that register's bytes start in the
    /// register file: index zero is the instruction pointer, one the
    /// accumulator, two the first general register, and so on.
    fn fetch_register_offset(&mut self) -> (offset: usize)
        requires
            old(self).wf(),
            old(self)@.register_operand(old(self)@.ip()) is Ok,
        ensures
            final(self).wf(),
            offset == old(self)@.register_operand(old(self)@.ip())->Ok_0.byte_offset(),
            final(self)@ == old(self)@.with_register(Register::Ip, advance(old(self)@.ip(), 1)),
            final(self).device() == old(self).device(),
    {
        let reg_num = self.fetch() as usize;
        reg_num * 2
    }

    /// `MOV_LIT_REG`: the register takes the literal.
    fn mov_lit_reg(&mut self)
        requires
            old(self).wf(),
            old(self).can_execute(MOV_LIT_REG),
        ensures
            final(self).wf(),
            old(self)@.execute(MOV_LIT_REG) == Ok::<Machine, Fault>(final(self)@),
            final(self).device() == old(self).device(),
    {
        let ghost start = self@;
        let ghost at = self@.ip();
        let literal = self.fetch16();
        let reg_offset = self.fetch_register_offset();
        let ghost to = start.register_operand(advance(at, 2))->Ok_0;
        self.set_register_at(reg_offset, literal, Ghost(to));
        assert(self@ =~= start.with_register(Register::Ip, advance(at, 3)).with_register(
            to,
            literal,
        ));
    }

    /// `MOV_REG_REG`: the second register takes the value of the first.
    fn mov_reg_reg(&mut self)
        requires
            old(self).wf(),
            old(self).can_execute(MOV_REG_REG),
        ensures
            final(self).wf(),
            old(self)@.execute(MOV_REG_REG) == Ok::<Machine, Fault>(final(self)@),
            final(self).device() == old(self).device(),
    {
        let ghost start = self@;
        let ghost at = self@.ip();
        let reg_from_offset = self.fetch_register_offset();
        let reg_to_offset = self.fetch_register_offset();
        let ghost from = start.register_operand(at)->Ok_0;
        let ghost to = start.register_operand(advance(at, 1))->Ok_0;
        let val = self.register_at(reg_from_offset, Ghost(from));
        self.set_register_at(reg_to_offset, val, Ghost(to));
        assert(self@ =~= start.with_register(Register::Ip, advance(at, 2)).with_register(
            to,
            val,
        ));
    }

    /// `MOV_REG_MEM`: the word in memory at the address takes the value of
    /// the register.
    fn mov_reg_mem(&mut self)
        requires
            old(self).wf(),
            old(self).can_execute(MOV_REG_MEM),
        ensures
            final(self).wf(),
            old(self)@.execute(MOV_REG_MEM) == Ok::<Machine, Fault>(final(self)@),
    {
        let ghost start = self@;
        let ghost at = self@.ip();
        let reg_from_offset = self.fetch_register_offset();
        let address = self.fetch16();
        let ghost from = start.register_operand(at)->Ok_0;
        let val = self.register_at(reg_from_offset, Ghost(from));
        self.set_memory_word(address, val);
        assert(self@ =~= start.with_register(Register::Ip, advance(at, 3)).with_word(
            address,
            val,
        ));
    }

    /// `MOV_MEM_REG`: the register takes the word in memory at the address.
    fn mov_mem_reg(&mut self)
        requires
            old(self).wf(),
            old(self).can_execute(MOV_MEM_REG),
        ensures
            final(self).wf(),
            old(self)@.execute(MOV_MEM_REG) == Ok::<Machine, Fault>(final(self)@),
            final(self).device() == old(self).device(),
    {
        let ghost start = self@;
        let ghost at = self@.ip();
        let address = self.fetch16();
        let reg_to_offset = self.fetch_register_offset();
        let ghost to = start.register_operand(advance(at, 2))->Ok_0;
        let val = self.memory_word(address);
        self.set_register_at(reg_to_offset, val, Ghost(to));
        assert(self@ =~= start.with_register(Register::Ip, advance(at, 3)).with_register(
            to,
            val,
        ));
    }

    /// `ADD_REG_REG`: the accumulator takes the sum of the two registers,
    /// wrapped to sixteen bits.
    fn add_reg_reg(&mut self)
        requires
            old(self).wf(),
            old(self).can_execute(ADD_REG_REG),
        ensures
            final(self).wf(),
            old(self)@.execute(ADD_REG_REG) == Ok::<Machine, Fault>(final(self)@),
            final(self).device() == old(self).device(),
    {
        let ghost start = self@;
        let ghost at = self@.ip();
        let first_register_offset = self.fetch_register_offset();
        let second_register_offset = self.fetch_register_offset();
        let ghost first = start.register_operand(at)->Ok_0;
        let ghost second = start.register_operand(advance(at, 1))->Ok_0;
        let register_value_1 = self.register_at(first_register_offset, Ghost(first));
        let register_value_2 = self.register_at(second_register_offset, Ghost(second));
        let sum = register_value_1.wrapping_add(register_value_2);
        self.set_register(Register::Acc, sum);
        assert(sum == wrapping_sum(register_value_1, register_value_2));
        assert(self@ =~= start.with_register(Register::Ip, advance(at, 2)).with_register(
            Register::Acc,
            sum,
        ));
    }

    /// `JMP_NOT_EQ`: the instruction pointer takes the address unless the
    /// accumulator equals the literal.
    fn jmp_not_eq(&mut self)
        requires
            old(self).wf(),
            old(self).can_execute(JMP_NOT_EQ),
        ensures
            final(self).wf(),
            old(self)@.execute(JMP_NOT_EQ) == Ok::<Machine, Fault>(final(self)@),
            final(self).device() == old(self).device(),
    {
        let ghost start = self@;
        let ghost at = self@.ip();
        let val = self.fetch16();
        let address = self.fetch16();
        let ghost fetched = self@;
        assert(fetched =~= start.with_register(Register::Ip, advance(at, 4)));
        if val != self.get_register(Register::Acc) {
            self.set_register(Register::Ip, address);
            assert(self@ =~= fetched.with_register(Register::Ip, address));
        }
    }

    /// Carries out the instruction with this opcode; the instruction
    /// pointer is at its operands.
    fn execute(&mut self, instruction: u8)
        requires
            old(self).wf(),
            old(self).can_execute(instruction),
        ensures
            final(self).wf(),
            old(self)@.execute(instruction) == Ok::<Machine, Fault>(final(self)@),
            instruction != MOV_REG_MEM ==> final(self).device() == old(self).device(),
    {
        if instruction == MOV_LIT_REG {
            self.mov_lit_reg();
        } else if instruction == MOV_REG_REG {
            self.mov_reg_reg();
        } else if instruction == MOV_REG_MEM {
            self.mov_reg_mem();
        } else if instruction == MOV_MEM_REG {
            self.mov_mem_reg();
        } else if instruction == ADD_REG_REG {
            self.add_reg_reg();
        } else {
            assert(instruction == JMP_NOT_EQ);
            self.jmp_not_eq();
        }
    }

    /// One step: fetches the opcode at the instruction pointer and carries
    /// out its instruction.
    pub fn step(&mut self)
        requires
            old(self).wf(),
            old(self).can_step(),
        ensures
            final(self).wf(),
            old(self)@.step() == Ok::<Machine, Fault>(final(self)@),
            old(self)@.byte(old(self)@.ip()) != Ok::<u8, Fault>(MOV_REG_MEM)
                ==> final(self).device() == old(self).device(),
    {
        proof {
            crate::machine::lemma_step_is_fetch_then_execute(self@);
        }
        let instruction = self.fetch();
        self.execute(instruction);
    }

    /// The `n` bytes of memory that start at `address`, for display.
    pub fn view_memory_at(&self, address: usize, n: usize) -> (bytes: Vec<u8>)
        requires
            in_bounds(self@.memory.len(), address as int, n as int),
            address + n <= usize::MAX,
        ensures
            bytes@ == self@.memory.subrange(address as int, address + n),
    {
        proof {
            reveal(Cpu::state);
        }
        let mut bytes: Vec<u8> = Vec::new();
        let mut i: usize = 0;
        while i < n
            invariant
                i <= n,
                address + n <= usize::MAX,
                in_bounds(self.memory.bytes().len(), address as int, n as int),
                bytes@ == self.memory.bytes().subrange(address as int, address + i),
            decreases n - i,
        {
            let val = self.memory.read_u8(address + i);
            bytes.push(val);
            i = i + 1;
        }
        bytes
    }
}

impl Cpu<MemoryStick> {
    /// The byte in memory at `address`, or the fault of reading there.
    fn peek_u8(&self, address: u16) -> (res: Result<u8, Fault>)
        ensures
            res == self@.byte(address),
    {
        proof {
            reveal(Cpu::state);
        }
        if (address as usize) < self.memory.len() {
            Ok(self.memory.read_u8(address as usize))
        } else {
            Err(Fault::OutOfBounds(address))
        }
    }

    /// The word in memory at `address`, or the fault of reading there.
    fn peek_u16(&self, address: u16) -> (res: Result<u16, Fault>)
        ensures
            res == self@.word(address),
    {
        proof {
            reveal(Cpu::state);
        }
        if address as usize + 2 <= self.memory.len() {
            Ok(self.memory.read_u16(address as usize))
        } else {
            Err(Fault::OutOfBounds(address))
        }
    }

    /// Where the bytes of the register named in memory at `address` start
    /// in the register file, or the fault of reading that name.
    fn peek_register(&self, address: u16) -> (res: Result<usize, Fault>)
        ensures
            match res {
                Ok(offset) => self@.register_operand(address) matches Ok(reg) && offset
                    == reg.byte_offset(),
                Err(fault) => self@.register_operand(address) == Err::<Register, Fault>(fault),
            },
    {
        match self.peek_u8(address) {
            Ok(raw_index) => Register::offset_for(raw_index),
            Err(fault) => Err(fault),
        }
    }

    /// The fault that the next step would run into, if any. Nothing is
    /// changed.
    pub fn fault(&self) -> (fault: Option<Fault>)
        requires
            self.wf(),
        ensures
            fault == match self@.step() {
                Ok(_) => None::<Fault>,
                Err(fault) => Some(fault),
            },
    {
        match self.probe() {
            Ok(()) => None,
            Err(fault) => Some(fault),
        }
    }

    /// Reads the instruction at the instruction pointer as a step would,
    /// and stops at the first fault.
    fn probe(&self) -> (res: Result<(), Fault>)
        requires
            self.wf(),
        ensures
            match res {
                Ok(()) => self@.step() is Ok,
                Err(fault) => self@.step() == Err::<Machine, Fault>(fault),
            },
    {
        let ip = self.get_register(Register::Ip);
        let opcode = self.peek_u8(ip)?;
        let at = ip.wrapping_add(1);
        if opcode == MOV_LIT_REG {
            self.peek_u16(at)?;
            self.peek_register(at.wrapping_add(2))?;
        } else if opcode == MOV_REG_REG {
            self.peek_register(at)?;
            self.peek_register(at.wrapping_add(1))?;
        } else if opcode == MOV_REG_MEM {
            self.peek_register(at)?;
            let address = self.peek_u16(at.wrapping_add(1))?;
            self.peek_u16(address)?;
        } else if opcode == MOV_MEM_REG {
            let address = self.peek_u16(at)?;
            self.peek_register(at.wrapping_add(2))?;
            self.peek_u16(address)?;
        } else if opcode == ADD_REG_REG {
            self.peek_register(at)?;
            self.peek_register(at.wrapping_add(1))?;
        } else if opcode == JMP_NOT_EQ {
            self.peek_u16(at)?;
            self.peek_u16(at.wrapping_add(2))?;
        } else {
            return Err(Fault::UnknownOpcode(opcode));
        }
        Ok(())
    }

    /// One step, if it can be taken. Where the instruction at the
    /// instruction pointer runs into a fault, the fault is returned and
    /// nothing is changed.
    pub fn try_step(&mut self) -> (res: Result<(), Fault>)
        requires
            old(self).wf(),
        ensures
            final(self).wf(),
            match res {
                Ok(()) => old(self)@.step() == Ok::<Machine, Fault>(final(self)@),
                Err(fault) => old(self)@.step() == Err::<Machine, Fault>(fault) && *final(self)
                    == *old(self),
            },
    {
        match self.fault() {
            Some(fault) => Err(fault),
            None => {
                proof {
                    reveal(Cpu::state);
                }
                self.step();
                Ok(())
            },
        }
    }
}

} // verus!
