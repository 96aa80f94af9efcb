use cpu::device::{Device, MemoryStick};
use cpu::instructions::{
    ADD_REG_REG, JMP_NOT_EQ, MOV_LIT_REG, MOV_MEM_REG, MOV_REG_MEM, MOV_REG_REG,
};
use cpu::machine::Fault;
use cpu::{Cpu, Register};

const IP: u8 = 0;
const ACC: u8 = 1;
const R1: u8 = 2;
const R2: u8 = 3;
const R8: u8 = 9;

const REGISTERS: [Register; 10] = [
    Register::Ip,
    Register::Acc,
    Register::R1,
    Register::R2,
    Register::R3,
    Register::R4,
    Register::R5,
    Register::R6,
    Register::R7,
    Register::R8,
];

fn machine(length: usize, at: usize, program: &[u8]) -> Cpu<MemoryStick> {
    let mut memory = MemoryStick::try_new(length).unwrap();
    for (index, byte) in program.iter().enumerate() {
        memory.write_u8(at + index, *byte).unwrap();
    }
    Cpu::new(memory)
}

fn values(cpu: &Cpu<MemoryStick>) -> Vec<u16> {
    REGISTERS.iter().map(|reg| cpu.get_register(*reg)).collect()
}

#[test]
fn the_opcodes_differ() {
    let opcodes = [MOV_LIT_REG, MOV_REG_REG, MOV_REG_MEM, MOV_MEM_REG, ADD_REG_REG, JMP_NOT_EQ];
    for (i, a) in opcodes.iter().enumerate() {
        for b in opcodes.iter().skip(i + 1) {
            assert_ne!(a, b);
        }
    }
    assert_eq!(opcodes, [0x10, 0x11, 0x12, 0x13, 0x14, 0x15]);
}

#[test]
fn registers_are_placed_in_their_order() {
    assert_eq!(Register::COUNT, 10);
    for (index, reg) in REGISTERS.iter().enumerate() {
        assert_eq!(reg.as_byte_offset(), index * 2);
        assert_eq!(Register::offset_for(index as u8), Ok(reg.as_byte_offset()));
    }
}

#[test]
fn index_zero_names_the_instruction_pointer() {
    assert_eq!(Register::offset_for(0), Ok(Register::Ip.as_byte_offset()));
    assert_eq!(Register::offset_for(0), Ok(0));
    assert_eq!(Register::offset_for(1), Ok(Register::Acc.as_byte_offset()));
    assert_eq!(Register::offset_for(9), Ok(18));
}

#[test]
fn an_index_beyond_the_registers_names_none() {
    assert_eq!(Register::offset_for(10), Err(Fault::UnknownRegister(10)));
    assert_eq!(Register::offset_for(11), Err(Fault::UnknownRegister(11)));
    assert_eq!(Register::offset_for(255), Err(Fault::UnknownRegister(255)));
}

#[test]
fn a_new_processor_has_every_register_at_zero() {
    let cpu = machine(16, 0, &[]);
    assert_eq!(values(&cpu), vec![0u16; 10]);
    assert_eq!(cpu.view_memory_at(0, 16), vec![0u8; 16]);
}

#[test]
fn a_new_processor_keeps_the_memory_it_is_given() {
    let cpu = machine(8, 2, &[0xDE, 0xAD, 0xBE, 0xEF]);
    assert_eq!(cpu.view_memory_at(0, 8), vec![0, 0, 0xDE, 0xAD, 0xBE, 0xEF, 0, 0]);
    assert_eq!(cpu.view_memory_at(3, 2), vec![0xAD, 0xBE]);
    assert_eq!(cpu.view_memory_at(8, 0), Vec::<u8>::new());
}

#[test]
fn a_literal_is_moved_into_a_register() {
    let mut cpu = machine(16, 0, &[MOV_LIT_REG, 0x12, 0x34, R1]);
    assert_eq!(cpu.fault(), None);
    cpu.step();
    assert_eq!(cpu.get_register(Register::R1), 0x1234);
    assert_eq!(cpu.get_register(Register::Ip), 4);
    assert_eq!(values(&cpu), vec![4, 0, 0x1234, 0, 0, 0, 0, 0, 0, 0]);
}

#[test]
fn every_register_can_take_a_literal() {
    for (index, reg) in REGISTERS.iter().enumerate().skip(1) {
        let mut cpu = machine(16, 0, &[MOV_LIT_REG, 0xAB, 0xCD, index as u8]);
        assert_eq!(cpu.try_step(), Ok(()));
        assert_eq!(cpu.get_register(*reg), 0xABCD);
        for other in REGISTERS.iter().skip(1) {
            if other != reg {
                assert_eq!(cpu.get_register(*other), 0);
            }
        }
        assert_eq!(cpu.get_register(Register::Ip), 4);
    }
}

#[test]
fn the_golden_run() {
    let mut cpu = machine(
        65536,
        0,
        &[
            MOV_LIT_REG, 0x12, 0x34, R1,
            MOV_LIT_REG, 0xAB, 0xCD, R2,
            ADD_REG_REG, R1, R2,
        ],
    );
    cpu.step();
    assert_eq!(values(&cpu), vec![4, 0, 0x1234, 0, 0, 0, 0, 0, 0, 0]);
    cpu.step();
    assert_eq!(values(&cpu), vec![8, 0, 0x1234, 0xABCD, 0, 0, 0, 0, 0, 0]);
    cpu.step();
    assert_eq!(cpu.get_register(Register::R1), 0x1234);
    assert_eq!(cpu.get_register(Register::R2), 0xABCD);
    assert_eq!(cpu.get_register(Register::Acc), 0xBE01);
    assert_eq!(cpu.get_register(Register::Ip), 11);
    assert_eq!(values(&cpu), vec![11, 0xBE01, 0x1234, 0xABCD, 0, 0, 0, 0, 0, 0]);
}

#[test]
fn the_golden_run_goes_on_to_store_the_sum() {
    let mut cpu = machine(
        65536,
        0,
        &[
            MOV_LIT_REG, 0x12, 0x34, R1,
            MOV_LIT_REG, 0xAB, 0xCD, R2,
            ADD_REG_REG, R1, R2,
            MOV_REG_MEM, ACC, 0x01, 0x00,
        ],
    );
    for _ in 0..4 {
        assert_eq!(cpu.try_step(), Ok(()));
    }
    assert_eq!(values(&cpu), vec![15, 0xBE01, 0x1234, 0xABCD, 0, 0, 0, 0, 0, 0]);
    assert_eq!(cpu.view_memory_at(0x0100, 8), vec![0xBE, 0x01, 0, 0, 0, 0, 0, 0]);
}

#[test]
fn a_sum_wraps_at_sixteen_bits() {
    let mut cpu = machine(
        32,
        0,
        &[
            MOV_LIT_REG, 0xFF, 0xFF, R1,
            MOV_LIT_REG, 0x00, 0x02, R2,
            ADD_REG_REG, R1, R2,
            ADD_REG_REG, R1, R1,
        ],
    );
    cpu.step();
    cpu.step();
    cpu.step();
    assert_eq!(cpu.get_register(Register::Acc), 0x0001);
    cpu.step();
    assert_eq!(cpu.get_register(Register::Acc), 0xFFFE);
    assert_eq!(cpu.get_register(Register::R1), 0xFFFF);
    assert_eq!(cpu.get_register(Register::R2), 0x0002);
    assert_eq!(cpu.get_register(Register::Ip), 14);
}

#[test]
fn a_register_is_moved_into_a_register() {
    let mut cpu = machine(16, 0, &[MOV_LIT_REG, 0xCA, 0xFE, R1, MOV_REG_REG, R1, R8]);
    cpu.step();
    cpu.step();
    assert_eq!(values(&cpu), vec![7, 0, 0xCAFE, 0, 0, 0, 0, 0, 0, 0xCAFE]);
}

#[test]
fn the_instruction_pointer_is_read_after_the_operands() {
    let mut cpu = machine(16, 0, &[MOV_LIT_REG, 0, 0, R1, MOV_REG_REG, IP, R2]);
    cpu.step();
    cpu.step();
    assert_eq!(cpu.get_register(Register::R2), 7);
    assert_eq!(cpu.get_register(Register::Ip), 7);
}

#[test]
fn a_register_is_stored_in_memory() {
    let mut cpu = machine(32, 0, &[MOV_LIT_REG, 0xAB, 0xCD, R1, MOV_REG_MEM, R1, 0x00, 0x10]);
    cpu.step();
    cpu.step();
    assert_eq!(cpu.view_memory_at(0x0F, 4), vec![0, 0xAB, 0xCD, 0]);
    assert_eq!(values(&cpu), vec![8, 0, 0xABCD, 0, 0, 0, 0, 0, 0, 0]);
}

#[test]
fn a_word_of_memory_is_loaded_into_a_register() {
    let mut cpu = machine(32, 0, &[MOV_MEM_REG, 0x00, 0x10, R2, 0, 0, 0, 0, 0, 0, 0, 0, 0, 0, 0, 0, 0x12, 0x34]);
    cpu.step();
    assert_eq!(values(&cpu), vec![4, 0, 0, 0x1234, 0, 0, 0, 0, 0, 0]);
    assert_eq!(cpu.view_memory_at(0x10, 2), vec![0x12, 0x34]);
}

#[test]
fn a_store_can_change_the_program() {
    let mut cpu = machine(
        16,
        0,
        &[
            MOV_LIT_REG, MOV_LIT_REG, 0x77, R1,
            MOV_REG_MEM, R1, 0x00, 0x08,
            0xFF, 0xFF, 0x88, R2,
        ],
    );
    cpu.step();
    cpu.step();
    assert_eq!(cpu.view_memory_at(8, 4), vec![MOV_LIT_REG, 0x77, 0x88, R2]);
    cpu.step();
    assert_eq!(cpu.get_register(Register::R2), 0x7788);
    assert_eq!(cpu.get_register(Register::Ip), 12);
}

#[test]
fn a_jump_is_taken_where_the_accumulator_differs() {
    let mut cpu = machine(16, 0, &[JMP_NOT_EQ, 0x00, 0x03, 0x00, 0x0A]);
    assert_eq!(cpu.get_register(Register::Acc), 0);
    cpu.step();
    assert_eq!(cpu.get_register(Register::Ip), 0x000A);
    assert_eq!(values(&cpu), vec![0x000A, 0, 0, 0, 0, 0, 0, 0, 0, 0]);
}

#[test]
fn a_jump_is_not_taken_where_the_accumulator_is_equal() {
    let mut cpu = machine(
        32,
        0,
        &[
            MOV_LIT_REG, 0x00, 0x03, R1,
            ADD_REG_REG, R1, R2,
            JMP_NOT_EQ, 0x00, 0x03, 0x00, 0x1A,
        ],
    );
    cpu.step();
    cpu.step();
    assert_eq!(cpu.get_register(Register::Acc), 0x0003);
    cpu.step();
    assert_eq!(cpu.get_register(Register::Ip), 12);
    assert_eq!(values(&cpu), vec![12, 3, 3, 0, 0, 0, 0, 0, 0, 0]);
}

#[test]
fn a_jump_is_taken_where_the_accumulator_is_not_three() {
    let mut cpu = machine(
        32,
        0,
        &[
            MOV_LIT_REG, 0x00, 0x04, R1,
            ADD_REG_REG, R1, R2,
            JMP_NOT_EQ, 0x00, 0x03, 0x00, 0x1A,
        ],
    );
    cpu.step();
    cpu.step();
    cpu.step();
    assert_eq!(cpu.get_register(Register::Ip), 0x001A);
    assert_eq!(cpu.get_register(Register::Acc), 0x0004);
}

#[test]
fn a_literal_moved_into_the_instruction_pointer_is_a_jump() {
    let mut cpu = machine(16, 0, &[MOV_LIT_REG, 0x00, 0x08, IP, 0, 0, 0, 0, MOV_LIT_REG, 0x00, 0x2A, ACC]);
    cpu.step();
    assert_eq!(cpu.get_register(Register::Ip), 8);
    cpu.step();
    assert_eq!(cpu.get_register(Register::Acc), 42);
    assert_eq!(cpu.get_register(Register::Ip), 12);
}

#[test]
fn a_byte_that_is_no_opcode_is_a_fault() {
    let mut cpu = machine(16, 0, &[0xFF]);
    assert_eq!(cpu.fault(), Some(Fault::UnknownOpcode(0xFF)));
    assert_eq!(cpu.try_step(), Err(Fault::UnknownOpcode(0xFF)));
    assert_eq!(values(&cpu), vec![0u16; 10]);
    assert_eq!(cpu.try_step(), Err(Fault::UnknownOpcode(0xFF)));
}

#[test]
fn a_zero_byte_is_no_opcode() {
    let mut cpu = machine(16, 0, &[]);
    assert_eq!(cpu.try_step(), Err(Fault::UnknownOpcode(0)));
    assert_eq!(cpu.get_register(Register::Ip), 0);
}

#[test]
fn only_the_six_opcodes_are_known() {
    for byte in 0..=255u8 {
        let mut cpu = machine(1024, 0, &[byte, 2, 2, 2, 2]);
        let known = (MOV_LIT_REG..=JMP_NOT_EQ).contains(&byte);
        if known {
            assert_eq!(cpu.try_step(), Ok(()));
            assert_ne!(cpu.get_register(Register::Ip), 0);
        } else {
            assert_eq!(cpu.try_step(), Err(Fault::UnknownOpcode(byte)));
            assert_eq!(values(&cpu), vec![0u16; 10]);
        }
    }
}

#[test]
fn a_run_stops_at_the_first_fault() {
    let mut cpu = machine(16, 0, &[MOV_LIT_REG, 0x00, 0x01, R1, 0x99, MOV_LIT_REG, 0x00, 0x02, R2]);
    assert_eq!(cpu.try_step(), Ok(()));
    assert_eq!(cpu.try_step(), Err(Fault::UnknownOpcode(0x99)));
    assert_eq!(cpu.try_step(), Err(Fault::UnknownOpcode(0x99)));
    assert_eq!(values(&cpu), vec![4, 0, 1, 0, 0, 0, 0, 0, 0, 0]);
}

#[test]
fn a_byte_that_names_no_register_is_a_fault() {
    let mut cpu = machine(16, 0, &[MOV_LIT_REG, 0x12, 0x34, 10]);
    assert_eq!(cpu.fault(), Some(Fault::UnknownRegister(10)));
    assert_eq!(cpu.try_step(), Err(Fault::UnknownRegister(10)));
    assert_eq!(values(&cpu), vec![0u16; 10]);

    let mut cpu = machine(16, 0, &[MOV_REG_REG, R1, 0xFF]);
    assert_eq!(cpu.try_step(), Err(Fault::UnknownRegister(0xFF)));

    let mut cpu = machine(16, 0, &[ADD_REG_REG, 0x80, 0xFF]);
    assert_eq!(cpu.try_step(), Err(Fault::UnknownRegister(0x80)));
}

#[test]
fn a_fetch_past_the_end_of_memory_is_a_fault() {
    let mut cpu = machine(16, 0, &[JMP_NOT_EQ, 0x00, 0x03, 0x00, 0x10]);
    assert_eq!(cpu.try_step(), Ok(()));
    assert_eq!(cpu.get_register(Register::Ip), 16);
    assert_eq!(cpu.fault(), Some(Fault::OutOfBounds(16)));
    assert_eq!(cpu.try_step(), Err(Fault::OutOfBounds(16)));
    assert_eq!(cpu.get_register(Register::Ip), 16);
}

#[test]
fn a_fetch_of_the_last_byte_is_none() {
    let mut cpu = machine(16, 0, &[JMP_NOT_EQ, 0x00, 0x03, 0x00, 0x0F, 0, 0, 0, 0, 0, 0, 0, 0, 0, 0, 0xEE]);
    assert_eq!(cpu.try_step(), Ok(()));
    assert_eq!(cpu.get_register(Register::Ip), 15);
    assert_eq!(cpu.try_step(), Err(Fault::UnknownOpcode(0xEE)));
}

#[test]
fn an_operand_cut_off_by_the_end_of_memory_is_a_fault() {
    let mut cpu = machine(
        16,
        0,
        &[JMP_NOT_EQ, 0x00, 0x03, 0x00, 0x0D, 0, 0, 0, 0, 0, 0, 0, 0, MOV_LIT_REG, 0x12, 0x34],
    );
    cpu.step();
    assert_eq!(cpu.try_step(), Err(Fault::OutOfBounds(16)));
    assert_eq!(cpu.get_register(Register::Ip), 13);

    let mut cpu = machine(
        16,
        0,
        &[JMP_NOT_EQ, 0x00, 0x03, 0x00, 0x0E, 0, 0, 0, 0, 0, 0, 0, 0, 0, MOV_LIT_REG, 0x12],
    );
    cpu.step();
    assert_eq!(cpu.try_step(), Err(Fault::OutOfBounds(15)));
}

#[test]
fn a_load_past_the_end_of_memory_is_a_fault() {
    let mut cpu = machine(16, 0, &[MOV_MEM_REG, 0x00, 0x0F, R1]);
    assert_eq!(cpu.try_step(), Err(Fault::OutOfBounds(15)));
    let mut cpu = machine(16, 0, &[MOV_MEM_REG, 0x00, 0x10, R1]);
    assert_eq!(cpu.try_step(), Err(Fault::OutOfBounds(16)));
    let mut cpu = machine(16, 0, &[MOV_MEM_REG, 0x00, 0x0E, R1]);
    assert_eq!(cpu.try_step(), Ok(()));
}

#[test]
fn a_store_past_the_end_of_memory_is_a_fault() {
    let mut cpu = machine(16, 0, &[MOV_REG_MEM, R1, 0x00, 0x0F]);
    assert_eq!(cpu.try_step(), Err(Fault::OutOfBounds(15)));
    assert_eq!(cpu.view_memory_at(0, 16), vec![MOV_REG_MEM, R1, 0, 0x0F, 0, 0, 0, 0, 0, 0, 0, 0, 0, 0, 0, 0]);
    assert_eq!(values(&cpu), vec![0u16; 10]);
    let mut cpu = machine(16, 0, &[MOV_REG_MEM, R1, 0xFF, 0xFF]);
    assert_eq!(cpu.try_step(), Err(Fault::OutOfBounds(0xFFFF)));
    let mut cpu = machine(16, 0, &[MOV_REG_MEM, R1, 0x00, 0x0E]);
    assert_eq!(cpu.try_step(), Ok(()));
}

#[test]
fn the_first_fault_met_is_the_one_reported() {
    let mut cpu = machine(16, 0, &[MOV_REG_MEM, 0x0A, 0xFF, 0xFF]);
    assert_eq!(cpu.try_step(), Err(Fault::UnknownRegister(0x0A)));
    let mut cpu = machine(16, 0, &[MOV_MEM_REG, 0xFF, 0xFF, 0x0A]);
    assert_eq!(cpu.try_step(), Err(Fault::UnknownRegister(0x0A)));
    let mut cpu = machine(16, 0, &[MOV_REG_REG, 0x0B, 0x0C]);
    assert_eq!(cpu.try_step(), Err(Fault::UnknownRegister(0x0B)));
}

#[test]
fn an_empty_memory_has_nothing_to_fetch() {
    let mut cpu = machine(0, 0, &[]);
    assert_eq!(cpu.try_step(), Err(Fault::OutOfBounds(0)));
    assert_eq!(cpu.view_memory_at(0, 0), Vec::<u8>::new());
}

#[test]
fn the_instruction_pointer_wraps_at_the_end_of_the_address_space() {
    let mut memory = MemoryStick::try_new(65536).unwrap();
    for (index, byte) in [JMP_NOT_EQ, 0x00, 0x03, 0xFF, 0xFD].iter().enumerate() {
        memory.write_u8(index, *byte).unwrap();
    }
    for (index, byte) in [MOV_REG_REG, IP, R1].iter().enumerate() {
        memory.write_u8(0xFFFD + index, *byte).unwrap();
    }
    let mut cpu = Cpu::new(memory);
    cpu.step();
    assert_eq!(cpu.get_register(Register::Ip), 0xFFFD);
    assert_eq!(cpu.try_step(), Ok(()));
    assert_eq!(cpu.get_register(Register::Ip), 0);
    assert_eq!(cpu.get_register(Register::R1), 0);
}

#[test]
fn an_instruction_that_starts_at_the_last_address_goes_on_at_the_first() {
    let mut memory = MemoryStick::try_new(65536).unwrap();
    for (index, byte) in [JMP_NOT_EQ, 0x00, R2, 0xFF, 0xFF].iter().enumerate() {
        memory.write_u8(index, *byte).unwrap();
    }
    memory.write_u8(0xFFFF, MOV_LIT_REG).unwrap();
    let mut cpu = Cpu::new(memory);
    cpu.step();
    assert_eq!(cpu.get_register(Register::Ip), 0xFFFF);
    assert_eq!(cpu.try_step(), Ok(()));
    assert_eq!(cpu.get_register(Register::R2), 0x1500);
    assert_eq!(cpu.get_register(Register::Ip), 0x0003);
    assert_eq!(cpu.try_step(), Err(Fault::UnknownOpcode(0xFF)));
}

#[test]
fn a_word_is_not_read_round_the_end_of_the_address_space() {
    let mut memory = MemoryStick::try_new(65536).unwrap();
    for (index, byte) in [JMP_NOT_EQ, 0x00, 0x03, 0xFF, 0xFE].iter().enumerate() {
        memory.write_u8(index, *byte).unwrap();
    }
    memory.write_u8(0xFFFE, MOV_LIT_REG).unwrap();
    let mut cpu = Cpu::new(memory);
    cpu.step();
    assert_eq!(cpu.get_register(Register::Ip), 0xFFFE);
    assert_eq!(cpu.try_step(), Err(Fault::OutOfBounds(0xFFFF)));
    assert_eq!(cpu.get_register(Register::Ip), 0xFFFE);
}
