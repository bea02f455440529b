use bbc_em::cpu::decode::encode_instruction;
use bbc_em::cpu::execute::execute_instruction;
use bbc_em::cpu::{
    decode_instruction, Addressing, Cpu, CpuError, Instruction, OpCode, Registers, StackError,
    StatusFlags,
};
use bbc_em::memory::MemMap;

#[test]
fn read_instruction() {
    let mem: &[u8] = &[0x7d, 0x00, 0x80];

    let (bytes, inst) = decode_instruction(mem).unwrap();
    assert_eq!(inst, Instruction(OpCode::Adc, Addressing::AbsoluteX(0x8000), 4));
    assert_eq!(bytes, 3);
}

#[test]
fn read_multiple_instructions() {
    let mem: &[u8] = &[0x7d, 0x00, 0x80, 0x65, 0x01, 0x71, 0b10000001];
    let (first_bytes, first) = decode_instruction(mem).unwrap();
    let (second_bytes, second) = decode_instruction(&mem[first_bytes..]).unwrap();
    let (_, third) = decode_instruction(&mem[first_bytes + second_bytes..]).unwrap();

    assert_eq!(first, Instruction(OpCode::Adc, Addressing::AbsoluteX(0x8000), 4));
    assert_eq!(second, Instruction(OpCode::Adc, Addressing::ZeroPage(1), 3));
    assert_eq!(third, Instruction(OpCode::Adc, Addressing::IndirectY(0b10000001), 5));
}

#[test]
fn add_to_accumulator_with_correct_overflow() {
    let mut mem = MemMap::new();
    let mut reg = Registers::new();
    reg.acc = 0x7f;

    let _ = execute_instruction(
        Instruction(OpCode::Adc, Addressing::Immediate(0x7f), 2),
        &mut mem,
        &mut reg,
    );

    assert!(reg.status.overflow);
    assert_eq!(0xfe, reg.acc);

    reg.acc = 0x3f;
    let _ = execute_instruction(
        Instruction(OpCode::Adc, Addressing::Immediate(0x3f), 2),
        &mut mem,
        &mut reg,
    );

    assert!(!reg.status.overflow);
}

#[test]
fn adc_sets_all_flags_on_signed_overflow() {
    let mut mem = MemMap::new();
    let mut reg = Registers::new();
    reg.acc = 0x7f;
    let r = execute_instruction(
        Instruction(OpCode::Adc, Addressing::Immediate(0x7f), 2),
        &mut mem,
        &mut reg,
    );
    assert_eq!(r.unwrap(), 2);
    assert_eq!(reg.acc, 0xfe);
    assert!(reg.status.overflow);
    assert!(reg.status.negative);
    assert!(!reg.status.carry);
    assert!(!reg.status.zero);
}

#[test]
fn adc_adds_the_carry_in() {
    let mut mem = MemMap::new();
    let mut reg = Registers::new();
    reg.acc = 0xff;
    reg.status.carry = true;
    execute_instruction(Instruction(OpCode::Adc, Addressing::Immediate(0x01), 2), &mut mem, &mut reg)
        .unwrap();
    assert_eq!(reg.acc, 0x01);
    assert!(reg.status.carry);
    assert!(!reg.status.zero);
}

#[test]
fn sbc_borrows_without_carry() {
    let mut mem = MemMap::new();
    let mut reg = Registers::new();
    reg.acc = 0x05;
    reg.status.carry = true;
    execute_instruction(Instruction(OpCode::Sbc, Addressing::Immediate(0x06), 2), &mut mem, &mut reg)
        .unwrap();
    assert_eq!(reg.acc, 0xff);
    assert!(!reg.status.carry);
    assert!(reg.status.negative);
}

#[test]
fn cmp_sets_negative_from_the_difference() {
    let mut mem = MemMap::new();
    let mut reg = Registers::new();
    reg.acc = 0x90;
    execute_instruction(Instruction(OpCode::Cmp, Addressing::Immediate(0x01), 2), &mut mem, &mut reg)
        .unwrap();
    assert!(reg.status.carry);
    assert!(!reg.status.zero);
    assert!(reg.status.negative);
}

#[test]
fn asl_moves_bit_seven_into_carry() {
    let mut mem = MemMap::new();
    let mut reg = Registers::new();
    reg.acc = 0x81;
    execute_instruction(Instruction(OpCode::Asl, Addressing::Accumulator, 2), &mut mem, &mut reg)
        .unwrap();
    assert_eq!(reg.acc, 0x02);
    assert!(reg.status.carry);
}

#[test]
fn absolute_x_read_pays_for_crossing_a_page() {
    let mut mem = MemMap::new();
    let mut reg = Registers::new();
    reg.x = 0x01;
    let same_page = execute_instruction(
        Instruction(OpCode::Lda, Addressing::AbsoluteX(0x2000), 4),
        &mut mem,
        &mut reg,
    );
    assert_eq!(same_page.unwrap(), 4);
    let crossing = execute_instruction(
        Instruction(OpCode::Lda, Addressing::AbsoluteX(0x20ff), 4),
        &mut mem,
        &mut reg,
    );
    assert_eq!(crossing.unwrap(), 5);
}

#[test]
fn indirect_y_read_pays_for_crossing_a_page() {
    let mut mem = MemMap::new();
    mem.write(0x0010, 0xff);
    mem.write(0x0011, 0x20);
    mem.write(0x2100, 0x42);
    let mut reg = Registers::new();
    reg.y = 0x01;
    let r = execute_instruction(
        Instruction(OpCode::Lda, Addressing::IndirectY(0x10), 5),
        &mut mem,
        &mut reg,
    );
    assert_eq!(r.unwrap(), 6);
    assert_eq!(reg.acc, 0x42);
}

#[test]
fn taken_branch_costs_one_and_two_across_pages() {
    let mut mem = MemMap::new();
    let mut reg = Registers::new();
    reg.pc = 0x1010;
    let untaken = execute_instruction(
        Instruction(OpCode::Bcs, Addressing::Relative(0x10), 2),
        &mut mem,
        &mut reg,
    );
    assert_eq!(untaken.unwrap(), 2);
    assert_eq!(reg.pc, 0x1010);
    let taken = execute_instruction(
        Instruction(OpCode::Bcc, Addressing::Relative(0x10), 2),
        &mut mem,
        &mut reg,
    );
    assert_eq!(taken.unwrap(), 3);
    assert_eq!(reg.pc, 0x1020);
    let across = execute_instruction(
        Instruction(OpCode::Bcc, Addressing::Relative(-0x30), 2),
        &mut mem,
        &mut reg,
    );
    assert_eq!(across.unwrap(), 4);
    assert_eq!(reg.pc, 0x0ff0);
}

#[test]
fn push_then_pull_restores_the_stack_pointer() {
    let mut mem = MemMap::new();
    let mut reg = Registers::new();
    reg.sp = 0xff;
    reg.acc = 0x5a;
    execute_instruction(Instruction(OpCode::Pha, Addressing::Implied, 3), &mut mem, &mut reg).unwrap();
    assert_eq!(reg.sp, 0xfe);
    reg.acc = 0;
    execute_instruction(Instruction(OpCode::Pla, Addressing::Implied, 4), &mut mem, &mut reg).unwrap();
    assert_eq!(reg.sp, 0xff);
    assert_eq!(reg.acc, 0x5a);
}

#[test]
fn push_at_the_bottom_overflows() {
    let mut mem = MemMap::new();
    let mut reg = Registers::new();
    reg.sp = 0;
    let r = execute_instruction(Instruction(OpCode::Pha, Addressing::Implied, 3), &mut mem, &mut reg);
    assert_eq!(r, Err(CpuError::Stack(StackError::Overflow)));
}

#[test]
fn pull_at_the_top_underflows() {
    let mut mem = MemMap::new();
    let mut reg = Registers::new();
    reg.sp = 0xff;
    let r = execute_instruction(Instruction(OpCode::Pla, Addressing::Implied, 4), &mut mem, &mut reg);
    assert_eq!(r, Err(CpuError::Stack(StackError::Underflow)));
}

#[test]
fn operand_that_an_operation_cannot_take_is_invalid() {
    let mut mem = MemMap::new();
    let mut reg = Registers::new();
    let r = execute_instruction(Instruction(OpCode::Sta, Addressing::Immediate(1), 2), &mut mem, &mut reg);
    assert_eq!(r, Err(CpuError::InvalidInstruction));
}

#[test]
fn unknown_opcode_does_not_decode() {
    assert!(decode_instruction(&[0x02]).is_err());
    assert!(decode_instruction(&[]).is_err());
    assert!(decode_instruction(&[0xad, 0x00]).is_err());
}

#[test]
fn encoded_instruction_decodes_back() {
    let ins = Instruction(OpCode::Sta, Addressing::IndirectY(0x70), 6);
    let bytes = encode_instruction(&ins).unwrap();
    assert_eq!(bytes, vec![0x91, 0x70]);
    assert_eq!(decode_instruction(&bytes).unwrap(), (2, ins));
    assert!(encode_instruction(&Instruction(OpCode::Sta, Addressing::Immediate(1), 2)).is_none());
}

#[test]
fn status_byte_round_trip() {
    let mut f = StatusFlags::new();
    f.carry = true;
    f.negative = true;
    let b = f.to_byte();
    assert_eq!(b, 0xa1);
    assert_eq!(StatusFlags::from(b), f);
}

fn machine_with_program(at: u16, program: &[u8]) -> MemMap {
    let mut mem = MemMap::new();
    mem.copy_into(at as usize, program);
    mem.write(0xfffc, (at & 0xff) as u8);
    mem.write(0xfffd, (at >> 8) as u8);
    mem
}

#[test]
fn jsr_pushes_return_address_and_rts_comes_back() {
    // LDX #$FF; TXS; JSR $1234 at 0x1000 ... RTS at 0x1234
    let mut mem = machine_with_program(0x0ffd, &[0xa2, 0xff, 0x9a, 0x20, 0x34, 0x12]);
    mem.write(0x1234, 0x60);
    let mut cpu = Cpu::new();
    cpu.initialize(&mut mem).unwrap();
    assert_eq!(cpu.program_counter(), 0x0ffd);
    cpu.step(&mut mem).unwrap();
    cpu.step(&mut mem).unwrap();
    assert_eq!(cpu.program_counter(), 0x1000);
    let cycles = cpu.step(&mut mem).unwrap();
    assert_eq!(cycles, 6);
    assert_eq!(cpu.program_counter(), 0x1234);
    assert_eq!(mem.peek(0x01ff), 0x10);
    assert_eq!(mem.peek(0x01fe), 0x02);
    assert_eq!(cpu.registers().sp, 0xfd);
    cpu.step(&mut mem).unwrap();
    assert_eq!(cpu.program_counter(), 0x1003);
    assert_eq!(cpu.registers().sp, 0xff);
}

#[test]
fn step_on_an_unknown_opcode_fails() {
    let mut mem = machine_with_program(0x2000, &[0x02]);
    let mut cpu = Cpu::new();
    cpu.initialize(&mut mem).unwrap();
    assert_eq!(cpu.step(&mut mem), Err(CpuError::InvalidInstruction));
}

#[test]
fn interrupt_request_is_taken_only_when_unmasked() {
    let mut mem = machine_with_program(0x2000, &[0xa2, 0xff, 0x9a]);
    mem.write(0xfffe, 0x00);
    mem.write(0xffff, 0x30);
    let mut cpu = Cpu::new();
    cpu.initialize(&mut mem).unwrap();
    cpu.step(&mut mem).unwrap();
    cpu.step(&mut mem).unwrap();
    assert_eq!(cpu.interrupt_request(&mut mem), Ok(true));
    assert_eq!(cpu.program_counter(), 0x3000);
    assert!(cpu.registers().status.interrupt);
    assert_eq!(mem.peek(0x01ff), 0x20);
    assert_eq!(mem.peek(0x01fe), 0x03);
    assert_eq!(cpu.interrupt_request(&mut mem), Ok(false));
    assert_eq!(cpu.program_counter(), 0x3000);
}

#[test]
fn non_maskable_interrupt_takes_its_vector() {
    let mut mem = machine_with_program(0x2000, &[0xa2, 0xff, 0x9a, 0x78]);
    mem.write(0xfffa, 0x00);
    mem.write(0xfffb, 0x40);
    let mut cpu = Cpu::new();
    cpu.initialize(&mut mem).unwrap();
    cpu.step(&mut mem).unwrap();
    cpu.step(&mut mem).unwrap();
    cpu.step(&mut mem).unwrap();
    assert!(cpu.registers().status.interrupt);
    cpu.non_maskable_interrupt(&mut mem).unwrap();
    assert_eq!(cpu.program_counter(), 0x4000);
}

#[test]
fn brk_pushes_status_with_break_and_masks_interrupts() {
    let mut mem = machine_with_program(0x2000, &[0xa2, 0xff, 0x9a, 0x00]);
    mem.write(0xfffe, 0x00);
    mem.write(0xffff, 0x50);
    let mut cpu = Cpu::new();
    cpu.initialize(&mut mem).unwrap();
    cpu.step(&mut mem).unwrap();
    cpu.step(&mut mem).unwrap();
    assert_eq!(cpu.step(&mut mem), Ok(7));
    assert_eq!(cpu.program_counter(), 0x5000);
    assert!(cpu.registers().status.interrupt);
    assert_eq!(mem.peek(0x01fd) & 0x10, 0x10);
}

#[test]
fn decimal_mode_addition_is_reported_before_the_step() {
    let mut mem = machine_with_program(0x2000, &[0xf8, 0x69, 0x01]);
    let mut cpu = Cpu::new();
    cpu.initialize(&mut mem).unwrap();
    assert!(!cpu.decimal_mode_pending(&mem));
    cpu.step(&mut mem).unwrap();
    assert!(cpu.decimal_mode_pending(&mem));
}

#[test]
fn stack_faults_leave_the_registers_alone() {
    let mut mem = MemMap::new();
    let mut reg = Registers::new();
    reg.sp = 0;
    reg.acc = 0x12;
    let before = reg;
    assert!(bbc_em::cpu::stack::push_stack(0x34, &mut mem, &mut reg).is_err());
    assert_eq!(reg, before);
    reg.sp = 0xff;
    let before = reg;
    assert!(bbc_em::cpu::stack::pop_stack(&mut mem, &mut reg).is_err());
    assert_eq!(reg, before);
}

#[test]
fn decode_fault_leaves_the_program_counter() {
    let mut mem = machine_with_program(0x2000, &[0xff]);
    let mut cpu = Cpu::new();
    cpu.initialize(&mut mem).unwrap();
    assert!(cpu.step(&mut mem).is_err());
    assert_eq!(cpu.program_counter(), 0x2000);
}
