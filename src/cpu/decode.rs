use vstd::prelude::*;

use crate::cpu::{Addressing, AddressingMode, Instruction, InstructionDecodeError, OpCode};

verus! {

/// The documented 6502 instruction set: for each opcode byte, the operation,
/// the kind of operand and the base cycle count.
pub open spec fn opcode_table(b: u8) -> Option<(OpCode, AddressingMode, usize)> {
    match b {
        0x69u8 => Some((OpCode::Adc, AddressingMode::Immediate, 2usize)),
        0x65u8 => Some((OpCode::Adc, AddressingMode::ZeroPage, 3usize)),
        0x75u8 => Some((OpCode::Adc, AddressingMode::ZeroPageX, 4usize)),
        0x6du8 => Some((OpCode::Adc, AddressingMode::Absolute, 4usize)),
        0x7du8 => Some((OpCode::Adc, AddressingMode::AbsoluteX, 4usize)),
        0x79u8 => Some((OpCode::Adc, AddressingMode::AbsoluteY, 4usize)),
        0x61u8 => Some((OpCode::Adc, AddressingMode::IndirectX, 6usize)),
        0x71u8 => Some((OpCode::Adc, AddressingMode::IndirectY, 5usize)),
        0x29u8 => Some((OpCode::And, AddressingMode::Immediate, 2usize)),
        0x25u8 => Some((OpCode::And, AddressingMode::ZeroPage, 3usize)),
        0x35u8 => Some((OpCode::And, AddressingMode::ZeroPageX, 4usize)),
        0x2du8 => Some((OpCode::And, AddressingMode::Absolute, 4usize)),
        0x3du8 => Some((OpCode::And, AddressingMode::AbsoluteX, 4usize)),
        0x39u8 => Some((OpCode::And, AddressingMode::AbsoluteY, 4usize)),
        0x21u8 => Some((OpCode::And, AddressingMode::IndirectX, 6usize)),
        0x31u8 => Some((OpCode::And, AddressingMode::IndirectY, 5usize)),
        0x0au8 => Some((OpCode::Asl, AddressingMode::Accumulator, 2usize)),
        0x06u8 => Some((OpCode::Asl, AddressingMode::ZeroPage, 5usize)),
        0x16u8 => Some((OpCode::Asl, AddressingMode::ZeroPageX, 6usize)),
        0x0eu8 => Some((OpCode::Asl, AddressingMode::Absolute, 6usize)),
        0x1eu8 => Some((OpCode::Asl, AddressingMode::AbsoluteX, 7usize)),
        0x90u8 => Some((OpCode::Bcc, AddressingMode::Relative, 2usize)),
        0xb0u8 => Some((OpCode::Bcs, AddressingMode::Relative, 2usize)),
        0xf0u8 => Some((OpCode::Beq, AddressingMode::Relative, 2usize)),
        0x30u8 => Some((OpCode::Bmi, AddressingMode::Relative, 2usize)),
        0xd0u8 => Some((OpCode::Bne, AddressingMode::Relative, 2usize)),
        0x10u8 => Some((OpCode::Bpl, AddressingMode::Relative, 2usize)),
        0x50u8 => Some((OpCode::Bvc, AddressingMode::Relative, 2usize)),
        0x70u8 => Some((OpCode::Bvs, AddressingMode::Relative, 2usize)),
        0x24u8 => Some((OpCode::Bit, AddressingMode::ZeroPage, 3usize)),
        0x2cu8 => Some((OpCode::Bit, AddressingMode::Absolute, 4usize)),
        0x00u8 => Some((OpCode::Brk, AddressingMode::Implied, 7usize)),
        0x18u8 => Some((OpCode::Clc, AddressingMode::Implied, 2usize)),
        0xd8u8 => Some((OpCode::Cld, AddressingMode::Implied, 2usize)),
        0x58u8 => Some((OpCode::Cli, AddressingMode::Implied, 2usize)),
        0xb8u8 => Some((OpCode::Clv, AddressingMode::Implied, 2usize)),
        0xc9u8 => Some((OpCode::Cmp, AddressingMode::Immediate, 2usize)),
        0xc5u8 => Some((OpCode::Cmp, AddressingMode::ZeroPage, 3usize)),
        0xd5u8 => Some((OpCode::Cmp, AddressingMode::ZeroPageX, 4usize)),
        0xcdu8 => Some((OpCode::Cmp, AddressingMode::Absolute, 4usize)),
        0xddu8 => Some((OpCode::Cmp, AddressingMode::AbsoluteX, 4usize)),
        0xd9u8 => Some((OpCode::Cmp, AddressingMode::AbsoluteY, 4usize)),
        0xc1u8 => Some((OpCode::Cmp, AddressingMode::IndirectX, 6usize)),
        0xd1u8 => Some((OpCode::Cmp, AddressingMode::IndirectY, 5usize)),
        0xe0u8 => Some((OpCode::Cpx, AddressingMode::Immediate, 2usize)),
        0xe4u8 => Some((OpCode::Cpx, AddressingMode::ZeroPage, 3usize)),
        0xecu8 => Some((OpCode::Cpx, AddressingMode::Absolute, 4usize)),
        0xc0u8 => Some((OpCode::Cpy, AddressingMode::Immediate, 2usize)),
        0xc4u8 => Some((OpCode::Cpy, AddressingMode::ZeroPage, 3usize)),
        0xccu8 => Some((OpCode::Cpy, AddressingMode::Absolute, 4usize)),
        0xc6u8 => Some((OpCode::Dec, AddressingMode::ZeroPage, 5usize)),
        0xd6u8 => Some((OpCode::Dec, AddressingMode::ZeroPageX, 6usize)),
        0xceu8 => Some((OpCode::Dec, AddressingMode::Absolute, 6usize)),
        0xdeu8 => Some((OpCode::Dec, AddressingMode::AbsoluteX, 7usize)),
        0xcau8 => Some((OpCode::Dex, AddressingMode::Implied, 2usize)),
        0x88u8 => Some((OpCode::Dey, AddressingMode::Implied, 2usize)),
        0x49u8 => Some((OpCode::Eor, AddressingMode::Immediate, 2usize)),
        0x45u8 => Some((OpCode::Eor, AddressingMode::ZeroPage, 3usize)),
        0x55u8 => Some((OpCode::Eor, AddressingMode::ZeroPageX, 4usize)),
        0x4du8 => Some((OpCode::Eor, AddressingMode::Absolute, 4usize)),
        0x5du8 => Some((OpCode::Eor, AddressingMode::AbsoluteX, 4usize)),
        0x59u8 => Some((OpCode::Eor, AddressingMode::AbsoluteY, 4usize)),
        0x41u8 => Some((OpCode::Eor, AddressingMode::IndirectX, 6usize)),
        0x51u8 => Some((OpCode::Eor, AddressingMode::IndirectY, 5usize)),
        0xe6u8 => Some((OpCode::Inc, AddressingMode::ZeroPage, 5usize)),
        0xf6u8 => Some((OpCode::Inc, AddressingMode::ZeroPageX, 6usize)),
        0xeeu8 => Some((OpCode::Inc, AddressingMode::Absolute, 6usize)),
        0xfeu8 => Some((OpCode::Inc, AddressingMode::AbsoluteX, 7usize)),
        0xe8u8 => Some((OpCode::Inx, AddressingMode::Implied, 2usize)),
        0xc8u8 => Some((OpCode::Iny, AddressingMode::Implied, 2usize)),
        0x4cu8 => Some((OpCode::Jmp, AddressingMode::Absolute, 3usize)),
        0x6cu8 => Some((OpCode::Jmp, AddressingMode::Indirect, 5usize)),
        0x20u8 => Some((OpCode::Jsr, AddressingMode::Absolute, 6usize)),
        0xa9u8 => Some((OpCode::Lda, AddressingMode::Immediate, 2usize)),
        0xa5u8 => Some((OpCode::Lda, AddressingMode::ZeroPage, 3usize)),
        0xb5u8 => Some((OpCode::Lda, AddressingMode::ZeroPageX, 4usize)),
        0xadu8 => Some((OpCode::Lda, AddressingMode::Absolute, 4usize)),
        0xbdu8 => Some((OpCode::Lda, AddressingMode::AbsoluteX, 4usize)),
        0xb9u8 => Some((OpCode::Lda, AddressingMode::AbsoluteY, 4usize)),
        0xa1u8 => Some((OpCode::Lda, AddressingMode::IndirectX, 6usize)),
        0xb1u8 => Some((OpCode::Lda, AddressingMode::IndirectY, 5usize)),
        0xa2u8 => Some((OpCode::Ldx, AddressingMode::Immediate, 2usize)),
        0xa6u8 => Some((OpCode::Ldx, AddressingMode::ZeroPage, 3usize)),
        0xb6u8 => Some((OpCode::Ldx, AddressingMode::ZeroPageY, 4usize)),
        0xaeu8 => Some((OpCode::Ldx, AddressingMode::Absolute, 4usize)),
        0xbeu8 => Some((OpCode::Ldx, AddressingMode::AbsoluteY, 4usize)),
        0xa0u8 => Some((OpCode::Ldy, AddressingMode::Immediate, 2usize)),
        0xa4u8 => Some((OpCode::Ldy, AddressingMode::ZeroPage, 3usize)),
        0xb4u8 => Some((OpCode::Ldy, AddressingMode::ZeroPageX, 4usize)),
        0xacu8 => Some((OpCode::Ldy, AddressingMode::Absolute, 4usize)),
        0xbcu8 => Some((OpCode::Ldy, AddressingMode::AbsoluteX, 4usize)),
        0x4au8 => Some((OpCode::Lsr, AddressingMode::Accumulator, 2usize)),
        0x46u8 => Some((OpCode::Lsr, AddressingMode::ZeroPage, 5usize)),
        0x56u8 => Some((OpCode::Lsr, AddressingMode::ZeroPageX, 6usize)),
        0x4eu8 => Some((OpCode::Lsr, AddressingMode::Absolute, 6usize)),
        0x5eu8 => Some((OpCode::Lsr, AddressingMode::AbsoluteX, 7usize)),
        0xeau8 => Some((OpCode::Nop, AddressingMode::Implied, 2usize)),
        0x09u8 => Some((OpCode::Ora, AddressingMode::Immediate, 2usize)),
        0x05u8 => Some((OpCode::Ora, AddressingMode::ZeroPage, 3usize)),
        0x15u8 => Some((OpCode::Ora, AddressingMode::ZeroPageX, 4usize)),
        0x0du8 => Some((OpCode::Ora, AddressingMode::Absolute, 4usize)),
        0x1du8 => Some((OpCode::Ora, AddressingMode::AbsoluteX, 4usize)),
        0x19u8 => Some((OpCode::Ora, AddressingMode::AbsoluteY, 4usize)),
        0x01u8 => Some((OpCode::Ora, AddressingMode::IndirectX, 6usize)),
        0x11u8 => Some((OpCode::Ora, AddressingMode::IndirectY, 5usize)),
        0x48u8 => Some((OpCode::Pha, AddressingMode::Implied, 3usize)),
        0x08u8 => Some((OpCode::Php, AddressingMode::Implied, 3usize)),
        0x68u8 => Some((OpCode::Pla, AddressingMode::Implied, 4usize)),
        0x28u8 => Some((OpCode::Plp, AddressingMode::Implied, 4usize)),
        0x2au8 => Some((OpCode::Rol, AddressingMode::Accumulator, 2usize)),
        0x26u8 => Some((OpCode::Rol, AddressingMode::ZeroPage, 5usize)),
        0x36u8 => Some((OpCode::Rol, AddressingMode::ZeroPageX, 6usize)),
        0x2eu8 => Some((OpCode::Rol, AddressingMode::Absolute, 6usize)),
        0x3eu8 => Some((OpCode::Rol, AddressingMode::AbsoluteX, 7usize)),
        0x6au8 => Some((OpCode::Ror, AddressingMode::Accumulator, 2usize)),
        0x66u8 => Some((OpCode::Ror, AddressingMode::ZeroPage, 5usize)),
        0x76u8 => Some((OpCode::Ror, AddressingMode::ZeroPageX, 6usize)),
        0x6eu8 => Some((OpCode::Ror, AddressingMode::Absolute, 6usize)),
        0x7eu8 => Some((OpCode::Ror, AddressingMode::AbsoluteX, 7usize)),
        0x40u8 => Some((OpCode::Rti, AddressingMode::Implied, 6usize)),
        0x60u8 => Some((OpCode::Rts, AddressingMode::Implied, 6usize)),
        0xe9u8 => Some((OpCode::Sbc, AddressingMode::Immediate, 2usize)),
        0xe5u8 => Some((OpCode::Sbc, AddressingMode::ZeroPage, 3usize)),
        0xf5u8 => Some((OpCode::Sbc, AddressingMode::ZeroPageX, 4usize)),
        0xedu8 => Some((OpCode::Sbc, AddressingMode::Absolute, 4usize)),
        0xfdu8 => Some((OpCode::Sbc, AddressingMode::AbsoluteX, 4usize)),
        0xf9u8 => Some((OpCode::Sbc, AddressingMode::AbsoluteY, 4usize)),
        0xe1u8 => Some((OpCode::Sbc, AddressingMode::IndirectX, 6usize)),
        0xf1u8 => Some((OpCode::Sbc, AddressingMode::IndirectY, 5usize)),
        0x38u8 => Some((OpCode::Sec, AddressingMode::Implied, 2usize)),
        0xf8u8 => Some((OpCode::Sed, AddressingMode::Implied, 2usize)),
        0x78u8 => Some((OpCode::Sei, AddressingMode::Implied, 2usize)),
        0x85u8 => Some((OpCode::Sta, AddressingMode::ZeroPage, 3usize)),
        0x95u8 => Some((OpCode::Sta, AddressingMode::ZeroPageX, 4usize)),
        0x8du8 => Some((OpCode::Sta, AddressingMode::Absolute, 4usize)),
        0x9du8 => Some((OpCode::Sta, AddressingMode::AbsoluteX, 5usize)),
        0x99u8 => Some((OpCode::Sta, AddressingMode::AbsoluteY, 5usize)),
        0x81u8 => Some((OpCode::Sta, AddressingMode::IndirectX, 6usize)),
        0x91u8 => Some((OpCode::Sta, AddressingMode::IndirectY, 6usize)),
        0x86u8 => Some((OpCode::Stx, AddressingMode::ZeroPage, 3usize)),
        0x96u8 => Some((OpCode::Stx, AddressingMode::ZeroPageY, 4usize)),
        0x8eu8 => Some((OpCode::Stx, AddressingMode::Absolute, 4usize)),
        0x84u8 => Some((OpCode::Sty, AddressingMode::ZeroPage, 3usize)),
        0x94u8 => Some((OpCode::Sty, AddressingMode::ZeroPageX, 4usize)),
        0x8cu8 => Some((OpCode::Sty, AddressingMode::Absolute, 4usize)),
        0xaau8 => Some((OpCode::Tax, AddressingMode::Implied, 2usize)),
        0xa8u8 => Some((OpCode::Tay, AddressingMode::Implied, 2usize)),
        0xbau8 => Some((OpCode::Tsx, AddressingMode::Implied, 2usize)),
        0x8au8 => Some((OpCode::Txa, AddressingMode::Implied, 2usize)),
        0x9au8 => Some((OpCode::Txs, AddressingMode::Implied, 2usize)),
        0x98u8 => Some((OpCode::Tya, AddressingMode::Implied, 2usize)),
        _ => None,
    }
}

/// Looks an opcode byte up in the instruction set.
pub fn lookup_opcode(b: u8) -> (r: Option<(OpCode, AddressingMode, usize)>)
    ensures
        r == opcode_table(b),
        r matches Some(e) ==> 2 <= e.2 <= 7,
{
    match b {
        0x69 => Some((OpCode::Adc, AddressingMode::Immediate, 2)),
        0x65 => Some((OpCode::Adc, AddressingMode::ZeroPage, 3)),
        0x75 => Some((OpCode::Adc, AddressingMode::ZeroPageX, 4)),
        0x6d => Some((OpCode::Adc, AddressingMode::Absolute, 4)),
        0x7d => Some((OpCode::Adc, AddressingMode::AbsoluteX, 4)),
        0x79 => Some((OpCode::Adc, AddressingMode::AbsoluteY, 4)),
        0x61 => Some((OpCode::Adc, AddressingMode::IndirectX, 6)),
        0x71 => Some((OpCode::Adc, AddressingMode::IndirectY, 5)),
        0x29 => Some((OpCode::And, AddressingMode::Immediate, 2)),
        0x25 => Some((OpCode::And, AddressingMode::ZeroPage, 3)),
        0x35 => Some((OpCode::And, AddressingMode::ZeroPageX, 4)),
        0x2d => Some((OpCode::And, AddressingMode::Absolute, 4)),
        0x3d => Some((OpCode::And, AddressingMode::AbsoluteX, 4)),
        0x39 => Some((OpCode::And, AddressingMode::AbsoluteY, 4)),
        0x21 => Some((OpCode::And, AddressingMode::IndirectX, 6)),
        0x31 => Some((OpCode::And, AddressingMode::IndirectY, 5)),
        0x0a => Some((OpCode::Asl, AddressingMode::Accumulator, 2)),
        0x06 => Some((OpCode::Asl, AddressingMode::ZeroPage, 5)),
        0x16 => Some((OpCode::Asl, AddressingMode::ZeroPageX, 6)),
        0x0e => Some((OpCode::Asl, AddressingMode::Absolute, 6)),
        0x1e => Some((OpCode::Asl, AddressingMode::AbsoluteX, 7)),
        0x90 => Some((OpCode::Bcc, AddressingMode::Relative, 2)),
        0xb0 => Some((OpCode::Bcs, AddressingMode::Relative, 2)),
        0xf0 => Some((OpCode::Beq, AddressingMode::Relative, 2)),
        0x30 => Some((OpCode::Bmi, AddressingMode::Relative, 2)),
        0xd0 => Some((OpCode::Bne, AddressingMode::Relative, 2)),
        0x10 => Some((OpCode::Bpl, AddressingMode::Relative, 2)),
        0x50 => Some((OpCode::Bvc, AddressingMode::Relative, 2)),
        0x70 => Some((OpCode::Bvs, AddressingMode::Relative, 2)),
        0x24 => Some((OpCode::Bit, AddressingMode::ZeroPage, 3)),
        0x2c => Some((OpCode::Bit, AddressingMode::Absolute, 4)),
        0x00 => Some((OpCode::Brk, AddressingMode::Implied, 7)),
        0x18 => Some((OpCode::Clc, AddressingMode::Implied, 2)),
        0xd8 => Some((OpCode::Cld, AddressingMode::Implied, 2)),
        0x58 => Some((OpCode::Cli, AddressingMode::Implied, 2)),
        0xb8 => Some((OpCode::Clv, AddressingMode::Implied, 2)),
        0xc9 => Some((OpCode::Cmp, AddressingMode::Immediate, 2)),
        0xc5 => Some((OpCode::Cmp, AddressingMode::ZeroPage, 3)),
        0xd5 => Some((OpCode::Cmp, AddressingMode::ZeroPageX, 4)),
        0xcd => Some((OpCode::Cmp, AddressingMode::Absolute, 4)),
        0xdd => Some((OpCode::Cmp, AddressingMode::AbsoluteX, 4)),
        0xd9 => Some((OpCode::Cmp, AddressingMode::AbsoluteY, 4)),
        0xc1 => Some((OpCode::Cmp, AddressingMode::IndirectX, 6)),
        0xd1 => Some((OpCode::Cmp, AddressingMode::IndirectY, 5)),
        0xe0 => Some((OpCode::Cpx, AddressingMode::Immediate, 2)),
        0xe4 => Some((OpCode::Cpx, AddressingMode::ZeroPage, 3)),
        0xec => Some((OpCode::Cpx, AddressingMode::Absolute, 4)),
        0xc0 => Some((OpCode::Cpy, AddressingMode::Immediate, 2)),
        0xc4 => Some((OpCode::Cpy, AddressingMode::ZeroPage, 3)),
        0xcc => Some((OpCode::Cpy, AddressingMode::Absolute, 4)),
        0xc6 => Some((OpCode::Dec, AddressingMode::ZeroPage, 5)),
        0xd6 => Some((OpCode::Dec, AddressingMode::ZeroPageX, 6)),
        0xce => Some((OpCode::Dec, AddressingMode::Absolute, 6)),
        0xde => Some((OpCode::Dec, AddressingMode::AbsoluteX, 7)),
        0xca => Some((OpCode::Dex, AddressingMode::Implied, 2)),
        0x88 => Some((OpCode::Dey, AddressingMode::Implied, 2)),
        0x49 => Some((OpCode::Eor, AddressingMode::Immediate, 2)),
        0x45 => Some((OpCode::Eor, AddressingMode::ZeroPage, 3)),
        0x55 => Some((OpCode::Eor, AddressingMode::ZeroPageX, 4)),
        0x4d => Some((OpCode::Eor, AddressingMode::Absolute, 4)),
        0x5d => Some((OpCode::Eor, AddressingMode::AbsoluteX, 4)),
        0x59 => Some((OpCode::Eor, AddressingMode::AbsoluteY, 4)),
        0x41 => Some((OpCode::Eor, AddressingMode::IndirectX, 6)),
        0x51 => Some((OpCode::Eor, AddressingMode::IndirectY, 5)),
        0xe6 => Some((OpCode::Inc, AddressingMode::ZeroPage, 5)),
        0xf6 => Some((OpCode::Inc, AddressingMode::ZeroPageX, 6)),
        0xee => Some((OpCode::Inc, AddressingMode::Absolute, 6)),
        0xfe => Some((OpCode::Inc, AddressingMode::AbsoluteX, 7)),
        0xe8 => Some((OpCode::Inx, AddressingMode::Implied, 2)),
        0xc8 => Some((OpCode::Iny, AddressingMode::Implied, 2)),
        0x4c => Some((OpCode::Jmp, AddressingMode::Absolute, 3)),
        0x6c => Some((OpCode::Jmp, AddressingMode::Indirect, 5)),
        0x20 => Some((OpCode::Jsr, AddressingMode::Absolute, 6)),
        0xa9 => Some((OpCode::Lda, AddressingMode::Immediate, 2)),
        0xa5 => Some((OpCode::Lda, AddressingMode::ZeroPage, 3)),
        0xb5 => Some((OpCode::Lda, AddressingMode::ZeroPageX, 4)),
        0xad => Some((OpCode::Lda, AddressingMode::Absolute, 4)),
        0xbd => Some((OpCode::Lda, AddressingMode::AbsoluteX, 4)),
        0xb9 => Some((OpCode::Lda, AddressingMode::AbsoluteY, 4)),
        0xa1 => Some((OpCode::Lda, AddressingMode::IndirectX, 6)),
        0xb1 => Some((OpCode::Lda, AddressingMode::IndirectY, 5)),
        0xa2 => Some((OpCode::Ldx, AddressingMode::Immediate, 2)),
        0xa6 => Some((OpCode::Ldx, AddressingMode::ZeroPage, 3)),
        0xb6 => Some((OpCode::Ldx, AddressingMode::ZeroPageY, 4)),
        0xae => Some((OpCode::Ldx, AddressingMode::Absolute, 4)),
        0xbe => Some((OpCode::Ldx, AddressingMode::AbsoluteY, 4)),
        0xa0 => Some((OpCode::Ldy, AddressingMode::Immediate, 2)),
        0xa4 => Some((OpCode::Ldy, AddressingMode::ZeroPage, 3)),
        0xb4 => Some((OpCode::Ldy, AddressingMode::ZeroPageX, 4)),
        0xac => Some((OpCode::Ldy, AddressingMode::Absolute, 4)),
        0xbc => Some((OpCode::Ldy, AddressingMode::AbsoluteX, 4)),
        0x4a => Some((OpCode::Lsr, AddressingMode::Accumulator, 2)),
        0x46 => Some((OpCode::Lsr, AddressingMode::ZeroPage, 5)),
        0x56 => Some((OpCode::Lsr, AddressingMode::ZeroPageX, 6)),
        0x4e => Some((OpCode::Lsr, AddressingMode::Absolute, 6)),
        0x5e => Some((OpCode::Lsr, AddressingMode::AbsoluteX, 7)),
        0xea => Some((OpCode::Nop, AddressingMode::Implied, 2)),
        0x09 => Some((OpCode::Ora, AddressingMode::Immediate, 2)),
        0x05 => Some((OpCode::Ora, AddressingMode::ZeroPage, 3)),
        0x15 => Some((OpCode::Ora, AddressingMode::ZeroPageX, 4)),
        0x0d => Some((OpCode::Ora, AddressingMode::Absolute, 4)),
        0x1d => Some((OpCode::Ora, AddressingMode::AbsoluteX, 4)),
        0x19 => Some((OpCode::Ora, AddressingMode::AbsoluteY, 4)),
        0x01 => Some((OpCode::Ora, AddressingMode::IndirectX, 6)),
        0x11 => Some((OpCode::Ora, AddressingMode::IndirectY, 5)),
        0x48 => Some((OpCode::Pha, AddressingMode::Implied, 3)),
        0x08 => Some((OpCode::Php, AddressingMode::Implied, 3)),
        0x68 => Some((OpCode::Pla, AddressingMode::Implied, 4)),
        0x28 => Some((OpCode::Plp, AddressingMode::Implied, 4)),
        0x2a => Some((OpCode::Rol, AddressingMode::Accumulator, 2)),
        0x26 => Some((OpCode::Rol, AddressingMode::ZeroPage, 5)),
        0x36 => Some((OpCode::Rol, AddressingMode::ZeroPageX, 6)),
        0x2e => Some((OpCode::Rol, AddressingMode::Absolute, 6)),
        0x3e => Some((OpCode::Rol, AddressingMode::AbsoluteX, 7)),
        0x6a => Some((OpCode::Ror, AddressingMode::Accumulator, 2)),
        0x66 => Some((OpCode::Ror, AddressingMode::ZeroPage, 5)),
        0x76 => Some((OpCode::Ror, AddressingMode::ZeroPageX, 6)),
        0x6e => Some((OpCode::Ror, AddressingMode::Absolute, 6)),
        0x7e => Some((OpCode::Ror, AddressingMode::AbsoluteX, 7)),
        0x40 => Some((OpCode::Rti, AddressingMode::Implied, 6)),
        0x60 => Some((OpCode::Rts, AddressingMode::Implied, 6)),
        0xe9 => Some((OpCode::Sbc, AddressingMode::Immediate, 2)),
        0xe5 => Some((OpCode::Sbc, AddressingMode::ZeroPage, 3)),
        0xf5 => Some((OpCode::Sbc, AddressingMode::ZeroPageX, 4)),
        0xed => Some((OpCode::Sbc, AddressingMode::Absolute, 4)),
        0xfd => Some((OpCode::Sbc, AddressingMode::AbsoluteX, 4)),
        0xf9 => Some((OpCode::Sbc, AddressingMode::AbsoluteY, 4)),
        0xe1 => Some((OpCode::Sbc, AddressingMode::IndirectX, 6)),
        0xf1 => Some((OpCode::Sbc, AddressingMode::IndirectY, 5)),
        0x38 => Some((OpCode::Sec, AddressingMode::Implied, 2)),
        0xf8 => Some((OpCode::Sed, AddressingMode::Implied, 2)),
        0x78 => Some((OpCode::Sei, AddressingMode::Implied, 2)),
        0x85 => Some((OpCode::Sta, AddressingMode::ZeroPage, 3)),
        0x95 => Some((OpCode::Sta, AddressingMode::ZeroPageX, 4)),
        0x8d => Some((OpCode::Sta, AddressingMode::Absolute, 4)),
        0x9d => Some((OpCode::Sta, AddressingMode::AbsoluteX, 5)),
        0x99 => Some((OpCode::Sta, AddressingMode::AbsoluteY, 5)),
        0x81 => Some((OpCode::Sta, AddressingMode::IndirectX, 6)),
        0x91 => Some((OpCode::Sta, AddressingMode::IndirectY, 6)),
        0x86 => Some((OpCode::Stx, AddressingMode::ZeroPage, 3)),
        0x96 => Some((OpCode::Stx, AddressingMode::ZeroPageY, 4)),
        0x8e => Some((OpCode::Stx, AddressingMode::Absolute, 4)),
        0x84 => Some((OpCode::Sty, AddressingMode::ZeroPage, 3)),
        0x94 => Some((OpCode::Sty, AddressingMode::ZeroPageX, 4)),
        0x8c => Some((OpCode::Sty, AddressingMode::Absolute, 4)),
        0xaa => Some((OpCode::Tax, AddressingMode::Implied, 2)),
        0xa8 => Some((OpCode::Tay, AddressingMode::Implied, 2)),
        0xba => Some((OpCode::Tsx, AddressingMode::Implied, 2)),
        0x8a => Some((OpCode::Txa, AddressingMode::Implied, 2)),
        0x9a => Some((OpCode::Txs, AddressingMode::Implied, 2)),
        0x98 => Some((OpCode::Tya, AddressingMode::Implied, 2)),
        _ => None,
    }
}

/// How many operand bytes follow an opcode whose operand is of this kind.
pub open spec fn operand_len(m: AddressingMode) -> nat {
    match m {
        AddressingMode::Implied | AddressingMode::Accumulator => 0,
        AddressingMode::Absolute
        | AddressingMode::AbsoluteX
        | AddressingMode::AbsoluteY
        | AddressingMode::Indirect => 2,
        _ => 1,
    }
}

/// A byte read as a two's complement number.
pub open spec fn signed_byte(b: u8) -> i8 {
    if b < 128 {
        b as i8
    } else {
        (b - 256) as i8
    }
}

/// The byte that holds a two's complement number.
pub open spec fn byte_of_signed(o: i8) -> u8 {
    if o >= 0 {
        o as u8
    } else {
        (o + 256) as u8
    }
}

/// The little-endian word of two bytes.
pub open spec fn word(lo: u8, hi: u8) -> u16 {
    (lo + hi * 256) as u16
}

/// The operand of the given kind, made of the bytes after the opcode.
pub open spec fn addressing_of(m: AddressingMode, lo: u8, hi: u8) -> Addressing {
    match m {
        AddressingMode::Implied => Addressing::Implied,
        AddressingMode::Accumulator => Addressing::Accumulator,
        AddressingMode::Immediate => Addressing::Immediate(lo),
        AddressingMode::Relative => Addressing::Relative(signed_byte(lo)),
        AddressingMode::ZeroPage => Addressing::ZeroPage(lo),
        AddressingMode::ZeroPageX => Addressing::ZeroPageX(lo),
        AddressingMode::ZeroPageY => Addressing::ZeroPageY(lo),
        AddressingMode::Absolute => Addressing::Absolute(word(lo, hi)),
        AddressingMode::AbsoluteX => Addressing::AbsoluteX(word(lo, hi)),
        AddressingMode::AbsoluteY => Addressing::AbsoluteY(word(lo, hi)),
        AddressingMode::Indirect => Addressing::Indirect(word(lo, hi)),
        AddressingMode::IndirectX => Addressing::IndirectX(lo),
        AddressingMode::IndirectY => Addressing::IndirectY(lo),
    }
}

/// The kind of an operand.
pub open spec fn mode_of(a: Addressing) -> AddressingMode {
    match a {
        Addressing::Implied => AddressingMode::Implied,
        Addressing::Accumulator => AddressingMode::Accumulator,
        Addressing::Immediate(_) => AddressingMode::Immediate,
        Addressing::Relative(_) => AddressingMode::Relative,
        Addressing::ZeroPage(_) => AddressingMode::ZeroPage,
        Addressing::ZeroPageX(_) => AddressingMode::ZeroPageX,
        Addressing::ZeroPageY(_) => AddressingMode::ZeroPageY,
        Addressing::Absolute(_) => AddressingMode::Absolute,
        Addressing::AbsoluteX(_) => AddressingMode::AbsoluteX,
        Addressing::AbsoluteY(_) => AddressingMode::AbsoluteY,
        Addressing::Indirect(_) => AddressingMode::Indirect,
        Addressing::IndirectX(_) => AddressingMode::IndirectX,
        Addressing::IndirectY(_) => AddressingMode::IndirectY,
    }
}

/// The bytes that encode an operand after the opcode.
pub open spec fn operand_bytes(a: Addressing) -> Seq<u8> {
    match a {
        Addressing::Implied | Addressing::Accumulator => seq![],
        Addressing::Immediate(v) => seq![v],
        Addressing::Relative(o) => seq![byte_of_signed(o)],
        Addressing::ZeroPage(z) | Addressing::ZeroPageX(z) | Addressing::ZeroPageY(z)
        | Addressing::IndirectX(z) | Addressing::IndirectY(z) => seq![z],
        Addressing::Absolute(w) | Addressing::AbsoluteX(w) | Addressing::AbsoluteY(w)
        | Addressing::Indirect(w) => seq![(w % 256) as u8, (w / 256) as u8],
    }
}

/// The encoding of an instruction: its opcode byte, then its operand.
pub open spec fn encode(opcode: u8, a: Addressing) -> Seq<u8> {
    seq![opcode] + operand_bytes(a)
}

/// The byte at `i`, or zero past the end.
pub open spec fn byte_at(mem: Seq<u8>, i: int) -> u8 {
    if 0 <= i < mem.len() {
        mem[i]
    } else {
        0
    }
}

/// The instruction encoded at the start of `mem`, with its length in bytes.
pub open spec fn spec_decode(mem: Seq<u8>) -> Option<(usize, Instruction)> {
    if mem.len() == 0 {
        None
    } else {
        match opcode_table(mem[0]) {
            None => None,
            Some((op, m, cycles)) => if mem.len() < 1 + operand_len(m) {
                None
            } else {
                Some(
                    (
                        (1 + operand_len(m)) as usize,
                        Instruction(op, addressing_of(m, byte_at(mem, 1), byte_at(mem, 2)), cycles),
                    ),
                )
            },
        }
    }
}

/// Decodes the instruction at the start of `mem`, giving its length in bytes.
pub fn decode_instruction(mem: &[u8]) -> (r: Result<(usize, Instruction), InstructionDecodeError>)
    ensures
        match r {
            Ok(d) => spec_decode(mem@) == Some(d) && 2 <= d.1.2 <= 7,
            Err(_) => spec_decode(mem@) is None,
        },
{
    if mem.len() == 0 {
        return Err(InstructionDecodeError);
    }
    let (op, m, cycles) = match lookup_opcode(mem[0]) {
        Some(entry) => entry,
        None => return Err(InstructionDecodeError),
    };
    let n: usize = match m {
        AddressingMode::Implied | AddressingMode::Accumulator => 0,
        AddressingMode::Absolute
        | AddressingMode::AbsoluteX
        | AddressingMode::AbsoluteY
        | AddressingMode::Indirect => 2,
        _ => 1,
    };
    if mem.len() < 1 + n {
        return Err(InstructionDecodeError);
    }
    let lo: u8 = if mem.len() > 1 { mem[1] } else { 0 };
    let hi: u8 = if mem.len() > 2 { mem[2] } else { 0 };
    let w: u16 = lo as u16 + (hi as u16) * 256;
    let a = match m {
        AddressingMode::Implied => Addressing::Implied,
        AddressingMode::Accumulator => Addressing::Accumulator,
        AddressingMode::Immediate => Addressing::Immediate(lo),
        AddressingMode::Relative => Addressing::Relative(
            if lo < 128 {
                lo as i8
            } else {
                (lo as i16 - 256) as i8
            },
        ),
        AddressingMode::ZeroPage => Addressing::ZeroPage(lo),
        AddressingMode::ZeroPageX => Addressing::ZeroPageX(lo),
        AddressingMode::ZeroPageY => Addressing::ZeroPageY(lo),
        AddressingMode::Absolute => Addressing::Absolute(w),
        AddressingMode::AbsoluteX => Addressing::AbsoluteX(w),
        AddressingMode::AbsoluteY => Addressing::AbsoluteY(w),
        AddressingMode::Indirect => Addressing::Indirect(w),
        AddressingMode::IndirectX => Addressing::IndirectX(lo),
        AddressingMode::IndirectY => Addressing::IndirectY(lo),
    };
    Ok((1 + n, Instruction(op, a, cycles)))
}

/// Decoding the encoding of any instruction of the documented set gives the
/// instruction back, with the length of its encoding.
pub proof fn lemma_decode_encode(opcode: u8, a: Addressing)
    requires
        opcode_table(opcode) is Some,
        mode_of(a) == opcode_table(opcode).unwrap().1,
    ensures
        spec_decode(encode(opcode, a)) == Some(
            (
                encode(opcode, a).len() as usize,
                Instruction(opcode_table(opcode).unwrap().0, a, opcode_table(opcode).unwrap().2),
            ),
        ),
{
    let e = encode(opcode, a);
    assert(e[0] == opcode);
    match a {
        Addressing::Relative(o) => {
            assert(signed_byte(byte_of_signed(o)) == o);
        },
        Addressing::Absolute(w) | Addressing::AbsoluteX(w) | Addressing::AbsoluteY(w)
        | Addressing::Indirect(w) => {
            assert(word((w % 256) as u8, (w / 256) as u8) == w);
        },
        _ => {},
    }
}


/// The opcode byte of an operation with an operand of the given kind, in the
/// instruction set.
pub open spec fn opcode_of(op: OpCode, m: AddressingMode) -> Option<u8> {
    match (op, m) {
        (OpCode::Adc, AddressingMode::Immediate) => Some(0x69u8),
        (OpCode::Adc, AddressingMode::ZeroPage) => Some(0x65u8),
        (OpCode::Adc, AddressingMode::ZeroPageX) => Some(0x75u8),
        (OpCode::Adc, AddressingMode::Absolute) => Some(0x6du8),
        (OpCode::Adc, AddressingMode::AbsoluteX) => Some(0x7du8),
        (OpCode::Adc, AddressingMode::AbsoluteY) => Some(0x79u8),
        (OpCode::Adc, AddressingMode::IndirectX) => Some(0x61u8),
        (OpCode::Adc, AddressingMode::IndirectY) => Some(0x71u8),
        (OpCode::And, AddressingMode::Immediate) => Some(0x29u8),
        (OpCode::And, AddressingMode::ZeroPage) => Some(0x25u8),
        (OpCode::And, AddressingMode::ZeroPageX) => Some(0x35u8),
        (OpCode::And, AddressingMode::Absolute) => Some(0x2du8),
        (OpCode::And, AddressingMode::AbsoluteX) => Some(0x3du8),
        (OpCode::And, AddressingMode::AbsoluteY) => Some(0x39u8),
        (OpCode::And, AddressingMode::IndirectX) => Some(0x21u8),
        (OpCode::And, AddressingMode::IndirectY) => Some(0x31u8),
        (OpCode::Asl, AddressingMode::Accumulator) => Some(0x0au8),
        (OpCode::Asl, AddressingMode::ZeroPage) => Some(0x06u8),
        (OpCode::Asl, AddressingMode::ZeroPageX) => Some(0x16u8),
        (OpCode::Asl, AddressingMode::Absolute) => Some(0x0eu8),
        (OpCode::Asl, AddressingMode::AbsoluteX) => Some(0x1eu8),
        (OpCode::Bcc, AddressingMode::Relative) => Some(0x90u8),
        (OpCode::Bcs, AddressingMode::Relative) => Some(0xb0u8),
        (OpCode::Beq, AddressingMode::Relative) => Some(0xf0u8),
        (OpCode::Bmi, AddressingMode::Relative) => Some(0x30u8),
        (OpCode::Bne, AddressingMode::Relative) => Some(0xd0u8),
        (OpCode::Bpl, AddressingMode::Relative) => Some(0x10u8),
        (OpCode::Bvc, AddressingMode::Relative) => Some(0x50u8),
        (OpCode::Bvs, AddressingMode::Relative) => Some(0x70u8),
        (OpCode::Bit, AddressingMode::ZeroPage) => Some(0x24u8),
        (OpCode::Bit, AddressingMode::Absolute) => Some(0x2cu8),
        (OpCode::Brk, AddressingMode::Implied) => Some(0x00u8),
        (OpCode::Clc, AddressingMode::Implied) => Some(0x18u8),
        (OpCode::Cld, AddressingMode::Implied) => Some(0xd8u8),
        (OpCode::Cli, AddressingMode::Implied) => Some(0x58u8),
        (OpCode::Clv, AddressingMode::Implied) => Some(0xb8u8),
        (OpCode::Cmp, AddressingMode::Immediate) => Some(0xc9u8),
        (OpCode::Cmp, AddressingMode::ZeroPage) => Some(0xc5u8),
        (OpCode::Cmp, AddressingMode::ZeroPageX) => Some(0xd5u8),
        (OpCode::Cmp, AddressingMode::Absolute) => Some(0xcdu8),
        (OpCode::Cmp, AddressingMode::AbsoluteX) => Some(0xddu8),
        (OpCode::Cmp, AddressingMode::AbsoluteY) => Some(0xd9u8),
        (OpCode::Cmp, AddressingMode::IndirectX) => Some(0xc1u8),
        (OpCode::Cmp, AddressingMode::IndirectY) => Some(0xd1u8),
        (OpCode::Cpx, AddressingMode::Immediate) => Some(0xe0u8),
        (OpCode::Cpx, AddressingMode::ZeroPage) => Some(0xe4u8),
        (OpCode::Cpx, AddressingMode::Absolute) => Some(0xecu8),
        (OpCode::Cpy, AddressingMode::Immediate) => Some(0xc0u8),
        (OpCode::Cpy, AddressingMode::ZeroPage) => Some(0xc4u8),
        (OpCode::Cpy, AddressingMode::Absolute) => Some(0xccu8),
        (OpCode::Dec, AddressingMode::ZeroPage) => Some(0xc6u8),
        (OpCode::Dec, AddressingMode::ZeroPageX) => Some(0xd6u8),
        (OpCode::Dec, AddressingMode::Absolute) => Some(0xceu8),
        (OpCode::Dec, AddressingMode::AbsoluteX) => Some(0xdeu8),
        (OpCode::Dex, AddressingMode::Implied) => Some(0xcau8),
        (OpCode::Dey, AddressingMode::Implied) => Some(0x88u8),
        (OpCode::Eor, AddressingMode::Immediate) => Some(0x49u8),
        (OpCode::Eor, AddressingMode::ZeroPage) => Some(0x45u8),
        (OpCode::Eor, AddressingMode::ZeroPageX) => Some(0x55u8),
        (OpCode::Eor, AddressingMode::Absolute) => Some(0x4du8),
        (OpCode::Eor, AddressingMode::AbsoluteX) => Some(0x5du8),
        (OpCode::Eor, AddressingMode::AbsoluteY) => Some(0x59u8),
        (OpCode::Eor, AddressingMode::IndirectX) => Some(0x41u8),
        (OpCode::Eor, AddressingMode::IndirectY) => Some(0x51u8),
        (OpCode::Inc, AddressingMode::ZeroPage) => Some(0xe6u8),
        (OpCode::Inc, AddressingMode::ZeroPageX) => Some(0xf6u8),
        (OpCode::Inc, AddressingMode::Absolute) => Some(0xeeu8),
        (OpCode::Inc, AddressingMode::AbsoluteX) => Some(0xfeu8),
        (OpCode::Inx, AddressingMode::Implied) => Some(0xe8u8),
        (OpCode::Iny, AddressingMode::Implied) => Some(0xc8u8),
        (OpCode::Jmp, AddressingMode::Absolute) => Some(0x4cu8),
        (OpCode::Jmp, AddressingMode::Indirect) => Some(0x6cu8),
        (OpCode::Jsr, AddressingMode::Absolute) => Some(0x20u8),
        (OpCode::Lda, AddressingMode::Immediate) => Some(0xa9u8),
        (OpCode::Lda, AddressingMode::ZeroPage) => Some(0xa5u8),
        (OpCode::Lda, AddressingMode::ZeroPageX) => Some(0xb5u8),
        (OpCode::Lda, AddressingMode::Absolute) => Some(0xadu8),
        (OpCode::Lda, AddressingMode::AbsoluteX) => Some(0xbdu8),
        (OpCode::Lda, AddressingMode::AbsoluteY) => Some(0xb9u8),
        (OpCode::Lda, AddressingMode::IndirectX) => Some(0xa1u8),
        (OpCode::Lda, AddressingMode::IndirectY) => Some(0xb1u8),
        (OpCode::Ldx, AddressingMode::Immediate) => Some(0xa2u8),
        (OpCode::Ldx, AddressingMode::ZeroPage) => Some(0xa6u8),
        (OpCode::Ldx, AddressingMode::ZeroPageY) => Some(0xb6u8),
        (OpCode::Ldx, AddressingMode::Absolute) => Some(0xaeu8),
        (OpCode::Ldx, AddressingMode::AbsoluteY) => Some(0xbeu8),
        (OpCode::Ldy, AddressingMode::Immediate) => Some(0xa0u8),
        (OpCode::Ldy, AddressingMode::ZeroPage) => Some(0xa4u8),
        (OpCode::Ldy, AddressingMode::ZeroPageX) => Some(0xb4u8),
        (OpCode::Ldy, AddressingMode::Absolute) => Some(0xacu8),
        (OpCode::Ldy, AddressingMode::AbsoluteX) => Some(0xbcu8),
        (OpCode::Lsr, AddressingMode::Accumulator) => Some(0x4au8),
        (OpCode::Lsr, AddressingMode::ZeroPage) => Some(0x46u8),
        (OpCode::Lsr, AddressingMode::ZeroPageX) => Some(0x56u8),
        (OpCode::Lsr, AddressingMode::Absolute) => Some(0x4eu8),
        (OpCode::Lsr, AddressingMode::AbsoluteX) => Some(0x5eu8),
        (OpCode::Nop, AddressingMode::Implied) => Some(0xeau8),
        (OpCode::Ora, AddressingMode::Immediate) => Some(0x09u8),
        (OpCode::Ora, AddressingMode::ZeroPage) => Some(0x05u8),
        (OpCode::Ora, AddressingMode::ZeroPageX) => Some(0x15u8),
        (OpCode::Ora, AddressingMode::Absolute) => Some(0x0du8),
        (OpCode::Ora, AddressingMode::AbsoluteX) => Some(0x1du8),
        (OpCode::Ora, AddressingMode::AbsoluteY) => Some(0x19u8),
        (OpCode::Ora, AddressingMode::IndirectX) => Some(0x01u8),
        (OpCode::Ora, AddressingMode::IndirectY) => Some(0x11u8),
        (OpCode::Pha, AddressingMode::Implied) => Some(0x48u8),
        (OpCode::Php, AddressingMode::Implied) => Some(0x08u8),
        (OpCode::Pla, AddressingMode::Implied) => Some(0x68u8),
        (OpCode::Plp, AddressingMode::Implied) => Some(0x28u8),
        (OpCode::Rol, AddressingMode::Accumulator) => Some(0x2au8),
        (OpCode::Rol, AddressingMode::ZeroPage) => Some(0x26u8),
        (OpCode::Rol, AddressingMode::ZeroPageX) => Some(0x36u8),
        (OpCode::Rol, AddressingMode::Absolute) => Some(0x2eu8),
        (OpCode::Rol, AddressingMode::AbsoluteX) => Some(0x3eu8),
        (OpCode::Ror, AddressingMode::Accumulator) => Some(0x6au8),
        (OpCode::Ror, AddressingMode::ZeroPage) => Some(0x66u8),
        (OpCode::Ror, AddressingMode::ZeroPageX) => Some(0x76u8),
        (OpCode::Ror, AddressingMode::Absolute) => Some(0x6eu8),
        (OpCode::Ror, AddressingMode::AbsoluteX) => Some(0x7eu8),
        (OpCode::Rti, AddressingMode::Implied) => Some(0x40u8),
        (OpCode::Rts, AddressingMode::Implied) => Some(0x60u8),
        (OpCode::Sbc, AddressingMode::Immediate) => Some(0xe9u8),
        (OpCode::Sbc, AddressingMode::ZeroPage) => Some(0xe5u8),
        (OpCode::Sbc, AddressingMode::ZeroPageX) => Some(0xf5u8),
        (OpCode::Sbc, AddressingMode::Absolute) => Some(0xedu8),
        (OpCode::Sbc, AddressingMode::AbsoluteX) => Some(0xfdu8),
        (OpCode::Sbc, AddressingMode::AbsoluteY) => Some(0xf9u8),
        (OpCode::Sbc, AddressingMode::IndirectX) => Some(0xe1u8),
        (OpCode::Sbc, AddressingMode::IndirectY) => Some(0xf1u8),
        (OpCode::Sec, AddressingMode::Implied) => Some(0x38u8),
        (OpCode::Sed, AddressingMode::Implied) => Some(0xf8u8),
        (OpCode::Sei, AddressingMode::Implied) => Some(0x78u8),
        (OpCode::Sta, AddressingMode::ZeroPage) => Some(0x85u8),
        (OpCode::Sta, AddressingMode::ZeroPageX) => Some(0x95u8),
        (OpCode::Sta, AddressingMode::Absolute) => Some(0x8du8),
        (OpCode::Sta, AddressingMode::AbsoluteX) => Some(0x9du8),
        (OpCode::Sta, AddressingMode::AbsoluteY) => Some(0x99u8),
        (OpCode::Sta, AddressingMode::IndirectX) => Some(0x81u8),
        (OpCode::Sta, AddressingMode::IndirectY) => Some(0x91u8),
        (OpCode::Stx, AddressingMode::ZeroPage) => Some(0x86u8),
        (OpCode::Stx, AddressingMode::ZeroPageY) => Some(0x96u8),
        (OpCode::Stx, AddressingMode::Absolute) => Some(0x8eu8),
        (OpCode::Sty, AddressingMode::ZeroPage) => Some(0x84u8),
        (OpCode::Sty, AddressingMode::ZeroPageX) => Some(0x94u8),
        (OpCode::Sty, AddressingMode::Absolute) => Some(0x8cu8),
        (OpCode::Tax, AddressingMode::Implied) => Some(0xaau8),
        (OpCode::Tay, AddressingMode::Implied) => Some(0xa8u8),
        (OpCode::Tsx, AddressingMode::Implied) => Some(0xbau8),
        (OpCode::Txa, AddressingMode::Implied) => Some(0x8au8),
        (OpCode::Txs, AddressingMode::Implied) => Some(0x9au8),
        (OpCode::Tya, AddressingMode::Implied) => Some(0x98u8),
        _ => None,
    }
}

/// The opcode byte of an operation with an operand of the given kind, if the
/// instruction set has one.
pub fn opcode_for(op: OpCode, m: AddressingMode) -> (r: Option<u8>)
    ensures
        r == opcode_of(op, m),
        r matches Some(b) ==> opcode_table(b) matches Some((o, k, _)) && o == op && k == m,
{
    match (op, m) {
        (OpCode::Adc, AddressingMode::Immediate) => Some(0x69),
        (OpCode::Adc, AddressingMode::ZeroPage) => Some(0x65),
        (OpCode::Adc, AddressingMode::ZeroPageX) => Some(0x75),
        (OpCode::Adc, AddressingMode::Absolute) => Some(0x6d),
        (OpCode::Adc, AddressingMode::AbsoluteX) => Some(0x7d),
        (OpCode::Adc, AddressingMode::AbsoluteY) => Some(0x79),
        (OpCode::Adc, AddressingMode::IndirectX) => Some(0x61),
        (OpCode::Adc, AddressingMode::IndirectY) => Some(0x71),
        (OpCode::And, AddressingMode::Immediate) => Some(0x29),
        (OpCode::And, AddressingMode::ZeroPage) => Some(0x25),
        (OpCode::And, AddressingMode::ZeroPageX) => Some(0x35),
        (OpCode::And, AddressingMode::Absolute) => Some(0x2d),
        (OpCode::And, AddressingMode::AbsoluteX) => Some(0x3d),
        (OpCode::And, AddressingMode::AbsoluteY) => Some(0x39),
        (OpCode::And, AddressingMode::IndirectX) => Some(0x21),
        (OpCode::And, AddressingMode::IndirectY) => Some(0x31),
        (OpCode::Asl, AddressingMode::Accumulator) => Some(0x0a),
        (OpCode::Asl, AddressingMode::ZeroPage) => Some(0x06),
        (OpCode::Asl, AddressingMode::ZeroPageX) => Some(0x16),
        (OpCode::Asl, AddressingMode::Absolute) => Some(0x0e),
        (OpCode::Asl, AddressingMode::AbsoluteX) => Some(0x1e),
        (OpCode::Bcc, AddressingMode::Relative) => Some(0x90),
        (OpCode::Bcs, AddressingMode::Relative) => Some(0xb0),
        (OpCode::Beq, AddressingMode::Relative) => Some(0xf0),
        (OpCode::Bmi, AddressingMode::Relative) => Some(0x30),
        (OpCode::Bne, AddressingMode::Relative) => Some(0xd0),
        (OpCode::Bpl, AddressingMode::Relative) => Some(0x10),
        (OpCode::Bvc, AddressingMode::Relative) => Some(0x50),
        (OpCode::Bvs, AddressingMode::Relative) => Some(0x70),
        (OpCode::Bit, AddressingMode::ZeroPage) => Some(0x24),
        (OpCode::Bit, AddressingMode::Absolute) => Some(0x2c),
        (OpCode::Brk, AddressingMode::Implied) => Some(0x00),
        (OpCode::Clc, AddressingMode::Implied) => Some(0x18),
        (OpCode::Cld, AddressingMode::Implied) => Some(0xd8),
        (OpCode::Cli, AddressingMode::Implied) => Some(0x58),
        (OpCode::Clv, AddressingMode::Implied) => Some(0xb8),
        (OpCode::Cmp, AddressingMode::Immediate) => Some(0xc9),
        (OpCode::Cmp, AddressingMode::ZeroPage) => Some(0xc5),
        (OpCode::Cmp, AddressingMode::ZeroPageX) => Some(0xd5),
        (OpCode::Cmp, AddressingMode::Absolute) => Some(0xcd),
        (OpCode::Cmp, AddressingMode::AbsoluteX) => Some(0xdd),
        (OpCode::Cmp, AddressingMode::AbsoluteY) => Some(0xd9),
        (OpCode::Cmp, AddressingMode::IndirectX) => Some(0xc1),
        (OpCode::Cmp, AddressingMode::IndirectY) => Some(0xd1),
        (OpCode::Cpx, AddressingMode::Immediate) => Some(0xe0),
        (OpCode::Cpx, AddressingMode::ZeroPage) => Some(0xe4),
        (OpCode::Cpx, AddressingMode::Absolute) => Some(0xec),
        (OpCode::Cpy, AddressingMode::Immediate) => Some(0xc0),
        (OpCode::Cpy, AddressingMode::ZeroPage) => Some(0xc4),
        (OpCode::Cpy, AddressingMode::Absolute) => Some(0xcc),
        (OpCode::Dec, AddressingMode::ZeroPage) => Some(0xc6),
        (OpCode::Dec, AddressingMode::ZeroPageX) => Some(0xd6),
        (OpCode::Dec, AddressingMode::Absolute) => Some(0xce),
        (OpCode::Dec, AddressingMode::AbsoluteX) => Some(0xde),
        (OpCode::Dex, AddressingMode::Implied) => Some(0xca),
        (OpCode::Dey, AddressingMode::Implied) => Some(0x88),
        (OpCode::Eor, AddressingMode::Immediate) => Some(0x49),
        (OpCode::Eor, AddressingMode::ZeroPage) => Some(0x45),
        (OpCode::Eor, AddressingMode::ZeroPageX) => Some(0x55),
        (OpCode::Eor, AddressingMode::Absolute) => Some(0x4d),
        (OpCode::Eor, AddressingMode::AbsoluteX) => Some(0x5d),
        (OpCode::Eor, AddressingMode::AbsoluteY) => Some(0x59),
        (OpCode::Eor, AddressingMode::IndirectX) => Some(0x41),
        (OpCode::Eor, AddressingMode::IndirectY) => Some(0x51),
        (OpCode::Inc, AddressingMode::ZeroPage) => Some(0xe6),
        (OpCode::Inc, AddressingMode::ZeroPageX) => Some(0xf6),
        (OpCode::Inc, AddressingMode::Absolute) => Some(0xee),
        (OpCode::Inc, AddressingMode::AbsoluteX) => Some(0xfe),
        (OpCode::Inx, AddressingMode::Implied) => Some(0xe8),
        (OpCode::Iny, AddressingMode::Implied) => Some(0xc8),
        (OpCode::Jmp, AddressingMode::Absolute) => Some(0x4c),
        (OpCode::Jmp, AddressingMode::Indirect) => Some(0x6c),
        (OpCode::Jsr, AddressingMode::Absolute) => Some(0x20),
        (OpCode::Lda, AddressingMode::Immediate) => Some(0xa9),
        (OpCode::Lda, AddressingMode::ZeroPage) => Some(0xa5),
        (OpCode::Lda, AddressingMode::ZeroPageX) => Some(0xb5),
        (OpCode::Lda, AddressingMode::Absolute) => Some(0xad),
        (OpCode::Lda, AddressingMode::AbsoluteX) => Some(0xbd),
        (OpCode::Lda, AddressingMode::AbsoluteY) => Some(0xb9),
        (OpCode::Lda, AddressingMode::IndirectX) => Some(0xa1),
        (OpCode::Lda, AddressingMode::IndirectY) => Some(0xb1),
        (OpCode::Ldx, AddressingMode::Immediate) => Some(0xa2),
        (OpCode::Ldx, AddressingMode::ZeroPage) => Some(0xa6),
        (OpCode::Ldx, AddressingMode::ZeroPageY) => Some(0xb6),
        (OpCode::Ldx, AddressingMode::Absolute) => Some(0xae),
        (OpCode::Ldx, AddressingMode::AbsoluteY) => Some(0xbe),
        (OpCode::Ldy, AddressingMode::Immediate) => Some(0xa0),
        (OpCode::Ldy, AddressingMode::ZeroPage) => Some(0xa4),
        (OpCode::Ldy, AddressingMode::ZeroPageX) => Some(0xb4),
        (OpCode::Ldy, AddressingMode::Absolute) => Some(0xac),
        (OpCode::Ldy, AddressingMode::AbsoluteX) => Some(0xbc),
        (OpCode::Lsr, AddressingMode::Accumulator) => Some(0x4a),
        (OpCode::Lsr, AddressingMode::ZeroPage) => Some(0x46),
        (OpCode::Lsr, AddressingMode::ZeroPageX) => Some(0x56),
        (OpCode::Lsr, AddressingMode::Absolute) => Some(0x4e),
        (OpCode::Lsr, AddressingMode::AbsoluteX) => Some(0x5e),
        (OpCode::Nop, AddressingMode::Implied) => Some(0xea),
        (OpCode::Ora, AddressingMode::Immediate) => Some(0x09),
        (OpCode::Ora, AddressingMode::ZeroPage) => Some(0x05),
        (OpCode::Ora, AddressingMode::ZeroPageX) => Some(0x15),
        (OpCode::Ora, AddressingMode::Absolute) => Some(0x0d),
        (OpCode::Ora, AddressingMode::AbsoluteX) => Some(0x1d),
        (OpCode::Ora, AddressingMode::AbsoluteY) => Some(0x19),
        (OpCode::Ora, AddressingMode::IndirectX) => Some(0x01),
        (OpCode::Ora, AddressingMode::IndirectY) => Some(0x11),
        (OpCode::Pha, AddressingMode::Implied) => Some(0x48),
        (OpCode::Php, AddressingMode::Implied) => Some(0x08),
        (OpCode::Pla, AddressingMode::Implied) => Some(0x68),
        (OpCode::Plp, AddressingMode::Implied) => Some(0x28),
        (OpCode::Rol, AddressingMode::Accumulator) => Some(0x2a),
        (OpCode::Rol, AddressingMode::ZeroPage) => Some(0x26),
        (OpCode::Rol, AddressingMode::ZeroPageX) => Some(0x36),
        (OpCode::Rol, AddressingMode::Absolute) => Some(0x2e),
        (OpCode::Rol, AddressingMode::AbsoluteX) => Some(0x3e),
        (OpCode::Ror, AddressingMode::Accumulator) => Some(0x6a),
        (OpCode::Ror, AddressingMode::ZeroPage) => Some(0x66),
        (OpCode::Ror, AddressingMode::ZeroPageX) => Some(0x76),
        (OpCode::Ror, AddressingMode::Absolute) => Some(0x6e),
        (OpCode::Ror, AddressingMode::AbsoluteX) => Some(0x7e),
        (OpCode::Rti, AddressingMode::Implied) => Some(0x40),
        (OpCode::Rts, AddressingMode::Implied) => Some(0x60),
        (OpCode::Sbc, AddressingMode::Immediate) => Some(0xe9),
        (OpCode::Sbc, AddressingMode::ZeroPage) => Some(0xe5),
        (OpCode::Sbc, AddressingMode::ZeroPageX) => Some(0xf5),
        (OpCode::Sbc, AddressingMode::Absolute) => Some(0xed),
        (OpCode::Sbc, AddressingMode::AbsoluteX) => Some(0xfd),
        (OpCode::Sbc, AddressingMode::AbsoluteY) => Some(0xf9),
        (OpCode::Sbc, AddressingMode::IndirectX) => Some(0xe1),
        (OpCode::Sbc, AddressingMode::IndirectY) => Some(0xf1),
        (OpCode::Sec, AddressingMode::Implied) => Some(0x38),
        (OpCode::Sed, AddressingMode::Implied) => Some(0xf8),
        (OpCode::Sei, AddressingMode::Implied) => Some(0x78),
        (OpCode::Sta, AddressingMode::ZeroPage) => Some(0x85),
        (OpCode::Sta, AddressingMode::ZeroPageX) => Some(0x95),
        (OpCode::Sta, AddressingMode::Absolute) => Some(0x8d),
        (OpCode::Sta, AddressingMode::AbsoluteX) => Some(0x9d),
        (OpCode::Sta, AddressingMode::AbsoluteY) => Some(0x99),
        (OpCode::Sta, AddressingMode::IndirectX) => Some(0x81),
        (OpCode::Sta, AddressingMode::IndirectY) => Some(0x91),
        (OpCode::Stx, AddressingMode::ZeroPage) => Some(0x86),
        (OpCode::Stx, AddressingMode::ZeroPageY) => Some(0x96),
        (OpCode::Stx, AddressingMode::Absolute) => Some(0x8e),
        (OpCode::Sty, AddressingMode::ZeroPage) => Some(0x84),
        (OpCode::Sty, AddressingMode::ZeroPageX) => Some(0x94),
        (OpCode::Sty, AddressingMode::Absolute) => Some(0x8c),
        (OpCode::Tax, AddressingMode::Implied) => Some(0xaa),
        (OpCode::Tay, AddressingMode::Implied) => Some(0xa8),
        (OpCode::Tsx, AddressingMode::Implied) => Some(0xba),
        (OpCode::Txa, AddressingMode::Implied) => Some(0x8a),
        (OpCode::Txs, AddressingMode::Implied) => Some(0x9a),
        (OpCode::Tya, AddressingMode::Implied) => Some(0x98),
        _ => None,
    }
}

/// The bytes of an operand after the opcode.
pub fn operand_to_bytes(a: Addressing) -> (v: Vec<u8>)
    ensures
        v@ == operand_bytes(a),
{
    let v: Vec<u8> = match a {
        Addressing::Implied | Addressing::Accumulator => Vec::new(),
        Addressing::Immediate(b) => vec![b],
        Addressing::Relative(o) => vec![if o >= 0 { o as u8 } else { (o as i16 + 256) as u8 }],
        Addressing::ZeroPage(z) | Addressing::ZeroPageX(z) | Addressing::ZeroPageY(z)
        | Addressing::IndirectX(z) | Addressing::IndirectY(z) => vec![z],
        Addressing::Absolute(w) | Addressing::AbsoluteX(w) | Addressing::AbsoluteY(w)
        | Addressing::Indirect(w) => vec![(w % 256) as u8, (w / 256) as u8],
    };
    assert(v@ =~= operand_bytes(a));
    v
}

/// The kind of an operand.
pub fn addressing_mode(a: Addressing) -> (m: AddressingMode)
    ensures
        m == mode_of(a),
{
    match a {
        Addressing::Implied => AddressingMode::Implied,
        Addressing::Accumulator => AddressingMode::Accumulator,
        Addressing::Immediate(_) => AddressingMode::Immediate,
        Addressing::Relative(_) => AddressingMode::Relative,
        Addressing::ZeroPage(_) => AddressingMode::ZeroPage,
        Addressing::ZeroPageX(_) => AddressingMode::ZeroPageX,
        Addressing::ZeroPageY(_) => AddressingMode::ZeroPageY,
        Addressing::Absolute(_) => AddressingMode::Absolute,
        Addressing::AbsoluteX(_) => AddressingMode::AbsoluteX,
        Addressing::AbsoluteY(_) => AddressingMode::AbsoluteY,
        Addressing::Indirect(_) => AddressingMode::Indirect,
        Addressing::IndirectX(_) => AddressingMode::IndirectX,
        Addressing::IndirectY(_) => AddressingMode::IndirectY,
    }
}

/// The encoding of an instruction, when the instruction set has its
/// operation with its kind of operand; decoding it gives the instruction back,
/// with the base cycle count of the set.
pub fn encode_instruction(ins: &Instruction) -> (r: Option<Vec<u8>>)
    ensures
        r is Some <==> opcode_of(ins.0, mode_of(ins.1)) is Some,
        r matches Some(v) ==> v@.len() <= 3,
        r matches Some(v) ==> spec_decode(v@) == Some(
            (v@.len() as usize, Instruction(ins.0, ins.1, opcode_table(v@[0]).unwrap().2)),
        ),
{
    let opcode = match opcode_for(ins.0, addressing_mode(ins.1)) {
        Some(b) => b,
        None => return None,
    };
    let mut v: Vec<u8> = vec![opcode];
    let mut rest = operand_to_bytes(ins.1);
    v.append(&mut rest);
    proof {
        assert(v@ =~= encode(opcode, ins.1));
        lemma_decode_encode(opcode, ins.1);
    }
    Some(v)
}

} // verus!
