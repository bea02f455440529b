use vstd::prelude::*;

use crate::cpu::decode::{mode_of, opcode_table, word};
use crate::cpu::{
    status_byte, flags_of_byte, flag_bit, Addressing, CpuError, Instruction, OpCode, Registers,
    StackError, StatusFlags,
};
use crate::memory::map::MemMapView;

verus! {

/// The page of the stack.
pub const STACK_BOTTOM: u16 = 0x0100;

/// The address that the stack pointer designates.
pub open spec fn stack_address(sp: u8) -> u16 {
    (STACK_BOTTOM + sp) as u16
}

/// Memory and registers after pushing `v`; `None` when the stack pointer
/// cannot go down any further.
pub open spec fn pushed(m: MemMapView, r: Registers, v: u8) -> Option<(MemMapView, Registers)> {
    if r.sp == 0 {
        None
    } else {
        Some((m.written(stack_address(r.sp), v), Registers { sp: (r.sp - 1) as u8, ..r }))
    }
}

/// The byte popped, with memory and registers after the pop; `None` when the
/// stack pointer cannot go up any further.
pub open spec fn popped(m: MemMapView, r: Registers) -> Option<(u8, MemMapView, Registers)> {
    if r.sp == 0xff {
        None
    } else {
        let a = stack_address((r.sp + 1) as u8);
        Some((m.bytes[a as int], m.read_from(a), Registers { sp: (r.sp + 1) as u8, ..r }))
    }
}

/// Pushes the high byte of `w`, then its low byte.
pub open spec fn pushed_word(m: MemMapView, r: Registers, w: u16) -> Option<(MemMapView, Registers)> {
    match pushed(m, r, (w / 256) as u8) {
        None => None,
        Some((m1, r1)) => pushed(m1, r1, (w % 256) as u8),
    }
}

/// Pops a low byte, then a high byte, giving the word they make.
pub open spec fn popped_word(m: MemMapView, r: Registers) -> Option<(u16, MemMapView, Registers)> {
    match popped(m, r) {
        None => None,
        Some((lo, m1, r1)) => match popped(m1, r1) {
            None => None,
            Some((hi, m2, r2)) => Some((word(lo, hi), m2, r2)),
        },
    }
}

/// The page that an address lies in.
pub open spec fn page(a: u16) -> int {
    a as int / 256
}

/// The word stored at `p` and the byte after it.
pub open spec fn word_at(m: MemMapView, p: u16) -> u16 {
    word(m.bytes[p as int], m.bytes[((p + 1) % 0x10000) as int])
}

/// Memory after reading the word at `p`.
pub open spec fn after_word_read(m: MemMapView, p: u16) -> MemMapView {
    m.read_from(p).read_from(((p + 1) % 0x10000) as u16)
}

/// The effective address of a memory operand, the address that indexing
/// started from, and memory after reading any pointer on the way.
pub open spec fn resolve(a: Addressing, r: Registers, m: MemMapView) -> Option<(u16, u16, MemMapView)> {
    match a {
        Addressing::ZeroPage(z) => Some((z as u16, z as u16, m)),
        Addressing::ZeroPageX(z) => Some((((z + r.x) % 256) as u16, z as u16, m)),
        Addressing::ZeroPageY(z) => Some((((z + r.y) % 256) as u16, z as u16, m)),
        Addressing::Absolute(w) => Some((w, w, m)),
        Addressing::AbsoluteX(w) => Some((((w + r.x) % 0x10000) as u16, w, m)),
        Addressing::AbsoluteY(w) => Some((((w + r.y) % 0x10000) as u16, w, m)),
        Addressing::Indirect(w) => Some((word_at(m, w), w, after_word_read(m, w))),
        Addressing::IndirectX(z) => {
            let p = (z + r.x) as u16;
            Some((word_at(m, p), p, after_word_read(m, p)))
        },
        Addressing::IndirectY(z) => {
            let base = word_at(m, z as u16);
            Some((((base + r.y) % 0x10000) as u16, base, after_word_read(m, z as u16)))
        },
        _ => None,
    }
}

/// Whether indexing this operand across a page costs a cycle.
pub open spec fn indexes_across_pages(a: Addressing) -> bool {
    a is AbsoluteX || a is AbsoluteY || a is IndirectY
}

/// The value of an operand, whether fetching it crossed a page, and memory
/// after the fetch; `None` for an operand that holds no value.
pub open spec fn operand(a: Addressing, r: Registers, m: MemMapView) -> Option<(u8, bool, MemMapView)> {
    match a {
        Addressing::Immediate(v) => Some((v, false, m)),
        Addressing::Accumulator => Some((r.acc, false, m)),
        _ => match resolve(a, r, m) {
            None => None,
            Some((ea, base, m1)) => Some(
                (
                    m1.bytes[ea as int],
                    indexes_across_pages(a) && page(base) != page(ea),
                    m1.read_from(ea),
                ),
            ),
        },
    }
}

/// Memory and registers after storing `v` into an operand; `None` for an
/// operand that cannot be stored into.
pub open spec fn stored(a: Addressing, r: Registers, m: MemMapView, v: u8) -> Option<(MemMapView, Registers)> {
    match a {
        Addressing::Accumulator => Some((m, Registers { acc: v, ..r })),
        _ => match resolve(a, r, m) {
            None => None,
            Some((ea, _, m1)) => Some((m1.written(ea, v), r)),
        },
    }
}

/// Flags with zero and negative set from `v`.
pub open spec fn with_nz(s: StatusFlags, v: u8) -> StatusFlags {
    StatusFlags { zero: v == 0, negative: v >= 0x80, ..s }
}

/// Binary addition with carry.
pub open spec fn adc(r: Registers, v: u8) -> Registers {
    let sum = r.acc + v + flag_bit(r.status.carry, 1);
    let res = (sum % 256) as u8;
    Registers {
        acc: res,
        status: StatusFlags {
            carry: sum > 255,
            overflow: (r.acc < 128) == (v < 128) && (res < 128) != (r.acc < 128),
            ..with_nz(r.status, res)
        },
        ..r
    }
}

/// Binary subtraction with borrow.
pub open spec fn sbc(r: Registers, v: u8) -> Registers {
    let diff = r.acc - v - (1 - flag_bit(r.status.carry, 1));
    let res = ((diff + 256) % 256) as u8;
    Registers {
        acc: res,
        status: StatusFlags {
            carry: diff >= 0,
            overflow: (r.acc < 128) != (v < 128) && (res < 128) != (r.acc < 128),
            ..with_nz(r.status, res)
        },
        ..r
    }
}

/// Flags after comparing a register with `v`.
pub open spec fn compared(s: StatusFlags, reg: u8, v: u8) -> StatusFlags {
    StatusFlags {
        carry: reg >= v,
        zero: reg == v,
        negative: (reg - v + 256) % 256 >= 128,
        ..s
    }
}

/// Registers after an operation that reads one operand value.
pub open spec fn read_op(op: OpCode, r: Registers, v: u8) -> Registers {
    match op {
        OpCode::Adc => adc(r, v),
        OpCode::Sbc => sbc(r, v),
        OpCode::And => Registers { acc: r.acc & v, status: with_nz(r.status, r.acc & v), ..r },
        OpCode::Ora => Registers { acc: r.acc | v, status: with_nz(r.status, r.acc | v), ..r },
        OpCode::Eor => Registers { acc: r.acc ^ v, status: with_nz(r.status, r.acc ^ v), ..r },
        OpCode::Lda => Registers { acc: v, status: with_nz(r.status, v), ..r },
        OpCode::Ldx => Registers { x: v, status: with_nz(r.status, v), ..r },
        OpCode::Ldy => Registers { y: v, status: with_nz(r.status, v), ..r },
        OpCode::Cmp => Registers { status: compared(r.status, r.acc, v), ..r },
        OpCode::Cpx => Registers { status: compared(r.status, r.x, v), ..r },
        OpCode::Cpy => Registers { status: compared(r.status, r.y, v), ..r },
        _ => Registers {
            status: StatusFlags {
                zero: r.acc & v == 0,
                overflow: v & 0x40 != 0,
                negative: v >= 0x80,
                ..r.status
            },
            ..r
        },
    }
}

pub open spec fn is_read_op(op: OpCode) -> bool {
    op is Adc || op is Sbc || op is And || op is Ora || op is Eor || op is Lda || op is Ldx
        || op is Ldy || op is Cmp || op is Cpx || op is Cpy || op is Bit
}

/// The operations that take a cycle more when indexing crosses a page.
pub open spec fn pays_page_cross(op: OpCode) -> bool {
    op is Adc || op is And || op is Cmp || op is Eor || op is Lda || op is Ldx || op is Ldy
        || op is Ora || op is Sbc
}

/// The result and flags of a read-modify-write operation on `v`.
pub open spec fn modify_op(op: OpCode, s: StatusFlags, v: u8) -> (u8, StatusFlags) {
    let res: u8 = match op {
        OpCode::Asl => ((v * 2) % 256) as u8,
        OpCode::Lsr => (v / 2) as u8,
        OpCode::Rol => ((v * 2) % 256 + flag_bit(s.carry, 1)) as u8,
        OpCode::Ror => (v / 2 + flag_bit(s.carry, 128)) as u8,
        OpCode::Inc => ((v + 1) % 256) as u8,
        _ => ((v + 255) % 256) as u8,
    };
    let carry = match op {
        OpCode::Asl | OpCode::Rol => v >= 128,
        OpCode::Lsr | OpCode::Ror => v % 2 == 1,
        _ => s.carry,
    };
    (res, with_nz(StatusFlags { carry, ..s }, res))
}

pub open spec fn is_modify_op(op: OpCode) -> bool {
    op is Asl || op is Lsr || op is Rol || op is Ror || op is Inc || op is Dec
}

/// Whether a branch operation takes its branch.
pub open spec fn branch_taken(op: OpCode, s: StatusFlags) -> bool {
    match op {
        OpCode::Bcc => !s.carry,
        OpCode::Bcs => s.carry,
        OpCode::Beq => s.zero,
        OpCode::Bne => !s.zero,
        OpCode::Bmi => s.negative,
        OpCode::Bpl => !s.negative,
        OpCode::Bvc => !s.overflow,
        _ => s.overflow,
    }
}

pub open spec fn is_branch(op: OpCode) -> bool {
    op is Bcc || op is Bcs || op is Beq || op is Bne || op is Bmi || op is Bpl || op is Bvc
        || op is Bvs
}

/// The target of a relative branch from `pc`.
pub open spec fn branch_target(pc: u16, offset: i8) -> u16 {
    ((pc + offset) % 0x10000) as u16
}

/// Registers after an operation that works on registers alone.
pub open spec fn register_op(op: OpCode, r: Registers) -> Registers {
    match op {
        OpCode::Clc => Registers { status: StatusFlags { carry: false, ..r.status }, ..r },
        OpCode::Cld => Registers { status: StatusFlags { decimal: false, ..r.status }, ..r },
        OpCode::Cli => Registers { status: StatusFlags { interrupt: false, ..r.status }, ..r },
        OpCode::Clv => Registers { status: StatusFlags { overflow: false, ..r.status }, ..r },
        OpCode::Sec => Registers { status: StatusFlags { carry: true, ..r.status }, ..r },
        OpCode::Sed => Registers { status: StatusFlags { decimal: true, ..r.status }, ..r },
        OpCode::Sei => Registers { status: StatusFlags { interrupt: true, ..r.status }, ..r },
        OpCode::Dex => {
            let v = ((r.x + 255) % 256) as u8;
            Registers { x: v, status: with_nz(r.status, v), ..r }
        },
        OpCode::Dey => {
            let v = ((r.y + 255) % 256) as u8;
            Registers { y: v, status: with_nz(r.status, v), ..r }
        },
        OpCode::Inx => {
            let v = ((r.x + 1) % 256) as u8;
            Registers { x: v, status: with_nz(r.status, v), ..r }
        },
        OpCode::Iny => {
            let v = ((r.y + 1) % 256) as u8;
            Registers { y: v, status: with_nz(r.status, v), ..r }
        },
        OpCode::Tax => Registers { x: r.acc, status: with_nz(r.status, r.acc), ..r },
        OpCode::Tay => Registers { y: r.acc, status: with_nz(r.status, r.acc), ..r },
        OpCode::Tsx => Registers { x: r.sp, status: with_nz(r.status, r.sp), ..r },
        OpCode::Txa => Registers { acc: r.x, status: with_nz(r.status, r.x), ..r },
        OpCode::Tya => Registers { acc: r.y, status: with_nz(r.status, r.y), ..r },
        OpCode::Txs => Registers { sp: r.x, ..r },
        _ => r,
    }
}

pub open spec fn is_register_op(op: OpCode) -> bool {
    op is Clc || op is Cld || op is Cli || op is Clv || op is Sec || op is Sed || op is Sei
        || op is Dex || op is Dey || op is Inx || op is Iny || op is Tax || op is Tay || op is Tsx
        || op is Txa || op is Tya || op is Txs || op is Nop
}

/// An error of the stack as a CPU error.
pub open spec fn stack_fault(e: StackError) -> CpuError {
    CpuError::Stack(e)
}

/// Memory, registers and cycles after an interrupt sequence: the program
/// counter and `status` are pushed and the vector at `vector` is taken.
pub open spec fn interrupted(m: MemMapView, r: Registers, status: u8, vector: u16) -> Option<(MemMapView, Registers)> {
    match pushed_word(m, r, r.pc) {
        None => None,
        Some((m1, r1)) => match pushed(m1, r1, status) {
            None => None,
            Some((m2, r2)) => Some(
                (after_word_read(m2, vector), Registers { pc: word_at(m2, vector), ..r2 }),
            ),
        },
    }
}

/// Executing an operation that reads one operand value.
pub open spec fn read_execution(ins: Instruction, m: MemMapView, r: Registers) -> Result<
    (usize, MemMapView, Registers),
    CpuError,
> {
    match operand(ins.1, r, m) {
        None => Err(CpuError::InvalidInstruction),
        Some((v, crossed, m1)) => Ok(
            (
                (ins.2 + if pays_page_cross(ins.0) && crossed {
                    1int
                } else {
                    0
                }) as usize,
                m1,
                read_op(ins.0, r, v),
            ),
        ),
    }
}

/// Executing a read-modify-write operation.
pub open spec fn modify_execution(ins: Instruction, m: MemMapView, r: Registers) -> Result<
    (usize, MemMapView, Registers),
    CpuError,
> {
    match operand(ins.1, r, m) {
        None => Err(CpuError::InvalidInstruction),
        Some((v, _, m1)) => {
            let (res, s) = modify_op(ins.0, r.status, v);
            match stored(ins.1, Registers { status: s, ..r }, m1, res) {
                None => Err(CpuError::InvalidInstruction),
                Some((m2, r2)) => Ok((ins.2, m2, r2)),
            }
        },
    }
}

/// Executing a store of a register.
pub open spec fn store_execution(ins: Instruction, m: MemMapView, r: Registers) -> Result<
    (usize, MemMapView, Registers),
    CpuError,
> {
    let v = if ins.0 is Sta {
        r.acc
    } else if ins.0 is Stx {
        r.x
    } else {
        r.y
    };
    match stored(ins.1, r, m, v) {
        None => Err(CpuError::InvalidInstruction),
        Some((m1, r1)) => Ok((ins.2, m1, r1)),
    }
}

/// Executing a conditional branch: a taken branch costs a cycle, and one more
/// when it lands in another page.
pub open spec fn branch_execution(ins: Instruction, m: MemMapView, r: Registers) -> Result<
    (usize, MemMapView, Registers),
    CpuError,
> {
    match ins.1 {
        Addressing::Relative(o) => if branch_taken(ins.0, r.status) {
            let target = branch_target(r.pc, o);
            Ok(
                (
                    (ins.2 + 1 + if page(r.pc) != page(target) {
                        1int
                    } else {
                        0
                    }) as usize,
                    m,
                    Registers { pc: target, ..r },
                ),
            )
        } else {
            Ok((ins.2, m, r))
        },
        _ => Err(CpuError::InvalidInstruction),
    }
}

/// Executing a jump, or a jump to a subroutine, which pushes the address of
/// its own last byte.
pub open spec fn jump_execution(ins: Instruction, m: MemMapView, r: Registers) -> Result<
    (usize, MemMapView, Registers),
    CpuError,
> {
    match (ins.0, ins.1) {
        (OpCode::Jmp, Addressing::Absolute(w)) => Ok((ins.2, m, Registers { pc: w, ..r })),
        (OpCode::Jmp, Addressing::Indirect(w)) => Ok(
            (ins.2, after_word_read(m, w), Registers { pc: word_at(m, w), ..r }),
        ),
        (OpCode::Jsr, Addressing::Absolute(w)) => match pushed_word(
            m,
            r,
            ((r.pc + 0xffff) % 0x10000) as u16,
        ) {
            None => Err(stack_fault(StackError::Overflow)),
            Some((m1, r1)) => Ok((6, m1, Registers { pc: w, ..r1 })),
        },
        _ => Err(CpuError::InvalidInstruction),
    }
}

/// Executing a push, a pull, or a return.
pub open spec fn stack_execution(ins: Instruction, m: MemMapView, r: Registers) -> Result<
    (usize, MemMapView, Registers),
    CpuError,
> {
    let op = ins.0;
    if op is Pha || op is Php {
        let v = if op is Pha {
            r.acc
        } else {
            status_byte(r.status)
        };
        match pushed(m, r, v) {
            None => Err(stack_fault(StackError::Overflow)),
            Some((m1, r1)) => Ok((ins.2, m1, r1)),
        }
    } else if op is Pla || op is Plp {
        match popped(m, r) {
            None => Err(stack_fault(StackError::Underflow)),
            Some((v, m1, r1)) => Ok(
                (
                    ins.2,
                    m1,
                    if op is Pla {
                        Registers { acc: v, status: with_nz(r1.status, v), ..r1 }
                    } else {
                        Registers { status: flags_of_byte(v), ..r1 }
                    },
                ),
            ),
        }
    } else if op is Rti {
        match popped(m, r) {
            None => Err(stack_fault(StackError::Underflow)),
            Some((s, m1, r1)) => match popped_word(m1, r1) {
                None => Err(stack_fault(StackError::Underflow)),
                Some((pc, m2, r2)) => Ok((6, m2, Registers { pc, status: flags_of_byte(s), ..r2 })),
            },
        }
    } else {
        match popped_word(m, r) {
            None => Err(stack_fault(StackError::Underflow)),
            Some((pc, m1, r1)) => Ok(
                (6, m1, Registers { pc: ((pc + 1) % 0x10000) as u16, ..r1 }),
            ),
        }
    }
}

/// Executing a software break: the program counter and the status with the
/// break flag set are pushed, the IRQ vector is taken and interrupts are masked.
pub open spec fn brk_execution(m: MemMapView, r: Registers) -> Result<
    (usize, MemMapView, Registers),
    CpuError,
> {
    let r0 = Registers { status: StatusFlags { brk: true, ..r.status }, ..r };
    match interrupted(m, r0, status_byte(r0.status), 0xfffe) {
        None => Err(stack_fault(StackError::Overflow)),
        Some((m1, r1)) => Ok(
            (7, m1, Registers { status: StatusFlags { interrupt: true, ..r1.status }, ..r1 }),
        ),
    }
}

pub open spec fn is_stack_op(op: OpCode) -> bool {
    op is Pha || op is Php || op is Pla || op is Plp || op is Rti || op is Rts
}

/// What executing `ins` does: the cycles it takes, with memory and registers
/// after it, or the fault that stops it.
#[verifier::opaque]
pub open spec fn execution(ins: Instruction, m: MemMapView, r: Registers) -> Result<
    (usize, MemMapView, Registers),
    CpuError,
> {
    let op = ins.0;
    if is_read_op(op) {
        read_execution(ins, m, r)
    } else if is_modify_op(op) {
        modify_execution(ins, m, r)
    } else if op is Sta || op is Stx || op is Sty {
        store_execution(ins, m, r)
    } else if is_branch(op) {
        branch_execution(ins, m, r)
    } else if op is Nop {
        Ok((2, m, r))
    } else if is_register_op(op) {
        Ok((ins.2, m, register_op(op, r)))
    } else if op is Jmp || op is Jsr {
        jump_execution(ins, m, r)
    } else if is_stack_op(op) {
        stack_execution(ins, m, r)
    } else {
        brk_execution(m, r)
    }
}

/// Whether the result of a step agrees with what `execution` says.
pub open spec fn outcome(
    res: Result<usize, CpuError>,
    m: MemMapView,
    r: Registers,
    expected: Result<(usize, MemMapView, Registers), CpuError>,
) -> bool {
    match expected {
        Ok((c, m1, r1)) => res == Ok::<usize, CpuError>(c) && m == m1 && r == r1,
        Err(e) => res == Err::<usize, CpuError>(e),
    }
}

/// Decimal mode is not emulated: addition and subtraction refuse it.
pub open spec fn needs_decimal(op: OpCode, s: StatusFlags) -> bool {
    (op is Adc || op is Sbc) && s.decimal
}

/// An operation that pays for crossing a page, on an indexed operand, takes its
/// base cycles plus one when the effective address lies in another page than
/// the address that indexing started from, and its base cycles otherwise.
pub proof fn lemma_page_cross_cycles(ins: Instruction, m: MemMapView, r: Registers)
    requires
        pays_page_cross(ins.0),
        indexes_across_pages(ins.1),
        ins.2 + 1 <= usize::MAX,
    ensures
        resolve(ins.1, r, m) matches Some((ea, base, _)) && execution(ins, m, r) matches Ok(
            (c, _, _),
        ) && c == if page(base) != page(ea) {
            ins.2 + 1
        } else {
            ins.2 as int
        },
{
    reveal(execution);
}

/// A taken branch takes its base cycles plus one, plus one more when its target
/// lies in another page; a branch not taken takes its base cycles and leaves
/// the program counter alone.
pub proof fn lemma_branch_cycles(op: OpCode, offset: i8, base_cycles: usize, m: MemMapView, r: Registers)
    requires
        is_branch(op),
        base_cycles + 2 <= usize::MAX,
    ensures
        execution(Instruction(op, Addressing::Relative(offset), base_cycles), m, r) == if branch_taken(
            op,
            r.status,
        ) {
            let target = branch_target(r.pc, offset);
            Ok::<(usize, MemMapView, Registers), CpuError>(
                (
                    (base_cycles + 1 + if page(r.pc) != page(target) {
                        1int
                    } else {
                        0
                    }) as usize,
                    m,
                    Registers { pc: target, ..r },
                ),
            )
        } else {
            Ok::<(usize, MemMapView, Registers), CpuError>((base_cycles, m, r))
        },
{
    reveal(execution);
}

/// Every instruction of the set has a base cycle count from 2 to 7.
pub proof fn lemma_table_cycles(b: u8)
    ensures
        opcode_table(b) matches Some(e) ==> 2 <= e.2 <= 7,
{
}

/// For the instructions of the set, an operation that pays for crossing a page
/// on an indexed operand takes its base cycles plus one exactly when the
/// effective address lies in another page than the address indexing started
/// from.
pub proof fn lemma_set_page_cross_cycles(opcode: u8, a: Addressing, m: MemMapView, r: Registers)
    requires
        opcode_table(opcode) is Some,
        mode_of(a) == opcode_table(opcode).unwrap().1,
        pays_page_cross(opcode_table(opcode).unwrap().0),
        indexes_across_pages(a),
    ensures
        ({
            let (op, _, base) = opcode_table(opcode).unwrap();
            resolve(a, r, m) matches Some((ea, b, _)) && execution(Instruction(op, a, base), m, r)
                matches Ok((c, _, _)) && c == if page(b) != page(ea) {
                base + 1
            } else {
                base as int
            }
        }),
{
    lemma_table_cycles(opcode);
    let (op, _, base) = opcode_table(opcode).unwrap();
    lemma_page_cross_cycles(Instruction(op, a, base), m, r);
}

/// For the branches of the set, a taken branch takes its base cycles plus one,
/// plus one more across a page; one not taken takes its base cycles and
/// changes nothing.
pub proof fn lemma_set_branch_cycles(opcode: u8, offset: i8, m: MemMapView, r: Registers)
    requires
        opcode_table(opcode) is Some,
        is_branch(opcode_table(opcode).unwrap().0),
    ensures
        ({
            let (op, _, base) = opcode_table(opcode).unwrap();
            execution(Instruction(op, Addressing::Relative(offset), base), m, r) == if branch_taken(
                op,
                r.status,
            ) {
                let target = branch_target(r.pc, offset);
                Ok::<(usize, MemMapView, Registers), CpuError>(
                    (
                        (base + 1 + if page(r.pc) != page(target) {
                            1int
                        } else {
                            0
                        }) as usize,
                        m,
                        Registers { pc: target, ..r },
                    ),
                )
            } else {
                Ok::<(usize, MemMapView, Registers), CpuError>((base, m, r))
            }
        }),
{
    lemma_table_cycles(opcode);
    let (op, _, base) = opcode_table(opcode).unwrap();
    lemma_branch_cycles(op, offset, base, m, r);
}

} // verus!
