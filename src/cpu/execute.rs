use vstd::prelude::*;

use crate::cpu::semantics::{
    adc, after_word_read, branch_execution, brk_execution, jump_execution, modify_execution,
    read_execution, stack_execution, store_execution, is_stack_op, branch_taken, branch_target, compared, execution, indexes_across_pages,
    interrupted, is_branch, is_modify_op, is_read_op, is_register_op, modify_op, needs_decimal,
    operand, outcome, page, popped, popped_word, pushed, pushed_word, read_op, register_op,
    resolve, sbc, stored, with_nz, word_at,
};
use crate::cpu::stack::{pop_stack, push_stack};
use crate::cpu::{
    Addressing, CpuError, Instruction, OpCode, Registers, StackError, StatusFlags,
};
use crate::memory::map::MemMap;

verus! {

/// Whether two addresses lie in different pages.
pub fn page_crossed(from: u16, to: u16) -> (r: bool)
    ensures
        r == (page(from) != page(to)),
{
    assert((from & 0xff00 != to & 0xff00) == (from / 256 != to / 256)) by (bit_vector);
    (from & 0xff00) != (to & 0xff00)
}

/// The address after `p`, wrapping at the top of memory.
fn next_address(p: u16) -> (r: u16)
    ensures
        r == (p + 1) % 0x10000,
{
    if p == 0xffff {
        0
    } else {
        p + 1
    }
}

/// `base` moved on by `index`, wrapping at the top of memory.
fn index_address(base: u16, index: u8) -> (r: u16)
    ensures
        r == (base + index) % 0x10000,
{
    if base as u32 + index as u32 >= 0x10000 {
        (base as u32 + index as u32 - 0x10000) as u16
    } else {
        base + index as u16
    }
}

/// Reads the little-endian word at `p`.
fn read_word(mem: &mut MemMap, p: u16) -> (w: u16)
    requires
        old(mem).wf(),
    ensures
        final(mem).wf(),
        w == word_at(old(mem)@, p),
        final(mem)@ == after_word_read(old(mem)@, p),
{
    let lo = mem.read(p);
    let hi = mem.read(next_address(p));
    lo as u16 + (hi as u16) * 256
}

/// The effective address of a memory operand and the address that indexing
/// started from; `None` for an operand that is not in memory.
#[verifier::rlimit(100)]
fn resolve_address(a: Addressing, mem: &mut MemMap, reg: &Registers) -> (r: Option<(u16, u16)>)
    requires
        old(mem).wf(),
    ensures
        final(mem).wf(),
        match resolve(a, *reg, old(mem)@) {
            None => r is None && final(mem)@ == old(mem)@,
            Some((ea, base, m)) => r == Some((ea, base)) && final(mem)@ == m,
        },
{
    match a {
        Addressing::ZeroPage(z) => Some((z as u16, z as u16)),
        Addressing::ZeroPageX(z) => Some((z.wrapping_add(reg.x) as u16, z as u16)),
        Addressing::ZeroPageY(z) => Some((z.wrapping_add(reg.y) as u16, z as u16)),
        Addressing::Absolute(w) => Some((w, w)),
        Addressing::AbsoluteX(w) => Some((index_address(w, reg.x), w)),
        Addressing::AbsoluteY(w) => Some((index_address(w, reg.y), w)),
        Addressing::Indirect(w) => {
            let target = read_word(mem, w);
            Some((target, w))
        },
        Addressing::IndirectX(z) => {
            let p = z as u16 + reg.x as u16;
            let target = read_word(mem, p);
            Some((target, p))
        },
        Addressing::IndirectY(z) => {
            let base = read_word(mem, z as u16);
            Some((index_address(base, reg.y), base))
        },
        _ => None,
    }
}

/// The value of an operand and whether indexing crossed a page to fetch it;
/// `None` for an operand that holds no value.
pub fn read_mem(a: Addressing, mem: &mut MemMap, reg: &Registers) -> (r: Option<(u8, bool)>)
    requires
        old(mem).wf(),
    ensures
        final(mem).wf(),
        match operand(a, *reg, old(mem)@) {
            None => r is None,
            Some((v, crossed, m)) => r == Some((v, crossed)) && final(mem)@ == m,
        },
{
    match a {
        Addressing::Immediate(v) => Some((v, false)),
        Addressing::Accumulator => Some((reg.acc, false)),
        _ => match resolve_address(a, mem, reg) {
            None => None,
            Some((ea, base)) => {
                let v = mem.read(ea);
                let indexed = match a {
                    Addressing::AbsoluteX(_) | Addressing::AbsoluteY(_)
                    | Addressing::IndirectY(_) => true,
                    _ => false,
                };
                Some((v, indexed && page_crossed(base, ea)))
            },
        },
    }
}

/// Stores `val` into an operand; false for an operand that cannot be stored into.
pub fn write_mem(val: u8, a: Addressing, mem: &mut MemMap, reg: &mut Registers) -> (ok: bool)
    requires
        old(mem).wf(),
    ensures
        final(mem).wf(),
        match stored(a, *old(reg), old(mem)@, val) {
            None => !ok,
            Some((m, r)) => ok && final(mem)@ == m && *final(reg) == r,
        },
{
    match a {
        Addressing::Accumulator => {
            reg.acc = val;
            true
        },
        _ => match resolve_address(a, mem, reg) {
            None => false,
            Some((ea, _)) => {
                mem.write(ea, val);
                true
            },
        },
    }
}

/// Flags with zero and negative set from `v`.
fn set_nz(s: StatusFlags, v: u8) -> (r: StatusFlags)
    ensures
        r == with_nz(s, v),
{
    StatusFlags { zero: v == 0, negative: v >= 0x80, ..s }
}

/// Flags after comparing a register with `v`.
fn compare(s: StatusFlags, reg: u8, v: u8) -> (r: StatusFlags)
    ensures
        r == compared(s, reg, v),
{
    let diff: u8 = if reg >= v {
        reg - v
    } else {
        (reg as u16 + 256 - v as u16) as u8
    };
    StatusFlags { carry: reg >= v, zero: reg == v, negative: diff >= 128, ..s }
}

/// Registers after an operation that reads one operand value.
#[verifier::rlimit(100)]
fn apply_read_op(op: OpCode, r: &Registers, v: u8) -> (out: Registers)
    requires
        is_read_op(op),
    ensures
        out == read_op(op, *r, v),
{
    match op {
        OpCode::Adc => {
            let sum: u16 = r.acc as u16 + v as u16 + if r.status.carry {
                1
            } else {
                0
            };
            let res = (sum % 256) as u8;
            let overflow = (r.acc < 128) == (v < 128) && (res < 128) != (r.acc < 128);
            let out = Registers {
                acc: res,
                status: StatusFlags { carry: sum > 255, overflow, ..set_nz(r.status, res) },
                ..*r
            };
            assert(out == adc(*r, v));
            out
        },
        OpCode::Sbc => {
            let borrow: i16 = if r.status.carry {
                0
            } else {
                1
            };
            let diff: i16 = r.acc as i16 - v as i16 - borrow;
            let res: u8 = if diff >= 0 {
                diff as u8
            } else {
                (diff + 256) as u8
            };
            let overflow = (r.acc < 128) != (v < 128) && (res < 128) != (r.acc < 128);
            let out = Registers {
                acc: res,
                status: StatusFlags { carry: diff >= 0, overflow, ..set_nz(r.status, res) },
                ..*r
            };
            assert(out == sbc(*r, v));
            out
        },
        OpCode::And => Registers { acc: r.acc & v, status: set_nz(r.status, r.acc & v), ..*r },
        OpCode::Ora => Registers { acc: r.acc | v, status: set_nz(r.status, r.acc | v), ..*r },
        OpCode::Eor => Registers { acc: r.acc ^ v, status: set_nz(r.status, r.acc ^ v), ..*r },
        OpCode::Lda => Registers { acc: v, status: set_nz(r.status, v), ..*r },
        OpCode::Ldx => Registers { x: v, status: set_nz(r.status, v), ..*r },
        OpCode::Ldy => Registers { y: v, status: set_nz(r.status, v), ..*r },
        OpCode::Cmp => Registers { status: compare(r.status, r.acc, v), ..*r },
        OpCode::Cpx => Registers { status: compare(r.status, r.x, v), ..*r },
        OpCode::Cpy => Registers { status: compare(r.status, r.y, v), ..*r },
        _ => Registers {
            status: StatusFlags {
                zero: r.acc & v == 0,
                overflow: v & 0x40 != 0,
                negative: v >= 0x80,
                ..r.status
            },
            ..*r
        },
    }
}

/// The result and flags of a read-modify-write operation on `v`.
fn apply_modify_op(op: OpCode, s: StatusFlags, v: u8) -> (out: (u8, StatusFlags))
    requires
        is_modify_op(op),
    ensures
        out == modify_op(op, s, v),
{
    let c: u8 = if s.carry {
        1
    } else {
        0
    };
    let res: u8 = match op {
        OpCode::Asl => ((v as u16 * 2) % 256) as u8,
        OpCode::Lsr => v / 2,
        OpCode::Rol => ((v as u16 * 2) % 256 + c as u16) as u8,
        OpCode::Ror => v / 2 + c * 128,
        OpCode::Inc => v.wrapping_add(1),
        _ => v.wrapping_sub(1),
    };
    let carry = match op {
        OpCode::Asl | OpCode::Rol => v >= 128,
        OpCode::Lsr | OpCode::Ror => v % 2 == 1,
        _ => s.carry,
    };
    (res, set_nz(StatusFlags { carry, ..s }, res))
}

/// Registers after an operation that works on registers alone.
#[verifier::rlimit(100)]
fn apply_register_op(op: OpCode, r: &Registers) -> (out: Registers)
    requires
        is_register_op(op),
    ensures
        out == register_op(op, *r),
{
    match op {
        OpCode::Clc => Registers { status: StatusFlags { carry: false, ..r.status }, ..*r },
        OpCode::Cld => Registers { status: StatusFlags { decimal: false, ..r.status }, ..*r },
        OpCode::Cli => Registers { status: StatusFlags { interrupt: false, ..r.status }, ..*r },
        OpCode::Clv => Registers { status: StatusFlags { overflow: false, ..r.status }, ..*r },
        OpCode::Sec => Registers { status: StatusFlags { carry: true, ..r.status }, ..*r },
        OpCode::Sed => Registers { status: StatusFlags { decimal: true, ..r.status }, ..*r },
        OpCode::Sei => Registers { status: StatusFlags { interrupt: true, ..r.status }, ..*r },
        OpCode::Dex => {
            let v = r.x.wrapping_sub(1);
            Registers { x: v, status: set_nz(r.status, v), ..*r }
        },
        OpCode::Dey => {
            let v = r.y.wrapping_sub(1);
            Registers { y: v, status: set_nz(r.status, v), ..*r }
        },
        OpCode::Inx => {
            let v = r.x.wrapping_add(1);
            Registers { x: v, status: set_nz(r.status, v), ..*r }
        },
        OpCode::Iny => {
            let v = r.y.wrapping_add(1);
            Registers { y: v, status: set_nz(r.status, v), ..*r }
        },
        OpCode::Tax => Registers { x: r.acc, status: set_nz(r.status, r.acc), ..*r },
        OpCode::Tay => Registers { y: r.acc, status: set_nz(r.status, r.acc), ..*r },
        OpCode::Tsx => Registers { x: r.sp, status: set_nz(r.status, r.sp), ..*r },
        OpCode::Txa => Registers { acc: r.x, status: set_nz(r.status, r.x), ..*r },
        OpCode::Tya => Registers { acc: r.y, status: set_nz(r.status, r.y), ..*r },
        OpCode::Txs => Registers { sp: r.x, ..*r },
        _ => *r,
    }
}

/// Pushes the high byte of `w`, then its low byte.
fn push_word(w: u16, mem: &mut MemMap, reg: &mut Registers) -> (r: Result<(), StackError>)
    requires
        old(mem).wf(),
    ensures
        final(mem).wf(),
        match pushed_word(old(mem)@, *old(reg), w) {
            None => r == Err::<(), StackError>(StackError::Overflow),
            Some((m, rg)) => r is Ok && final(mem)@ == m && *final(reg) == rg,
        },
{
    push_stack((w / 256) as u8, mem, reg)?;
    push_stack((w % 256) as u8, mem, reg)
}

/// Pops a low byte, then a high byte, and gives the word they make.
fn pop_word(mem: &mut MemMap, reg: &mut Registers) -> (r: Result<u16, StackError>)
    requires
        old(mem).wf(),
    ensures
        final(mem).wf(),
        match popped_word(old(mem)@, *old(reg)) {
            None => r == Err::<u16, StackError>(StackError::Underflow),
            Some((w, m, rg)) => r == Ok::<u16, StackError>(w) && final(mem)@ == m && *final(reg)
                == rg,
        },
{
    let lo = pop_stack(mem, reg)?;
    let hi = pop_stack(mem, reg)?;
    Ok(lo as u16 + (hi as u16) * 256)
}

/// Pushes the program counter and `status`, then takes the vector at `vector`.
pub fn push_cpu_state(status: u8, vector: u16, mem: &mut MemMap, reg: &mut Registers) -> (r: Result<(), StackError>)
    requires
        old(mem).wf(),
    ensures
        final(mem).wf(),
        match interrupted(old(mem)@, *old(reg), status, vector) {
            None => r == Err::<(), StackError>(StackError::Overflow),
            Some((m, rg)) => r is Ok && final(mem)@ == m && *final(reg) == rg,
        },
{
    push_word(reg.pc, mem, reg)?;
    push_stack(status, mem, reg)?;
    reg.pc = read_word(mem, vector);
    Ok(())
}

fn execute_read_op(ins: Instruction, mem: &mut MemMap, reg: &mut Registers) -> (r: Result<usize, CpuError>)
    requires
        old(mem).wf(),
        is_read_op(ins.0),
        ins.2 < usize::MAX,
    ensures
        final(mem).wf(),
        outcome(r, final(mem)@, *final(reg), read_execution(ins, old(mem)@, *old(reg))),
{
    let (v, crossed) = match read_mem(ins.1, mem, reg) {
        Some(x) => x,
        None => return Err(CpuError::InvalidInstruction),
    };
    *reg = apply_read_op(ins.0, reg, v);
    let pays = match ins.0 {
        OpCode::Adc | OpCode::And | OpCode::Cmp | OpCode::Eor | OpCode::Lda | OpCode::Ldx
        | OpCode::Ldy | OpCode::Ora | OpCode::Sbc => true,
        _ => false,
    };
    Ok(ins.2 + if pays && crossed {
        1
    } else {
        0
    })
}

fn execute_modify_op(ins: Instruction, mem: &mut MemMap, reg: &mut Registers) -> (r: Result<usize, CpuError>)
    requires
        old(mem).wf(),
        is_modify_op(ins.0),
    ensures
        final(mem).wf(),
        outcome(r, final(mem)@, *final(reg), modify_execution(ins, old(mem)@, *old(reg))),
{
    let (v, _) = match read_mem(ins.1, mem, reg) {
        Some(x) => x,
        None => return Err(CpuError::InvalidInstruction),
    };
    let (res, status) = apply_modify_op(ins.0, reg.status, v);
    reg.status = status;
    if !write_mem(res, ins.1, mem, reg) {
        return Err(CpuError::InvalidInstruction);
    }
    Ok(ins.2)
}

fn execute_store(ins: Instruction, mem: &mut MemMap, reg: &mut Registers) -> (r: Result<usize, CpuError>)
    requires
        old(mem).wf(),
        ins.0 is Sta || ins.0 is Stx || ins.0 is Sty,
    ensures
        final(mem).wf(),
        outcome(r, final(mem)@, *final(reg), store_execution(ins, old(mem)@, *old(reg))),
{
    let v = match ins.0 {
        OpCode::Sta => reg.acc,
        OpCode::Stx => reg.x,
        _ => reg.y,
    };
    if !write_mem(v, ins.1, mem, reg) {
        return Err(CpuError::InvalidInstruction);
    }
    Ok(ins.2)
}

#[verifier::rlimit(100)]
fn execute_branch(ins: Instruction, mem: &mut MemMap, reg: &mut Registers) -> (r: Result<usize, CpuError>)
    requires
        old(mem).wf(),
        is_branch(ins.0),
        ins.2 + 2 <= usize::MAX,
    ensures
        final(mem).wf(),
        outcome(r, final(mem)@, *final(reg), branch_execution(ins, old(mem)@, *old(reg))),
{
    let offset = match ins.1 {
        Addressing::Relative(o) => o,
        _ => return Err(CpuError::InvalidInstruction),
    };
    let taken = match ins.0 {
        OpCode::Bcc => !reg.status.carry,
        OpCode::Bcs => reg.status.carry,
        OpCode::Beq => reg.status.zero,
        OpCode::Bne => !reg.status.zero,
        OpCode::Bmi => reg.status.negative,
        OpCode::Bpl => !reg.status.negative,
        OpCode::Bvc => !reg.status.overflow,
        _ => reg.status.overflow,
    };
    if !taken {
        return Ok(ins.2);
    }
    let old_pc = reg.pc;
    let t: i32 = old_pc as i32 + offset as i32;
    let target: u16 = if t < 0 {
        (t + 0x10000) as u16
    } else if t >= 0x10000 {
        (t - 0x10000) as u16
    } else {
        t as u16
    };
    assert(target == branch_target(old_pc, offset));
    reg.pc = target;
    Ok(ins.2 + 1 + if page_crossed(old_pc, target) {
        1
    } else {
        0
    })
}

fn execute_jump(ins: Instruction, mem: &mut MemMap, reg: &mut Registers) -> (r: Result<usize, CpuError>)
    requires
        old(mem).wf(),
        ins.0 is Jmp || ins.0 is Jsr,
    ensures
        final(mem).wf(),
        outcome(r, final(mem)@, *final(reg), jump_execution(ins, old(mem)@, *old(reg))),
{
    match (ins.0, ins.1) {
        (OpCode::Jmp, Addressing::Absolute(w)) => {
            reg.pc = w;
            Ok(ins.2)
        },
        (OpCode::Jmp, Addressing::Indirect(w)) => {
            reg.pc = read_word(mem, w);
            Ok(ins.2)
        },
        (OpCode::Jsr, Addressing::Absolute(w)) => {
            let ret = reg.pc.wrapping_sub(1);
            assert(ret == (reg.pc + 0xffff) % 0x10000);
            if push_word(ret, mem, reg).is_err() {
                return Err(CpuError::Stack(StackError::Overflow));
            }
            reg.pc = w;
            Ok(6)
        },
        _ => Err(CpuError::InvalidInstruction),
    }
}

fn execute_stack_op(ins: Instruction, mem: &mut MemMap, reg: &mut Registers) -> (r: Result<usize, CpuError>)
    requires
        old(mem).wf(),
        ins.0 is Pha || ins.0 is Php || ins.0 is Pla || ins.0 is Plp || ins.0 is Rti || ins.0 is Rts,
    ensures
        final(mem).wf(),
        outcome(r, final(mem)@, *final(reg), stack_execution(ins, old(mem)@, *old(reg))),
{
    match ins.0 {
        OpCode::Pha | OpCode::Php => {
            let v = if ins.0 == OpCode::Pha {
                reg.acc
            } else {
                reg.status.to_byte()
            };
            if push_stack(v, mem, reg).is_err() {
                return Err(CpuError::Stack(StackError::Overflow));
            }
            Ok(ins.2)
        },
        OpCode::Pla | OpCode::Plp => {
            let v = match pop_stack(mem, reg) {
                Ok(v) => v,
                Err(_) => return Err(CpuError::Stack(StackError::Underflow)),
            };
            if ins.0 == OpCode::Pla {
                reg.acc = v;
                reg.status = set_nz(reg.status, v);
            } else {
                reg.status = StatusFlags::from_byte(v);
            }
            Ok(ins.2)
        },
        OpCode::Rti => {
            let s = match pop_stack(mem, reg) {
                Ok(v) => v,
                Err(_) => return Err(CpuError::Stack(StackError::Underflow)),
            };
            let pc = match pop_word(mem, reg) {
                Ok(w) => w,
                Err(_) => return Err(CpuError::Stack(StackError::Underflow)),
            };
            reg.status = StatusFlags::from_byte(s);
            reg.pc = pc;
            Ok(6)
        },
        _ => {
            let pc = match pop_word(mem, reg) {
                Ok(w) => w,
                Err(_) => return Err(CpuError::Stack(StackError::Underflow)),
            };
            reg.pc = next_address(pc);
            Ok(6)
        },
    }
}

fn execute_brk(ins: Instruction, mem: &mut MemMap, reg: &mut Registers) -> (r: Result<usize, CpuError>)
    requires
        old(mem).wf(),
        ins.0 is Brk,
    ensures
        final(mem).wf(),
        outcome(r, final(mem)@, *final(reg), brk_execution(old(mem)@, *old(reg))),
{
    reg.status.brk = true;
    let status = reg.status.to_byte();
    if push_cpu_state(status, 0xfffe, mem, reg).is_err() {
        return Err(CpuError::Stack(StackError::Overflow));
    }
    reg.status.interrupt = true;
    Ok(7)
}

/// Executes one decoded instruction, giving the cycles it took.
pub fn execute_instruction(ins: Instruction, mem: &mut MemMap, reg: &mut Registers) -> (r: Result<usize, CpuError>)
    requires
        old(mem).wf(),
        ins.2 + 2 <= usize::MAX,
        !needs_decimal(ins.0, old(reg).status),
    ensures
        final(mem).wf(),
        outcome(r, final(mem)@, *final(reg), execution(ins, old(mem)@, *old(reg))),
{
    reveal(execution);
    match ins.0 {
        OpCode::Adc | OpCode::Sbc | OpCode::And | OpCode::Ora | OpCode::Eor | OpCode::Lda
        | OpCode::Ldx | OpCode::Ldy | OpCode::Cmp | OpCode::Cpx | OpCode::Cpy | OpCode::Bit => {
            execute_read_op(ins, mem, reg)
        },
        OpCode::Asl | OpCode::Lsr | OpCode::Rol | OpCode::Ror | OpCode::Inc | OpCode::Dec => {
            execute_modify_op(ins, mem, reg)
        },
        OpCode::Sta | OpCode::Stx | OpCode::Sty => execute_store(ins, mem, reg),
        OpCode::Bcc | OpCode::Bcs | OpCode::Beq | OpCode::Bne | OpCode::Bmi | OpCode::Bpl
        | OpCode::Bvc | OpCode::Bvs => execute_branch(ins, mem, reg),
        OpCode::Nop => Ok(2),
        OpCode::Jmp | OpCode::Jsr => execute_jump(ins, mem, reg),
        OpCode::Pha | OpCode::Php | OpCode::Pla | OpCode::Plp | OpCode::Rti | OpCode::Rts => {
            execute_stack_op(ins, mem, reg)
        },
        OpCode::Brk => execute_brk(ins, mem, reg),
        _ => {
            *reg = apply_register_op(ins.0, reg);
            Ok(ins.2)
        },
    }
}

} // verus!
