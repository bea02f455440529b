use vstd::prelude::*;

use crate::cpu::semantics::{popped, pushed, stack_address, STACK_BOTTOM};
use crate::cpu::{Registers, StackError};
use crate::memory::map::MemMap;

verus! {

/// Writes `val` at the stack pointer and moves the pointer down; a stack
/// pointer already at the bottom is an overflow.
pub fn push_stack(val: u8, mem: &mut MemMap, reg: &mut Registers) -> (r: Result<(), StackError>)
    requires
        old(mem).wf(),
    ensures
        final(mem).wf(),
        match pushed(old(mem)@, *old(reg), val) {
            None => r == Err::<(), StackError>(StackError::Overflow) && *final(reg) == *old(reg)
                && final(mem)@ == old(mem)@.written(stack_address(old(reg).sp), val),
            Some((m, rg)) => r is Ok && final(mem)@ == m && *final(reg) == rg,
        },
{
    mem.write(STACK_BOTTOM + reg.sp as u16, val);
    if reg.sp == 0 {
        return Err(StackError::Overflow);
    }
    reg.sp = reg.sp - 1;
    Ok(())
}

/// Moves the stack pointer up and reads the byte there; a stack pointer
/// already at the top is an underflow.
pub fn pop_stack(mem: &mut MemMap, reg: &mut Registers) -> (r: Result<u8, StackError>)
    requires
        old(mem).wf(),
    ensures
        final(mem).wf(),
        match popped(old(mem)@, *old(reg)) {
            None => r == Err::<u8, StackError>(StackError::Underflow) && *final(reg) == *old(reg)
                && final(mem)@ == old(mem)@,
            Some((v, m, rg)) => r == Ok::<u8, StackError>(v) && final(mem)@ == m && *final(reg)
                == rg,
        },
{
    if reg.sp == 0xff {
        return Err(StackError::Underflow);
    }
    reg.sp = reg.sp + 1;
    let val = mem.read(STACK_BOTTOM + reg.sp as u16);
    Ok(val)
}

/// Popping what was just pushed gives it back and restores the stack pointer.
pub proof fn lemma_push_pop(m: crate::memory::map::MemMapView, r: Registers, v: u8)
    requires
        m.wf(),
        r.sp > 0,
    ensures
        pushed(m, r, v) matches Some((m1, r1)) && popped(m1, r1) matches Some((w, _, r2)) && w
            == v && r2.sp == r.sp && r2 == r,
{
    let a = stack_address(r.sp);
    let m1 = m.written(a, v);
    assert(a != crate::memory::map::PAGED_ROM_REGISTER);
    assert(m1.bytes[a as int] == v);
}

} // verus!
