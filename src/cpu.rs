pub mod decode;
pub mod execute;
pub mod semantics;
pub mod stack;

use vstd::prelude::*;

use crate::cpu::decode::{spec_decode, word};
use crate::cpu::execute::{execute_instruction, push_cpu_state};
use crate::cpu::semantics::{execution, interrupted, needs_decimal, outcome};
use crate::memory::map::{overlay_at, MemMap, MemMapView};

pub use self::decode::decode_instruction;

verus! {

/// The operand of an instruction.
#[derive(Debug, PartialEq, Eq, Structural, Clone, Copy)]
pub enum Addressing {
    Implied,
    Accumulator,
    Immediate(u8),
    Relative(i8),
    ZeroPage(u8),
    ZeroPageX(u8),
    ZeroPageY(u8),
    Absolute(u16),
    AbsoluteX(u16),
    AbsoluteY(u16),
    Indirect(u16),
    IndirectX(u8),
    IndirectY(u8),
}

/// The kind of an operand, without its value.
#[derive(Debug, PartialEq, Eq, Structural, Clone, Copy)]
pub enum AddressingMode {
    Implied,
    Accumulator,
    Immediate,
    Relative,
    ZeroPage,
    ZeroPageX,
    ZeroPageY,
    Absolute,
    AbsoluteX,
    AbsoluteY,
    Indirect,
    IndirectX,
    IndirectY,
}

/// The 56 operations of the 6502.
#[derive(Debug, PartialEq, Eq, Structural, Clone, Copy)]
pub enum OpCode {
    Adc,
    And,
    Asl,
    Bcc,
    Bcs,
    Beq,
    Bit,
    Bmi,
    Bne,
    Bpl,
    Brk,
    Bvc,
    Bvs,
    Clc,
    Cld,
    Cli,
    Clv,
    Cmp,
    Cpx,
    Cpy,
    Dec,
    Dex,
    Dey,
    Eor,
    Inc,
    Inx,
    Iny,
    Jmp,
    Jsr,
    Lda,
    Ldx,
    Ldy,
    Lsr,
    Nop,
    Ora,
    Pha,
    Php,
    Pla,
    Plp,
    Rol,
    Ror,
    Rti,
    Rts,
    Sbc,
    Sec,
    Sed,
    Sei,
    Sta,
    Stx,
    Sty,
    Tax,
    Tay,
    Tsx,
    Txa,
    Txs,
    Tya,
}

/// An operation, its operand and its base cycle count.
#[derive(Debug, PartialEq, Eq, Structural, Clone, Copy)]
pub struct Instruction(pub OpCode, pub Addressing, pub usize);

/// The bytes at the program counter hold no instruction.
#[derive(Debug, PartialEq, Eq, Structural, Clone, Copy)]
pub struct InstructionDecodeError;

/// The processor status flags.
#[derive(Debug, PartialEq, Eq, Structural, Clone, Copy)]
pub struct StatusFlags {
    pub negative: bool,
    pub overflow: bool,
    pub brk: bool,
    pub decimal: bool,
    pub interrupt: bool,
    pub zero: bool,
    pub carry: bool,
}

/// All flags clear.
pub open spec fn clear_flags() -> StatusFlags {
    StatusFlags {
        negative: false,
        overflow: false,
        brk: false,
        decimal: false,
        interrupt: false,
        zero: false,
        carry: false,
    }
}

/// The value of one flag as a bit of the status byte.
pub open spec fn flag_bit(f: bool, weight: int) -> int {
    if f {
        weight
    } else {
        0
    }
}

/// The status byte that the flags pack into; bit 5 is always set.
pub open spec fn status_byte(f: StatusFlags) -> u8 {
    (flag_bit(f.carry, 1) + flag_bit(f.zero, 2) + flag_bit(f.interrupt, 4) + flag_bit(
        f.decimal,
        8,
    ) + flag_bit(f.brk, 16) + 32 + flag_bit(f.overflow, 64) + flag_bit(f.negative, 128)) as u8
}

/// The flags that a status byte unpacks into.
pub open spec fn flags_of_byte(b: u8) -> StatusFlags {
    StatusFlags {
        carry: b & 0x01 != 0,
        zero: b & 0x02 != 0,
        interrupt: b & 0x04 != 0,
        decimal: b & 0x08 != 0,
        brk: b & 0x10 != 0,
        overflow: b & 0x40 != 0,
        negative: b & 0x80 != 0,
    }
}

impl StatusFlags {
    /// All flags clear.
    pub fn new() -> (f: StatusFlags)
        ensures
            f == clear_flags(),
    {
        StatusFlags {
            negative: false,
            overflow: false,
            brk: false,
            decimal: false,
            interrupt: false,
            zero: false,
            carry: false,
        }
    }

    /// The status byte, with bit 5 set.
    pub fn to_byte(&self) -> (b: u8)
        ensures
            b == status_byte(*self),
    {
        let mut b: u8 = 0x20;
        if self.carry {
            b = b + 0x01;
        }
        if self.zero {
            b = b + 0x02;
        }
        if self.interrupt {
            b = b + 0x04;
        }
        if self.decimal {
            b = b + 0x08;
        }
        if self.brk {
            b = b + 0x10;
        }
        if self.overflow {
            b = b + 0x40;
        }
        if self.negative {
            b = b + 0x80;
        }
        b
    }

    /// The flags held in a status byte.
    pub fn from_byte(b: u8) -> (f: StatusFlags)
        ensures
            f == flags_of_byte(b),
    {
        StatusFlags {
            carry: b & 0x01 != 0,
            zero: b & 0x02 != 0,
            interrupt: b & 0x04 != 0,
            decimal: b & 0x08 != 0,
            brk: b & 0x10 != 0,
            overflow: b & 0x40 != 0,
            negative: b & 0x80 != 0,
        }
    }
}

impl From<u8> for StatusFlags {
    fn from(b: u8) -> (f: StatusFlags) {
        StatusFlags::from_byte(b)
    }
}

impl vstd::std_specs::convert::FromSpecImpl<u8> for StatusFlags {
    open spec fn obeys_from_spec() -> bool {
        true
    }

    open spec fn from_spec(b: u8) -> StatusFlags {
        flags_of_byte(b)
    }
}

/// The registers of the 6502.
#[derive(Debug, PartialEq, Eq, Structural, Clone, Copy)]
pub struct Registers {
    pub pc: u16,
    pub sp: u8,
    pub acc: u8,
    pub x: u8,
    pub y: u8,
    pub status: StatusFlags,
}

impl Registers {
    /// All registers zero and all flags clear.
    pub fn new() -> (r: Registers)
        ensures
            r.pc == 0,
            r.sp == 0,
            r.acc == 0,
            r.x == 0,
            r.y == 0,
            r.status == clear_flags(),
    {
        Registers { pc: 0, sp: 0, acc: 0, x: 0, y: 0, status: StatusFlags::new() }
    }
}

/// Memory that cannot be reached.
#[derive(Debug, PartialEq, Eq, Structural, Clone, Copy)]
pub struct MemoryAccessError;

/// A fault of the stack.
#[derive(Debug, PartialEq, Eq, Structural, Clone, Copy)]
pub enum StackError {
    Overflow,
    Underflow,
    Unavailable,
}

/// A fault that stops the CPU.
#[derive(Debug, PartialEq, Eq, Structural, Clone, Copy)]
pub enum CpuError {
    Memory(MemoryAccessError),
    Stack(StackError),
    InvalidInstruction,
    Paused,
}

impl StackError {
    pub fn description(&self) -> &'static str {
        match self {
            StackError::Overflow => "Stack overflow",
            StackError::Underflow => "Stack underflow",
            StackError::Unavailable => "Stack not present",
        }
    }
}

impl MemoryAccessError {
    pub fn description(&self) -> &'static str {
        "Attempted to access an invalid memory location"
    }
}

impl CpuError {
    pub fn description(&self) -> &'static str {
        match self {
            CpuError::Memory(e) => e.description(),
            CpuError::Stack(e) => e.description(),
            CpuError::Paused => "CPU paused",
            CpuError::InvalidInstruction => "Invalid instruction",
        }
    }
}

impl From<MemoryAccessError> for CpuError {
    fn from(e: MemoryAccessError) -> (r: CpuError) {
        CpuError::Memory(e)
    }
}

impl vstd::std_specs::convert::FromSpecImpl<MemoryAccessError> for CpuError {
    open spec fn obeys_from_spec() -> bool {
        true
    }

    open spec fn from_spec(e: MemoryAccessError) -> CpuError {
        CpuError::Memory(e)
    }
}

impl From<StackError> for CpuError {
    fn from(e: StackError) -> (r: CpuError) {
        CpuError::Stack(e)
    }
}

impl vstd::std_specs::convert::FromSpecImpl<StackError> for CpuError {
    open spec fn obeys_from_spec() -> bool {
        true
    }

    open spec fn from_spec(e: StackError) -> CpuError {
        CpuError::Stack(e)
    }
}

/// Memory that cannot be reached leaves no stack.
impl From<MemoryAccessError> for StackError {
    fn from(e: MemoryAccessError) -> (r: StackError) {
        StackError::Unavailable
    }
}

impl vstd::std_specs::convert::FromSpecImpl<MemoryAccessError> for StackError {
    open spec fn obeys_from_spec() -> bool {
        true
    }

    open spec fn from_spec(e: MemoryAccessError) -> StackError {
        StackError::Unavailable
    }
}

impl From<InstructionDecodeError> for CpuError {
    fn from(e: InstructionDecodeError) -> (r: CpuError) {
        CpuError::InvalidInstruction
    }
}

impl vstd::std_specs::convert::FromSpecImpl<InstructionDecodeError> for CpuError {
    open spec fn obeys_from_spec() -> bool {
        true
    }

    open spec fn from_spec(e: InstructionDecodeError) -> CpuError {
        CpuError::InvalidInstruction
    }
}

/// The instruction at `pc`, with its length; at most four bytes are looked at.
pub open spec fn fetch(m: MemMapView, pc: u16) -> Option<(usize, Instruction)> {
    spec_decode(
        m.bytes.subrange(pc as int, if pc + 4 <= 0x10000 { pc + 4 } else { 0x10000 }),
    )
}

/// What one step does: the instruction at the program counter is fetched, the
/// counter moves past it, and the instruction is executed.
pub open spec fn step_execution(m: MemMapView, r: Registers) -> Result<
    (usize, MemMapView, Registers),
    CpuError,
> {
    match fetch(m, r.pc) {
        None => Err(CpuError::InvalidInstruction),
        Some((n, ins)) => execution(ins, m, Registers { pc: ((r.pc + n) % 0x10000) as u16, ..r }),
    }
}

/// Whether the next step would add or subtract in decimal mode, which is not
/// emulated.
pub open spec fn decimal_fault(m: MemMapView, r: Registers) -> bool {
    fetch(m, r.pc) matches Some((_, ins)) && needs_decimal(ins.0, r.status)
}

/// The 6502 processor.
pub struct Cpu {
    registers: Registers,
}

impl View for Cpu {
    type V = Registers;

    closed spec fn view(&self) -> Registers {
        self.registers
    }
}

impl Cpu {
    /// The registers of a fresh processor: all zero.
    pub open spec fn new_view() -> Registers {
        Registers { pc: 0, sp: 0, acc: 0, x: 0, y: 0, status: clear_flags() }
    }

    /// A processor with all registers zero.
    pub fn new() -> (c: Cpu)
        ensures
            c@ == Cpu::new_view(),
    {
        Cpu { registers: Registers::new() }
    }

    pub fn program_counter(&self) -> (pc: u16)
        ensures
            pc == self@.pc,
    {
        self.registers.pc
    }

    pub fn registers(&self) -> (r: &Registers)
        ensures
            *r == self@,
    {
        &self.registers
    }

    /// Clears the scratch byte at 0xfe and loads the program counter from the
    /// reset vector.
    pub fn initialize(&mut self, mem: &mut MemMap) -> (r: Result<(), CpuError>)
        requires
            old(mem).wf(),
        ensures
            final(mem).wf(),
            r is Ok,
            ({
                let m0 = MemMapView {
                    bytes: overlay_at(old(mem)@.bytes, 0xfe, seq![0u8]),
                    ..old(mem)@
                };
                &&& final(self)@ == (Registers { pc: word(m0.bytes[0xfffc], m0.bytes[0xfffd]), ..old(self)@ })
                &&& final(mem)@ == m0.read_from(0xfffc).read_from(0xfffd)
            }),
    {
        proof {
            mem.lemma_wf();
        }
        let scratch: Vec<u8> = vec![0u8];
        assert(scratch@ =~= seq![0u8]);
        mem.copy_into(0xfe, scratch.as_slice());
        let low = mem.read(0xfffc);
        let hi = mem.read(0xfffd);
        self.registers.pc = low as u16 + (hi as u16) * 256;
        Ok(())
    }

    /// Whether the next step would add or subtract in decimal mode.
    pub fn decimal_mode_pending(&self, mem: &MemMap) -> (r: bool)
        requires
            mem.wf(),
        ensures
            r == decimal_fault(mem@, self@),
    {
        proof {
            mem.lemma_wf();
        }
        let pc = self.registers.pc as usize;
        let end = if pc + 4 <= 0x10000 { pc + 4 } else { 0x10000 };
        let region = match mem.region(pc..end) {
            Ok(v) => v,
            Err(e) => e.0,
        };
        match decode_instruction(region.0) {
            Ok((_, ins)) => (ins.0 == OpCode::Adc || ins.0 == OpCode::Sbc) && self.registers.status.decimal,
            Err(_) => false,
        }
    }

    /// Fetches, decodes and executes one instruction, giving the cycles it took.
    pub fn step(&mut self, mem: &mut MemMap) -> (r: Result<usize, CpuError>)
        requires
            old(mem).wf(),
            !decimal_fault(old(mem)@, old(self)@),
        ensures
            final(mem).wf(),
            outcome(r, final(mem)@, final(self)@, step_execution(old(mem)@, old(self)@)),
            fetch(old(mem)@, old(self)@.pc) is None ==> final(mem)@ == old(mem)@ && final(self)@
                == old(self)@,
    {
        proof {
            mem.lemma_wf();
        }
        let pc = self.registers.pc as usize;
        let end = if pc + 4 <= 0x10000 { pc + 4 } else { 0x10000 };
        let decoded = {
            let region = match mem.region(pc..end) {
                Ok(v) => v,
                Err(e) => e.0,
            };
            decode_instruction(region.0)
        };
        let (bytes, ins) = match decoded {
            Ok(d) => d,
            Err(_) => return Err(CpuError::InvalidInstruction),
        };
        let next = self.registers.pc as u32 + bytes as u32;
        self.registers.pc = if next >= 0x10000 { (next - 0x10000) as u16 } else { next as u16 };
        execute_instruction(ins, mem, &mut self.registers)
    }

    /// A non-maskable interrupt: the program counter and status are pushed and
    /// the NMI vector is taken.
    pub fn non_maskable_interrupt(&mut self, mem: &mut MemMap) -> (r: Result<(), CpuError>)
        requires
            old(mem).wf(),
        ensures
            final(mem).wf(),
            match interrupted(old(mem)@, old(self)@, status_byte(old(self)@.status), 0xfffa) {
                None => r == Err::<(), CpuError>(CpuError::Stack(StackError::Overflow)),
                Some((m, rg)) => r is Ok && final(mem)@ == m && final(self)@ == rg,
            },
    {
        let status = self.registers.status.to_byte();
        match push_cpu_state(status, 0xfffa, mem, &mut self.registers) {
            Ok(()) => Ok(()),
            Err(e) => Err(CpuError::Stack(e)),
        }
    }

    /// An interrupt request: taken, and true, unless interrupts are masked; a
    /// taken one pushes the program counter and status, takes the IRQ vector
    /// and masks further interrupts.
    pub fn interrupt_request(&mut self, mem: &mut MemMap) -> (r: Result<bool, CpuError>)
        requires
            old(mem).wf(),
        ensures
            final(mem).wf(),
            old(self)@.status.interrupt ==> r == Ok::<bool, CpuError>(false) && final(mem)@
                == old(mem)@ && final(self)@ == old(self)@,
            !old(self)@.status.interrupt ==> match interrupted(
                old(mem)@,
                old(self)@,
                status_byte(old(self)@.status),
                0xfffe,
            ) {
                None => r == Err::<bool, CpuError>(CpuError::Stack(StackError::Overflow)),
                Some((m, rg)) => r == Ok::<bool, CpuError>(true) && final(mem)@ == m
                    && final(self)@ == (Registers {
                    status: StatusFlags { interrupt: true, ..rg.status },
                    ..rg
                }),
            },
    {
        if self.registers.status.interrupt {
            return Ok(false);
        }
        let status = self.registers.status.to_byte();
        match push_cpu_state(status, 0xfffe, mem, &mut self.registers) {
            Ok(()) => {
                self.registers.status.interrupt = true;
                Ok(true)
            },
            Err(e) => Err(CpuError::Stack(e)),
        }
    }
}

} // verus!
