use vstd::prelude::*;

use crate::cpu::decode::word;
use crate::cpu::semantics::interrupted;
use crate::cpu::{decimal_fault, status_byte, step_execution, Cpu, CpuError, Registers, StackError, StatusFlags};
use crate::memory::map::{overlay_at, MemMap, MemMapView};
use crate::via::system::{drained, pending, reacted, timed, window_rendered, SystemView};
use crate::via::System;
use crate::video::crtc::{crtc_stepped, drawn, programmed, Crtc6845, CrtcView};
use crate::video::framebuffer::{FrameBuffer, FrameView};

verus! {

/// How a step of the emulator ended.
#[derive(Debug, PartialEq, Eq, Structural, Clone, Copy)]
pub enum StepResult {
    /// The CPU ran an instruction of this many cycles.
    Progressed(usize),
    Paused,
    Exit,
}

/// A machine that runs step by step.
pub trait Emulator {
    spec fn ready(&self) -> bool;

    spec fn can_step(&self) -> bool;

    fn place_rom_at(&mut self, location: u16, rom: &[u8])
        requires
            old(self).ready(),
        ensures
            final(self).ready(),
    ;

    fn initialize(&mut self) -> (r: Result<(), CpuError>)
        requires
            old(self).ready(),
        ensures
            final(self).ready(),
    ;

    fn step<K: Fn(u8) -> bool>(&mut self, fb: &mut FrameBuffer, key_eval: K) -> (r: Result<StepResult, CpuError>)
        requires
            old(self).ready(),
            old(self).can_step(),
        ensures
            final(self).ready(),
    ;

    fn cpu(&self) -> &Cpu;

    fn mem(&self) -> &MemMap;

    fn keydown(&mut self, key: u32)
        requires
            old(self).ready(),
        ensures
            final(self).ready(),
    ;

    fn keyup(&mut self, key: u32)
        requires
            old(self).ready(),
        ensures
            final(self).ready(),
    ;

    fn clear_keyboard_buffer(&mut self)
        requires
            old(self).ready(),
        ensures
            final(self).ready(),
    ;
}

/// The microcomputer: a CPU, its memory, the CRT controller and the system VIA,
/// with the glyph rows that teletext mode shows.
pub struct BbcEmulator {
    cpu: Cpu,
    mem: MemMap,
    video: Crtc6845,
    system_via: System,
    glyphs: Vec<Vec<u8>>,
}

/// The abstract state of the machine.
pub struct EmulatorView {
    pub cpu: Registers,
    pub mem: MemMapView,
    pub video: CrtcView,
    pub via: SystemView,
    pub glyphs: Seq<Seq<u8>>,
}

impl View for BbcEmulator {
    type V = EmulatorView;

    closed spec fn view(&self) -> EmulatorView {
        EmulatorView {
            cpu: self.cpu@,
            mem: self.mem@,
            video: self.video@,
            via: self.system_via@,
            glyphs: self.glyphs@.map_values(|g: Vec<u8>| g@),
        }
    }
}

/// Memory with the last hardware access forgotten.
pub open spec fn access_cleared(m: MemMapView) -> MemMapView {
    MemMapView { last_hw_read: None, last_hw_write: None, ..m }
}

/// Whether a step of the machine ended as `r` and left it as `after`, with the
/// frame `f0` become `f1`: the CPU runs one instruction, the VIA and then the
/// CRT controller see its cycles and its last hardware access (the controller
/// draws into the frame), an interrupt that the VIA requests is offered to the
/// CPU, and the last hardware access is forgotten.
pub open spec fn stepped(
    before: EmulatorView,
    after: EmulatorView,
    f0: FrameView,
    f1: FrameView,
    r: Result<StepResult, CpuError>,
) -> bool {
    &&& after.glyphs == before.glyphs
    &&& match step_execution(before.mem, before.cpu) {
        Err(e) => r == Err::<StepResult, CpuError>(e) && f1 == f0,
        Ok((c, m1, r1)) => {
            let v = timed(reacted(before.via, m1.last_hw_write), c as u64);
            let m2 = window_rendered(m1, drained(v).registers);
            let p = programmed(before.video, m2.last_hw_write);
            &&& after.via == drained(v)
            &&& after.video == crtc_stepped(before.video, m2.last_hw_write, c as nat)
            &&& f1 == drawn(p, p.state, m2.bytes, before.glyphs, f0, c as nat)
            &&& if pending(v) != 0 && !r1.status.interrupt {
                match interrupted(m2, r1, status_byte(r1.status), 0xfffe) {
                    None => r == Err::<StepResult, CpuError>(CpuError::Stack(StackError::Overflow)),
                    Some((m3, r3)) => {
                        &&& r == Ok::<StepResult, CpuError>(StepResult::Progressed(c))
                        &&& after.cpu == Registers {
                            status: StatusFlags { interrupt: true, ..r3.status },
                            ..r3
                        }
                        &&& after.mem == access_cleared(m3)
                    },
                }
            } else {
                &&& r == Ok::<StepResult, CpuError>(StepResult::Progressed(c))
                &&& after.cpu == r1
                &&& after.mem == access_cleared(m2)
            }
        },
    }
}

impl BbcEmulator {
    pub closed spec fn wf(&self) -> bool {
        &&& self.mem.wf()
        &&& self.video.wf()
        &&& self.system_via.wf()
    }

    /// A well-formed machine has a well-formed 64 KiB memory.
    pub proof fn lemma_wf(&self)
        requires
            self.wf(),
        ensures
            self@.mem.wf(),
    {
        self.mem.lemma_wf();
    }

    /// A machine around the given memory, with a fresh CPU and peripherals and
    /// no glyphs.
    pub fn with_memory(mem: MemMap) -> (e: BbcEmulator)
        requires
            mem.wf(),
        ensures
            e.wf(),
            e@.mem == mem@,
            e@.cpu == Cpu::new_view(),
            e@.video == crate::video::crtc::crtc_at_reset(),
            e@.via == crate::via::system::system_at_reset(),
            e@.glyphs.len() == 0,
    {
        BbcEmulator {
            cpu: Cpu::new(),
            mem,
            video: Crtc6845::new(),
            system_via: System::new(),
            glyphs: Vec::new(),
        }
    }

    /// Sets the glyph rows that teletext mode shows: the rows of the glyph for
    /// character code `0x20 + i` are `glyphs[i]`.
    pub fn set_glyphs(&mut self, glyphs: Vec<Vec<u8>>)
        ensures
            final(self)@ == (EmulatorView {
                glyphs: glyphs@.map_values(|g: Vec<u8>| g@),
                ..old(self)@
            }),
            final(self).wf() == old(self).wf(),
    {
        self.glyphs = glyphs;
    }

    /// Whether the next step would add or subtract in decimal mode, which is
    /// not emulated.
    pub fn decimal_mode_pending(&self) -> (b: bool)
        requires
            self.wf(),
        ensures
            b == decimal_fault(self@.mem, self@.cpu),
    {
        self.cpu.decimal_mode_pending(&self.mem)
    }
}

impl Emulator for BbcEmulator {
    open spec fn ready(&self) -> bool {
        self.wf()
    }

    open spec fn can_step(&self) -> bool {
        !decimal_fault(self@.mem, self@.cpu)
    }

    /// Copies a ROM image into memory from `location`, cut off at the end of
    /// memory.
    fn place_rom_at(&mut self, location: u16, rom: &[u8])
        ensures
            final(self)@ == (EmulatorView {
                mem: MemMapView {
                    bytes: overlay_at(old(self)@.mem.bytes, location as int, rom@),
                    ..old(self)@.mem
                },
                ..old(self)@
            }),
    {
        self.mem.copy_into(location as usize, rom);
    }

    fn initialize(&mut self) -> (r: Result<(), CpuError>)
        ensures
            r is Ok,
            ({
                let m0 = MemMapView {
                    bytes: overlay_at(old(self)@.mem.bytes, 0xfe, seq![0u8]),
                    ..old(self)@.mem
                };
                final(self)@ == EmulatorView {
                    cpu: Registers { pc: word(m0.bytes[0xfffc], m0.bytes[0xfffd]), ..old(self)@.cpu },
                    mem: m0.read_from(0xfffc).read_from(0xfffd),
                    ..old(self)@
                }
            }),
    {
        self.cpu.initialize(&mut self.mem)
    }

    fn step<K: Fn(u8) -> bool>(&mut self, fb: &mut FrameBuffer, key_eval: K) -> (r: Result<StepResult, CpuError>)
        ensures
            stepped(old(self)@, final(self)@, old(fb)@, final(fb)@, r),
    {
        let cycles = self.cpu.step(&mut self.mem)?;
        let irq = self.system_via.step(cycles, &mut self.mem, key_eval);
        self.video.step(cycles, &self.mem, fb, &self.glyphs);
        if irq {
            self.cpu.interrupt_request(&mut self.mem)?;
        }
        self.mem.clear_last_hw_access();
        Ok(StepResult::Progressed(cycles))
    }

    fn cpu(&self) -> (c: &Cpu)
        ensures
            c@ == self@.cpu,
    {
        &self.cpu
    }

    fn mem(&self) -> (m: &MemMap)
        ensures
            m@ == self@.mem,
    {
        &self.mem
    }

    fn keydown(&mut self, key: u32)
        ensures
            final(self)@ == (EmulatorView {
                via: SystemView {
                    registers: crate::via::registers::RegistersView {
                        keys: if old(self)@.via.registers.keys.len() + 1
                            < crate::via::registers::KEY_RING_SIZE {
                            old(self)@.via.registers.keys.push(key)
                        } else {
                            Seq::empty()
                        },
                        interrupts: crate::via::interrupts::fired(
                            old(self)@.via.registers.interrupts,
                            crate::via::interrupts::type_bit(crate::via::interrupts::InterruptType::Keyboard),
                        ),
                        ..old(self)@.via.registers
                    },
                    ..old(self)@.via
                },
                ..old(self)@
            }),
    {
        self.system_via.keydown(key);
    }

    fn keyup(&mut self, key: u32) {
        self.system_via.keyup(key);
    }

    fn clear_keyboard_buffer(&mut self)
        ensures
            final(self)@ == (EmulatorView {
                via: SystemView {
                    registers: crate::via::registers::RegistersView {
                        keys: Seq::empty(),
                        ..old(self)@.via.registers
                    },
                    ..old(self)@.via
                },
                ..old(self)@
            }),
    {
        self.system_via.clear_keyboard_buffer();
    }
}

} // verus!
