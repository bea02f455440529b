use vstd::prelude::*;

use crate::memory::map::{overlay_at, MemMap, MemMapView};
use crate::via::interrupts::{
    cleared, enable_written, fired, type_bit, Enabled, Flags, InterruptType, InterruptsView,
};
use crate::via::peripheral_port::{DataDirection, PeripheralPort};
use crate::via::registers::{port_a2_written, port_b_written, rendered, Registers, RegistersView};

verus! {

/// Cycles of the 2 MHz clock in one millisecond.
pub const CYCLES_PER_MS: u64 = 2000;

/// Cycles between two timer interrupts: 20 ms.
pub const TIMER_INTERVAL: u64 = 40000;

/// First address of the register window.
pub const SYSTEM_VIA_REG_START: u16 = 0xfe40;

/// One past the last address of the register window.
pub const SYSTEM_VIA_REG_END: u16 = 0xfe50;

pub const PB_IO_REG: u16 = 0xfe40;

pub const PA1_IO_REG: u16 = 0xfe41;

pub const PB_DDR_REG: u16 = 0xfe42;

pub const PA_DDR_REG: u16 = 0xfe43;

pub const IFR_REGISTER: u16 = 0xfe4d;

pub const IER_REGISTER: u16 = 0xfe4e;

pub const PA2_IO_REG: u16 = 0xfe4f;

/// The system VIA: timers, interrupts, keyboard scan and port latches.
pub struct System {
    cycles_elapsed: u64,
    timer_count: u64,
    kb_write: bool,
    registers: Registers,
}

/// The abstract state of the system VIA.
pub struct SystemView {
    pub cycles_elapsed: u64,
    pub timer_count: u64,
    pub kb_write: bool,
    pub registers: RegistersView,
}

impl View for System {
    type V = SystemView;

    closed spec fn view(&self) -> SystemView {
        SystemView {
            cycles_elapsed: self.cycles_elapsed,
            timer_count: self.timer_count,
            kb_write: self.kb_write,
            registers: self.registers@,
        }
    }
}

/// Registers with the flags of `mask` cleared.
pub open spec fn flags_cleared(r: RegistersView, mask: u8) -> RegistersView {
    RegistersView {
        interrupts: InterruptsView { flags: cleared(r.interrupts.flags, mask), ..r.interrupts },
        ..r
    }
}

/// The VIA after it reacts to the CPU's last write to the hardware window.
pub open spec fn reacted(v: SystemView, write: Option<(u16, u8)>) -> SystemView {
    match write {
        Some((a, val)) => if a == PB_IO_REG {
            SystemView {
                kb_write: if val % 8 == 3 {
                    (val / 8) % 2 == 1
                } else {
                    v.kb_write
                },
                registers: flags_cleared(port_b_written(v.registers, val), 0x18),
                ..v
            }
        } else if a == PA1_IO_REG {
            SystemView { registers: flags_cleared(v.registers, 0x03), ..v }
        } else if a == PA2_IO_REG {
            SystemView { registers: flags_cleared(port_a2_written(v.registers, val), 0x03), ..v }
        } else if a == PB_DDR_REG {
            SystemView {
                registers: RegistersView {
                    pb: PeripheralPort { ddr: DataDirection(val), ..v.registers.pb },
                    ..v.registers
                },
                ..v
            }
        } else if a == PA_DDR_REG {
            SystemView {
                registers: RegistersView {
                    pa1: PeripheralPort { ddr: DataDirection(val), ..v.registers.pa1 },
                    pa2: PeripheralPort { ddr: DataDirection(val), ..v.registers.pa2 },
                    ..v.registers
                },
                ..v
            }
        } else if a == IFR_REGISTER {
            SystemView { registers: flags_cleared(v.registers, val), ..v }
        } else if a == IER_REGISTER {
            SystemView {
                registers: RegistersView {
                    interrupts: InterruptsView {
                        enabled: enable_written(v.registers.interrupts.enabled, val),
                        ..v.registers.interrupts
                    },
                    ..v.registers
                },
                ..v
            }
        } else {
            v
        },
        None => v,
    }
}

/// The VIA after `cycles` more cycles: a timer that reaches its interval
/// fires timer 1 and vertical sync, and gives the interval back.
pub open spec fn timed(v: SystemView, cycles: u64) -> SystemView {
    let count = if v.timer_count + cycles > u64::MAX {
        u64::MAX as int
    } else {
        v.timer_count + cycles
    };
    let elapsed = ((v.cycles_elapsed + cycles) % 0x1_0000_0000_0000_0000) as u64;
    if count >= TIMER_INTERVAL {
        let ints = fired(
            fired(v.registers.interrupts, type_bit(InterruptType::Timer1)),
            type_bit(InterruptType::VerticalSync),
        );
        SystemView {
            cycles_elapsed: elapsed,
            timer_count: (count - TIMER_INTERVAL) as u64,
            registers: RegistersView { interrupts: ints, ..v.registers },
            ..v
        }
    } else {
        SystemView { cycles_elapsed: elapsed, timer_count: count as u64, ..v }
    }
}

/// The armed sources fired since the last drain.
pub open spec fn pending(v: SystemView) -> u8 {
    v.registers.interrupts.signalled & v.registers.interrupts.enabled & 0x7f
}

/// The VIA with its signalled sources drained.
pub open spec fn drained(v: SystemView) -> SystemView {
    SystemView {
        registers: RegistersView {
            interrupts: InterruptsView { signalled: 0, ..v.registers.interrupts },
            ..v.registers
        },
        ..v
    }
}

proof fn lemma_keyboard_vsync_mask(s: Seq<InterruptType>)
    requires
        s =~= seq![InterruptType::Keyboard, InterruptType::VerticalSync],
    ensures
        crate::via::interrupts::mask_of(s) == 0x03,
{
    reveal_with_fuel(crate::via::interrupts::mask_of, 3);
    assert(s.drop_last() =~= seq![InterruptType::Keyboard]);
    assert(seq![InterruptType::Keyboard].drop_last() =~= Seq::<InterruptType>::empty());
    assert(0u8 | 0x01u8 | 0x02u8 == 0x03u8) by (bit_vector);
}

/// Memory with the register bytes that the CPU reads rendered into the VIA's
/// window.
pub open spec fn window_rendered(m: MemMapView, regs: RegistersView) -> MemMapView {
    MemMapView {
        bytes: overlay_at(
            m.bytes,
            SYSTEM_VIA_REG_START as int,
            rendered(regs, m.bytes.subrange(SYSTEM_VIA_REG_START as int, SYSTEM_VIA_REG_END as int)),
        ),
        ..m
    }
}

/// The VIA at power-on: no cycles counted, keyboard writes enabled, and its
/// registers at reset.
pub open spec fn system_at_reset() -> SystemView {
    SystemView {
        cycles_elapsed: 0,
        timer_count: 0,
        kb_write: true,
        registers: crate::via::registers::registers_at_reset(),
    }
}

impl System {
    pub closed spec fn wf(&self) -> bool {
        self.registers.wf()
    }

    pub fn new() -> (s: System)
        ensures
            s.wf(),
            s@ == system_at_reset(),
    {
        System { cycles_elapsed: 0, timer_count: 0, kb_write: true, registers: Registers::new() }
    }

    /// Reacts to the CPU's last write to the hardware window.
    fn process_reads_and_writes(&mut self, read: Option<u16>, write: Option<(u16, u8)>)
        requires
            old(self).wf(),
        ensures
            final(self).wf(),
            final(self)@ == reacted(old(self)@, write),
    {
        match write {
            Some((a, val)) => {
                if a == PB_IO_REG {
                    if val & 0x07 == 3 {
                        self.kb_write = val & 0x08 == 0x08;
                    }
                    assert((val & 0x07 == 3) == (val % 8 == 3) && (val & 0x08 == 0x08) == ((val / 8)
                        % 2 == 1)) by (bit_vector);
                    self.registers.write_port_b_io(val);
                    self.registers.clear_flags(Flags(0x18));
                } else if a == PA1_IO_REG {
                    self.registers.write_port_a1_io(val);
                    let sources = [InterruptType::Keyboard, InterruptType::VerticalSync];
                    proof {
                        lemma_keyboard_vsync_mask(sources@);
                    }
                    self.registers.clear_interrupts(&sources);
                } else if a == PA2_IO_REG {
                    self.registers.write_port_a2_io(val);
                    let sources = [InterruptType::Keyboard, InterruptType::VerticalSync];
                    proof {
                        lemma_keyboard_vsync_mask(sources@);
                    }
                    self.registers.clear_interrupts(&sources);
                } else if a == PB_DDR_REG {
                    self.registers.set_port_b_ddr(val);
                } else if a == PA_DDR_REG {
                    self.registers.set_port_a_ddr(val);
                } else if a == IFR_REGISTER {
                    self.registers.clear_flags(Flags(val));
                } else if a == IER_REGISTER {
                    self.registers.set_enabled(Enabled(val));
                }
            },
            None => {},
        }
    }

    /// Advances the VIA by `cycles`: it reacts to the CPU's last write to its
    /// registers, runs its timer, renders its registers into the window for
    /// the CPU to read, and tells whether an interrupt request is due.
    pub fn step<K: Fn(u8) -> bool>(&mut self, cycles: usize, mem: &mut MemMap, key_eval: K) -> (irq: bool)
        requires
            old(self).wf(),
            old(mem).wf(),
        ensures
            final(self).wf(),
            final(mem).wf(),
            ({
                let v = timed(reacted(old(self)@, old(mem)@.last_hw_write), cycles as u64);
                &&& irq == (pending(v) != 0)
                &&& final(self)@ == drained(v)
                &&& final(mem)@ == window_rendered(old(mem)@, drained(v).registers)
            }),
    {
        let c = cycles as u64;
        self.cycles_elapsed = self.cycles_elapsed.wrapping_add(c);
        self.timer_count = self.timer_count.saturating_add(c);
        let read = mem.last_hw_read();
        let write = mem.last_hw_write();
        let ghost before = self@;
        self.process_reads_and_writes(read, write);
        if self.timer_count >= TIMER_INTERVAL {
            self.registers.signal_one(InterruptType::Timer1);
            self.registers.signal_one(InterruptType::VerticalSync);
            self.timer_count = self.timer_count - TIMER_INTERVAL;
        }
        let ghost before_drain = self@;
        let signalled = self.registers.drain_signalled();
        let irq = signalled.0 & 0x7f != 0;
        proof {
            let s = before_drain.registers.interrupts.signalled;
            let e = before_drain.registers.interrupts.enabled;
            assert(s & (0x80 | (0x7f & e)) & 0x7f == s & e & 0x7f) by (bit_vector);
        }
        proof {
            mem.lemma_wf();
        }
        let mut window: Vec<u8> = vstd::slice::slice_to_vec(
            match mem.region(SYSTEM_VIA_REG_START as usize..SYSTEM_VIA_REG_END as usize) {
                Ok(v) => v.0,
                Err(e) => e.0.0,
            },
        );
        self.registers.write_to(&mut window);
        mem.copy_into(SYSTEM_VIA_REG_START as usize, window.as_slice());
        irq
    }

    /// Holds a host key.
    pub fn keydown(&mut self, keynum: u32)
        requires
            old(self).wf(),
        ensures
            final(self).wf(),
            final(self)@ == (SystemView {
                registers: RegistersView {
                    keys: if old(self)@.registers.keys.len() + 1 < crate::via::registers::KEY_RING_SIZE {
                        old(self)@.registers.keys.push(keynum)
                    } else {
                        Seq::empty()
                    },
                    interrupts: fired(
                        old(self)@.registers.interrupts,
                        type_bit(InterruptType::Keyboard),
                    ),
                    ..old(self)@.registers
                },
                ..old(self)@
            }),
    {
        self.registers.key_down(keynum);
    }

    /// Letting go of a key has no effect: held keys stay until the buffer is
    /// cleared.
    pub fn keyup(&mut self, keynum: u32)
        ensures
            final(self)@ == old(self)@,
            final(self).wf() == old(self).wf(),
    {
    }

    /// Lets go of all keys.
    pub fn clear_keyboard_buffer(&mut self)
        requires
            old(self).wf(),
        ensures
            final(self).wf(),
            final(self)@ == (SystemView {
                registers: RegistersView { keys: Seq::empty(), ..old(self)@.registers },
                ..old(self)@
            }),
    {
        self.registers.clear_keyboard_buffer();
    }
}

} // verus!
