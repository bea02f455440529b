use vstd::prelude::*;

use crate::via::interrupts::{
    cleared, enable_written, fired, mask_of, type_bit, Enabled, Flags, InterruptType, Interrupts,
    InterruptsView,
};
use crate::via::peripheral_port::{Io, PeripheralPort};

verus! {

/// Where a host key sits in the emulated keyboard matrix, as (row, column).
pub open spec fn key_position(key: u32) -> Option<(u8, u8)> {
    match key {
        10 => Some((4, 7)),
        11 => Some((4, 1)),
        12 => Some((6, 4)),
        13 => Some((3, 2)),
        14 => Some((2, 2)),
        15 => Some((4, 3)),
        16 => Some((5, 3)),
        17 => Some((5, 4)),
        18 => Some((2, 6)),
        19 => Some((4, 5)),
        20 => Some((4, 6)),
        21 => Some((5, 6)),
        22 => Some((6, 5)),
        23 => Some((5, 5)),
        24 => Some((3, 6)),
        25 => Some((3, 7)),
        26 => Some((0, 1)),
        27 => Some((3, 3)),
        28 => Some((5, 1)),
        29 => Some((2, 3)),
        30 => Some((3, 5)),
        31 => Some((6, 3)),
        32 => Some((2, 1)),
        33 => Some((4, 2)),
        34 => Some((4, 4)),
        35 => Some((6, 1)),
        _ => None,
    }
}

/// Looks a host key up in the keyboard matrix.
pub fn key_matrix_position(key: u32) -> (r: Option<(u8, u8)>)
    ensures
        r == key_position(key),
{
    match key {
        10 => Some((4, 7)),
        11 => Some((4, 1)),
        12 => Some((6, 4)),
        13 => Some((3, 2)),
        14 => Some((2, 2)),
        15 => Some((4, 3)),
        16 => Some((5, 3)),
        17 => Some((5, 4)),
        18 => Some((2, 6)),
        19 => Some((4, 5)),
        20 => Some((4, 6)),
        21 => Some((5, 6)),
        22 => Some((6, 5)),
        23 => Some((5, 5)),
        24 => Some((3, 6)),
        25 => Some((3, 7)),
        26 => Some((0, 1)),
        27 => Some((3, 3)),
        28 => Some((5, 1)),
        29 => Some((2, 3)),
        30 => Some((3, 5)),
        31 => Some((6, 3)),
        32 => Some((2, 1)),
        33 => Some((4, 2)),
        34 => Some((4, 4)),
        35 => Some((6, 1)),
        _ => None,
    }
}

/// The (row, column) that a keyboard probe byte asks about: row in bits 4 to 6,
/// column in bits 0 to 3.
pub open spec fn probe_position(probe: u8) -> (u8, u8) {
    (((probe / 16) % 8) as u8, (probe % 16) as u8)
}

/// Whether one of the held keys sits at the probed position.
pub open spec fn probe_hits(keys: Seq<u32>, probe: u8) -> bool {
    exists|j: int| 0 <= j < keys.len() && key_position(#[trigger] keys[j]) == Some(probe_position(probe))
}

/// The size of the ring of held keys.
pub const KEY_RING_SIZE: usize = 16;

/// A ring of up to sixteen held host keys.
pub struct KeyboardBuffer {
    buffer: Vec<u32>,
    next: usize,
    write_enabled: bool,
}

impl View for KeyboardBuffer {
    type V = Seq<u32>;

    /// The keys held, oldest first.
    closed spec fn view(&self) -> Seq<u32> {
        self.buffer@.take(self.next as int)
    }
}

impl Default for KeyboardBuffer {
    fn default() -> (k: KeyboardBuffer)
        ensures
            k.wf(),
            k@.len() == 0,
    {
        KeyboardBuffer { buffer: vec![0u32; KEY_RING_SIZE], next: 0, write_enabled: false }
    }
}

impl KeyboardBuffer {
    pub closed spec fn wf(&self) -> bool {
        self.buffer@.len() == KEY_RING_SIZE && self.next < KEY_RING_SIZE
    }

    pub proof fn lemma_len(&self)
        requires
            self.wf(),
        ensures
            self@.len() < KEY_RING_SIZE,
    {
    }

    /// Holds `keynum`; the ring wraps to empty after sixteen keys.
    pub fn key_down(&mut self, keynum: u32)
        requires
            old(self).wf(),
        ensures
            final(self).wf(),
            final(self)@ == if old(self)@.len() + 1 < KEY_RING_SIZE {
                old(self)@.push(keynum)
            } else {
                Seq::empty()
            },
    {
        self.buffer.set(self.next, keynum);
        self.next = if self.next + 1 < KEY_RING_SIZE {
            self.next + 1
        } else {
            0
        };
        assert(self@ =~= if old(self)@.len() + 1 < KEY_RING_SIZE {
            old(self)@.push(keynum)
        } else {
            Seq::empty()
        });
    }

    /// Lets go of all keys.
    pub fn clear(&mut self)
        requires
            old(self).wf(),
        ensures
            final(self).wf(),
            final(self)@.len() == 0,
    {
        self.buffer = vec![0u32; KEY_RING_SIZE];
        self.next = 0;
    }

    /// How many keys are held.
    pub fn len(&self) -> (n: usize)
        requires
            self.wf(),
        ensures
            n == self@.len(),
    {
        self.next
    }

    /// Whether a held key sits at the probed (row, column).
    pub fn is_emulated_key_down(&self, rowcol: u8) -> (r: bool)
        requires
            self.wf(),
        ensures
            r == probe_hits(self@, rowcol),
    {
        let row = (rowcol >> 4) & 0x07;
        let col = rowcol & 0x0f;
        assert(row == (rowcol / 16) % 8 && col == rowcol % 16) by (bit_vector)
            requires
                row == (rowcol >> 4) & 0x07,
                col == rowcol & 0x0f,
        ;
        assert(probe_position(rowcol) == (row, col));
        let mut j: usize = 0;
        while j < self.next
            invariant
                self.wf(),
                j <= self.next,
                probe_position(rowcol) == (row, col),
                forall|i: int|
                    0 <= i < j ==> key_position(#[trigger] self.buffer@[i]) != Some(
                        probe_position(rowcol),
                    ),
            decreases self.next - j,
        {
            let pos = key_matrix_position(self.buffer[j]);
            let hit = match pos {
                Some((r, c)) => r == row && c == col,
                None => false,
            };
            assert(hit == (key_position(self.buffer@[j as int]) == Some(probe_position(rowcol))));
            if hit {
                assert(self@[j as int] == self.buffer@[j as int]);
                return true;
            }
            j = j + 1;
        }
        assert forall|i: int| 0 <= i < self@.len() implies key_position(#[trigger] self@[i]) != Some(
            probe_position(rowcol),
        ) by {
            assert(self@[i] == self.buffer@[i]);
        }
        false
    }
}

/// The latch that enables keyboard writes.
pub const KEYBOARD_IC_LATCH: usize = 3;

/// The registers of the system VIA: three ports, the interrupt state, the held
/// keys, and eight addressable latches.
pub struct Registers {
    pa1: PeripheralPort,
    pb: PeripheralPort,
    pub interrupts: Interrupts,
    pa2: PeripheralPort,
    keyboard_buffer: KeyboardBuffer,
    latches: Vec<bool>,
}

/// The abstract state of the VIA registers.
pub struct RegistersView {
    pub pa1: PeripheralPort,
    pub pb: PeripheralPort,
    pub interrupts: InterruptsView,
    pub pa2: PeripheralPort,
    pub keys: Seq<u32>,
    pub latches: Seq<bool>,
}

impl View for Registers {
    type V = RegistersView;

    closed spec fn view(&self) -> RegistersView {
        RegistersView {
            pa1: self.pa1,
            pb: self.pb,
            interrupts: self.interrupts@,
            pa2: self.pa2,
            keys: self.keyboard_buffer@,
            latches: self.latches@,
        }
    }
}

/// The sixteen register bytes as the CPU reads them, laid over `old`.
pub open spec fn rendered(v: RegistersView, old: Seq<u8>) -> Seq<u8> {
    old.update(0, v.pb.io.0 & !v.pb.ddr.0).update(1, v.pa1.io.0 & !v.pa1.ddr.0).update(
        2,
        v.pb.ddr.0,
    ).update(3, v.pa1.ddr.0).update(
        13,
        crate::via::interrupts::normalized(v.interrupts.flags),
    ).update(14, 0x80 | (0x7f & v.interrupts.enabled)).update(15, v.pa2.io.0 & !v.pa2.ddr.0)
}

/// The registers after a write of `val` to port A without handshake. With
/// keyboard writes disabled the written byte is a keyboard probe: bit 7 of the
/// latch stays high only when a held key sits at the probed position. Held
/// keys raise the keyboard interrupt.
pub open spec fn port_a2_written(o: RegistersView, val: u8) -> RegistersView {
    let io = Io((val & o.pa2.ddr.0) | !o.pa2.ddr.0);
    let ints = if o.keys.len() > 0 {
        fired(o.interrupts, type_bit(InterruptType::Keyboard))
    } else {
        o.interrupts
    };
    let pa2_io = if !o.latches[KEYBOARD_IC_LATCH as int] && !probe_hits(o.keys, io.0) {
        Io(val & 0x7f)
    } else {
        io
    };
    RegistersView { pa2: PeripheralPort { io: pa2_io, ..o.pa2 }, interrupts: ints, ..o }
}

/// The registers after a write of `val` to port B: bits 0 to 2 select one of
/// the eight latches and bit 3 is the value latched.
pub open spec fn port_b_written(o: RegistersView, val: u8) -> RegistersView {
    RegistersView {
        pb: PeripheralPort { io: Io((val & o.pb.ddr.0) | !o.pb.ddr.0), ..o.pb },
        latches: o.latches.update((val % 8) as int, (val / 8) % 2 == 1),
        ..o
    }
}

/// A port with its latch and data direction clear.
pub open spec fn port_at_reset() -> PeripheralPort {
    PeripheralPort { io: Io(0), ddr: crate::via::peripheral_port::DataDirection(0) }
}

/// The registers at power-on: ports and latches clear, no keys held, no
/// interrupt fired or armed.
pub open spec fn registers_at_reset() -> RegistersView {
    RegistersView {
        pa1: port_at_reset(),
        pb: port_at_reset(),
        interrupts: InterruptsView { flags: 0, enabled: 0, signalled: 0 },
        pa2: port_at_reset(),
        keys: Seq::empty(),
        latches: Seq::new(8, |i: int| false),
    }
}

impl Default for Registers {
    fn default() -> (r: Registers)
        ensures
            r.wf(),
            r@ == registers_at_reset(),
    {
        let r = Registers {
            pa1: PeripheralPort::default(),
            pb: PeripheralPort::default(),
            interrupts: Interrupts::default(),
            pa2: PeripheralPort::default(),
            keyboard_buffer: KeyboardBuffer::default(),
            latches: vec![false; 8],
        };
        assert(r@.latches =~= Seq::new(8, |i: int| false));
        assert(r@.keys =~= Seq::<u32>::empty());
        r
    }
}

impl Registers {
    pub closed spec fn wf(&self) -> bool {
        &&& self.keyboard_buffer.wf()
        &&& self.latches@.len() == 8
        &&& self.interrupts.wf()
    }

    pub fn new() -> (r: Registers)
        ensures
            r.wf(),
            r@ == registers_at_reset(),
    {
        Registers::default()
    }

    /// Well-formed registers have eight latches, fewer than sixteen held keys,
    /// and a flag register whose bit 7 summarises bits 0 to 6.
    pub proof fn lemma_wf(&self)
        requires
            self.wf(),
        ensures
            self@.latches.len() == 8,
            self@.keys.len() < KEY_RING_SIZE,
            crate::via::interrupts::summary_bit_agrees(self@.interrupts.flags),
    {
        self.keyboard_buffer.lemma_len();
    }

    /// Whether the keyboard write-enable latch is set.
    pub fn is_keyboard_write_enabled(&self) -> (b: bool)
        requires
            self.wf(),
        ensures
            b == self@.latches[KEYBOARD_IC_LATCH as int],
    {
        self.latches[KEYBOARD_IC_LATCH]
    }

    /// A write to port A with handshake: nothing is attached to it.
    pub fn write_port_a1_io(&mut self, val: u8)
        ensures
            final(self)@ == old(self)@,
            final(self).wf() == old(self).wf(),
    {
    }

    /// A write to port A without handshake. With keyboard writes disabled the
    /// written byte is a keyboard probe: bit 7 of the latch stays high only
    /// when a held key sits at the probed position. Held keys raise the
    /// keyboard interrupt.
    pub fn write_port_a2_io(&mut self, val: u8)
        requires
            old(self).wf(),
        ensures
            final(self).wf(),
            final(self)@ == port_a2_written(old(self)@, val),
    {
        self.pa2.write(val);
        if self.keyboard_buffer.len() > 0 {
            self.interrupts.signal_one(InterruptType::Keyboard);
        }
        if !self.is_keyboard_write_enabled() && !self.keyboard_buffer.is_emulated_key_down(
            self.pa2.io().0,
        ) {
            self.pa2.set_io(Io(val & 0x7f));
        }
    }

    /// A write to port B: bits 0 to 2 select one of the eight latches and bit 3
    /// is the value latched.
    pub fn write_port_b_io(&mut self, val: u8)
        requires
            old(self).wf(),
        ensures
            final(self).wf(),
            final(self)@ == port_b_written(old(self)@, val),
    {
        self.pb.write(val);
        let select = (val & 0x07) as usize;
        let value = val & 0x08 != 0;
        assert(select == val % 8 && value == ((val / 8) % 2 == 1)) by (bit_vector)
            requires
                select == val & 0x07,
                value == (val & 0x08 != 0),
        ;
        self.latches.set(select, value);
    }

    /// Sets the data direction of both views of port A.
    pub fn set_port_a_ddr(&mut self, val: u8)
        ensures
            final(self)@ == (RegistersView {
                pa1: PeripheralPort { ddr: crate::via::peripheral_port::DataDirection(val), ..old(self)@.pa1 },
                pa2: PeripheralPort { ddr: crate::via::peripheral_port::DataDirection(val), ..old(self)@.pa2 },
                ..old(self)@
            }),
            final(self).wf() == old(self).wf(),
    {
        self.pa1.set_data_direction(val);
        self.pa2.set_data_direction(val);
    }

    /// Sets the data direction of port B.
    pub fn set_port_b_ddr(&mut self, val: u8)
        ensures
            final(self)@ == (RegistersView {
                pb: PeripheralPort { ddr: crate::via::peripheral_port::DataDirection(val), ..old(self)@.pb },
                ..old(self)@
            }),
            final(self).wf() == old(self).wf(),
    {
        self.pb.set_data_direction(val);
    }

    /// Renders the register bytes that the CPU reads into the first sixteen
    /// bytes of `mem`.
    pub fn write_to(&self, mem: &mut Vec<u8>)
        requires
            old(mem)@.len() >= 16,
        ensures
            final(mem)@ == rendered(self@, old(mem)@),
    {
        mem.set(0, self.pb.read());
        mem.set(2, self.pb.data_direction().0);
        mem.set(1, self.pa1.read());
        mem.set(3, self.pa1.data_direction().0);
        mem.set(13, self.interrupts.flags().0);
        mem.set(14, self.interrupts.enabled().0);
        mem.set(15, self.pa2.read());
        assert(mem@ =~= rendered(self@, old(mem)@));
    }

    /// Holds a host key and raises the keyboard interrupt.
    pub fn key_down(&mut self, keynum: u32)
        requires
            old(self).wf(),
        ensures
            final(self).wf(),
            final(self)@ == (RegistersView {
                keys: if old(self)@.keys.len() + 1 < KEY_RING_SIZE {
                    old(self)@.keys.push(keynum)
                } else {
                    Seq::empty()
                },
                interrupts: fired(old(self)@.interrupts, type_bit(InterruptType::Keyboard)),
                ..old(self)@
            }),
    {
        self.keyboard_buffer.key_down(keynum);
        self.interrupts.signal_one(InterruptType::Keyboard);
    }

    /// Lets go of all keys.
    pub fn clear_keyboard_buffer(&mut self)
        requires
            old(self).wf(),
        ensures
            final(self).wf(),
            final(self)@ == (RegistersView { keys: Seq::empty(), ..old(self)@ }),
    {
        self.keyboard_buffer.clear();
        assert(self@.keys =~= Seq::<u32>::empty());
    }

    /// A write to the interrupt flag register.
    pub fn clear_flags(&mut self, f: Flags)
        requires
            old(self).wf(),
        ensures
            final(self).wf(),
            final(self)@ == (RegistersView {
                interrupts: InterruptsView {
                    flags: cleared(old(self)@.interrupts.flags, f.0),
                    ..old(self)@.interrupts
                },
                ..old(self)@
            }),
    {
        self.interrupts.clear_flags(f);
    }

    /// Clears the flags of the given sources.
    pub fn clear_interrupts(&mut self, sources: &[InterruptType])
        requires
            old(self).wf(),
        ensures
            final(self).wf(),
            final(self)@ == (RegistersView {
                interrupts: InterruptsView {
                    flags: cleared(old(self)@.interrupts.flags, mask_of(sources@)),
                    ..old(self)@.interrupts
                },
                ..old(self)@
            }),
    {
        self.interrupts.clear(sources);
    }

    /// A write to the interrupt enable register.
    pub fn set_enabled(&mut self, e: Enabled)
        requires
            old(self).wf(),
        ensures
            final(self).wf(),
            final(self)@ == (RegistersView {
                interrupts: InterruptsView {
                    enabled: enable_written(old(self)@.interrupts.enabled, e.0),
                    ..old(self)@.interrupts
                },
                ..old(self)@
            }),
    {
        self.interrupts.set_enabled(e);
    }

    /// Fires one source.
    pub fn signal_one(&mut self, t: InterruptType)
        requires
            old(self).wf(),
        ensures
            final(self).wf(),
            final(self)@ == (RegistersView {
                interrupts: fired(old(self)@.interrupts, type_bit(t)),
                ..old(self)@
            }),
    {
        self.interrupts.signal_one(t);
    }

    /// The armed sources fired since the last drain; forgets them.
    pub fn drain_signalled(&mut self) -> (f: Flags)
        requires
            old(self).wf(),
        ensures
            final(self).wf(),
            f.0 == old(self)@.interrupts.signalled & (0x80 | (0x7f & old(self)@.interrupts.enabled)),
            final(self)@ == (RegistersView {
                interrupts: InterruptsView { signalled: 0, ..old(self)@.interrupts },
                ..old(self)@
            }),
    {
        self.interrupts.drain_signalled()
    }
}

} // verus!
