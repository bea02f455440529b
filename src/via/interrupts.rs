use vstd::prelude::*;

verus! {

/// The interrupt state of the VIA: which sources have fired (the flag
/// register), which are armed (the enable register), and which have fired
/// since the orchestrator last looked.
pub struct Interrupts {
    flags: u8,
    enabled: u8,
    signalled: u8,
}

/// The raw registers of an `Interrupts`.
pub struct InterruptsView {
    pub flags: u8,
    pub enabled: u8,
    pub signalled: u8,
}

/// A source of interrupts.
#[derive(Debug, PartialEq, Eq, Structural, Clone, Copy)]
pub enum InterruptType {
    Keyboard,
    VerticalSync,
    Timer2,
    Timer1,
}

/// A value for, or of, the interrupt enable register.
pub struct Enabled(pub u8);

/// A value for, or of, the interrupt flag register.
pub struct Flags(pub u8);

/// The bit of the flag and enable registers that a source owns.
pub open spec fn type_bit(t: InterruptType) -> u8 {
    match t {
        InterruptType::Keyboard => 0x01,
        InterruptType::VerticalSync => 0x02,
        InterruptType::Timer2 => 0x20,
        InterruptType::Timer1 => 0x40,
    }
}

/// The source that owns bit `p`, if any.
pub open spec fn type_at(p: int) -> Option<InterruptType> {
    if p == 0 {
        Some(InterruptType::Keyboard)
    } else if p == 1 {
        Some(InterruptType::VerticalSync)
    } else if p == 5 {
        Some(InterruptType::Timer2)
    } else if p == 6 {
        Some(InterruptType::Timer1)
    } else {
        None
    }
}

/// Whether bit `p` of `b` is set.
pub open spec fn bit_set(b: u8, p: int) -> bool {
    (b as int / pow2(p as nat) as int) % 2 == 1
}

pub open spec fn pow2(n: nat) -> nat
    decreases n,
{
    if n == 0 {
        1
    } else {
        2 * pow2((n - 1) as nat)
    }
}

/// The first bit from `p` on that a source owns and `bits` has set; 7 when none.
pub open spec fn next_source_bit(bits: u8, p: int) -> int
    decreases 7 - p,
{
    if p >= 7 {
        7
    } else if type_at(p) is Some && bit_set(bits, p) {
        p
    } else {
        next_source_bit(bits, p + 1)
    }
}

/// Bit 7 is set exactly when one of bits 0 to 6 is.
pub open spec fn summary_bit_agrees(b: u8) -> bool {
    (b & 0x80 != 0) == (b & 0x7f != 0)
}

/// The flag register as read: bit 7 summarises bits 0 to 6.
pub open spec fn normalized(b: u8) -> u8 {
    if b & 0x7f != 0 {
        0x80 | (b & 0x7f)
    } else {
        0
    }
}

impl InterruptType {
    /// The bit of the flag and enable registers that this source owns.
    pub fn bit(&self) -> (b: u8)
        ensures
            b == type_bit(*self),
    {
        match self {
            InterruptType::Keyboard => 0x01,
            InterruptType::VerticalSync => 0x02,
            InterruptType::Timer2 => 0x20,
            InterruptType::Timer1 => 0x40,
        }
    }

    /// The name of this source.
    pub fn name(&self) -> (s: &'static str) {
        match self {
            InterruptType::Keyboard => "keyboard",
            InterruptType::VerticalSync => "v-sync",
            InterruptType::Timer2 => "timer2",
            InterruptType::Timer1 => "timer1",
        }
    }
}

/// Walks the sources whose bits are set, from bit 0 up.
pub struct InterruptIterator(pub u8, pub usize);

impl InterruptIterator {
    pub fn new(f: u8) -> (it: InterruptIterator)
        ensures
            it.0 == f,
            it.1 == 0,
    {
        InterruptIterator(f, 0)
    }

    /// The next source whose bit is set.
    pub fn next(&mut self) -> (r: Option<InterruptType>)
        requires
            old(self).1 <= 7,
        ensures
            final(self).0 == old(self).0,
            ({
                let p = next_source_bit(old(self).0, old(self).1 as int);
                if p < 7 {
                    r == type_at(p) && final(self).1 == p + 1
                } else {
                    r is None && final(self).1 == 7
                }
            }),
    {
        while self.1 < 7
            invariant
                self.0 == old(self).0,
                old(self).1 <= self.1 <= 7,
                next_source_bit(self.0, old(self).1 as int) == next_source_bit(self.0, self.1 as int),
            decreases 7 - self.1,
        {
            let p = self.1;
            let set = (self.0 >> (p as u8)) & 1 == 1;
            assert(set == bit_set(self.0, p as int)) by {
                lemma_shift_bit(self.0, p as u8);
            }
            self.1 = self.1 + 1;
            if set {
                if p == 0 {
                    return Some(InterruptType::Keyboard);
                } else if p == 1 {
                    return Some(InterruptType::VerticalSync);
                } else if p == 5 {
                    return Some(InterruptType::Timer2);
                } else if p == 6 {
                    return Some(InterruptType::Timer1);
                }
            }
        }
        None
    }
}

pub proof fn lemma_shift_bit(b: u8, p: u8)
    requires
        p < 8,
    ensures
        ((b >> p) & 1 == 1) == bit_set(b, p as int),
{
    reveal_with_fuel(pow2, 8);
    assert(b >> p == b / (pow2(p as nat) as u8)) by {
        if p == 0 {
            assert(b >> 0u8 == b / 1) by (bit_vector);
        } else if p == 1 {
            assert(b >> 1u8 == b / 2) by (bit_vector);
        } else if p == 2 {
            assert(b >> 2u8 == b / 4) by (bit_vector);
        } else if p == 3 {
            assert(b >> 3u8 == b / 8) by (bit_vector);
        } else if p == 4 {
            assert(b >> 4u8 == b / 16) by (bit_vector);
        } else if p == 5 {
            assert(b >> 5u8 == b / 32) by (bit_vector);
        } else if p == 6 {
            assert(b >> 6u8 == b / 64) by (bit_vector);
        } else {
            assert(b >> 7u8 == b / 128) by (bit_vector);
        }
    }
    let q = b >> p;
    assert((q & 1 == 1) == (q % 2 == 1)) by (bit_vector);
}

impl Flags {
    /// The sources whose bits are set.
    pub fn iter(&self) -> (it: InterruptIterator)
        ensures
            it.0 == self.0,
            it.1 == 0,
    {
        InterruptIterator::new(self.0)
    }
}

impl Enabled {
    /// The sources whose bits are set.
    pub fn iter(&self) -> (it: InterruptIterator)
        ensures
            it.0 == self.0,
            it.1 == 0,
    {
        InterruptIterator::new(self.0)
    }
}

impl View for Interrupts {
    type V = InterruptsView;

    closed spec fn view(&self) -> InterruptsView {
        InterruptsView { flags: self.flags, enabled: self.enabled, signalled: self.signalled }
    }
}

impl Default for Interrupts {
    fn default() -> (i: Interrupts)
        ensures
            i@ == (InterruptsView { flags: 0, enabled: 0, signalled: 0 }),
            i.wf(),
    {
        assert(summary_bit_agrees(0)) by (bit_vector);
        Interrupts { flags: 0, enabled: 0, signalled: 0 }
    }
}

impl Interrupts {
    /// Bit 7 of the flag register summarises bits 0 to 6.
    pub open spec fn wf(&self) -> bool {
        summary_bit_agrees(self@.flags)
    }

    /// Interrupt state with the given registers and nothing signalled; bit 7
    /// of the flags is made to summarise bits 0 to 6.
    pub fn new(flags: Flags, enabled: Enabled) -> (i: Interrupts)
        ensures
            i.wf(),
            i@ == (InterruptsView { flags: normalized(flags.0), enabled: enabled.0, signalled: 0 }),
    {
        let f = flags.0;
        let nf = if f & 0x7f != 0 {
            0x80 | (f & 0x7f)
        } else {
            0
        };
        assert(summary_bit_agrees(normalized(f))) by (bit_vector);
        Interrupts { flags: nf, enabled: enabled.0, signalled: 0 }
    }

    /// The enable register as read: bit 7 is always set.
    pub fn enabled(&self) -> (e: Enabled)
        ensures
            e.0 == 0x80 | (0x7f & self@.enabled),
    {
        Enabled(0x80 | (0x7f & self.enabled))
    }

    /// The raw enable mask.
    pub fn enable_mask(&self) -> (e: u8)
        ensures
            e == self@.enabled,
    {
        self.enabled
    }

    /// The flag register as read: bit 7 summarises bits 0 to 6.
    pub fn flags(&self) -> (f: Flags)
        ensures
            f.0 == normalized(self@.flags),
    {
        Flags(
            if self.flags & 0x7f != 0 {
                0x80 | (self.flags & 0x7f)
            } else {
                0
            },
        )
    }

    /// The sources that have fired and are armed.
    pub fn active(&self) -> (f: Flags)
        ensures
            f.0 == normalized(self@.flags) & (0x80 | (0x7f & self@.enabled)),
    {
        Flags(self.flags().0 & self.enabled().0)
    }

    /// The armed sources fired since the last drain; forgets them.
    pub fn drain_signalled(&mut self) -> (f: Flags)
        ensures
            f.0 == old(self)@.signalled & (0x80 | (0x7f & old(self)@.enabled)),
            final(self)@ == (InterruptsView { signalled: 0, ..old(self)@ }),
            old(self).wf() ==> final(self).wf(),
    {
        let s = Flags(self.signalled & self.enabled().0);
        self.signalled = 0;
        s
    }

    /// Whether the source has fired.
    pub fn is_signalled(&self, t: InterruptType) -> (b: bool)
        ensures
            b == (self@.flags & type_bit(t) != 0),
    {
        self.flags & t.bit() != 0
    }

    /// Whether the source is armed.
    pub fn is_enabled(&self, t: InterruptType) -> (b: bool)
        ensures
            b == (self@.enabled & type_bit(t) != 0),
    {
        self.enabled & t.bit() != 0
    }

    /// Clears the flags of the given sources.
    pub fn clear(&mut self, sources: &[InterruptType])
        requires
            old(self).wf(),
        ensures
            final(self).wf(),
            final(self)@ == (InterruptsView {
                flags: cleared(old(self)@.flags, mask_of(sources@)),
                ..old(self)@
            }),
    {
        let mut mask: u8 = 0;
        let mut i: usize = 0;
        while i < sources.len()
            invariant
                i <= sources@.len(),
                mask == mask_of(sources@.take(i as int)),
            decreases sources.len() - i,
        {
            mask = mask | sources[i].bit();
            assert(sources@.take(i + 1).drop_last() =~= sources@.take(i as int));
            i = i + 1;
        }
        assert(sources@.take(i as int) =~= sources@);
        self.clear_flags(Flags(mask));
    }

    /// Fires each of the given sources.
    pub fn signal(&mut self, sources: &[InterruptType])
        requires
            old(self).wf(),
        ensures
            final(self).wf(),
            final(self)@ == fired(old(self)@, mask_of(sources@)),
    {
        let mut i: usize = 0;
        while i < sources.len()
            invariant
                i <= sources@.len(),
                self.wf(),
                self@ == fired(old(self)@, mask_of(sources@.take(i as int))),
            decreases sources.len() - i,
        {
            let ghost before = self@;
            self.signal_one(sources[i]);
            proof {
                assert(sources@.take(i + 1).drop_last() =~= sources@.take(i as int));
                lemma_type_bit(sources@[i as int]);
                lemma_fired_twice(old(self)@, mask_of(sources@.take(i as int)), type_bit(sources@[i as int]));
            }
            i = i + 1;
        }
        assert(sources@.take(i as int) =~= sources@);
    }

    /// Fires one source: it is marked signalled and its flag is set.
    pub fn signal_one(&mut self, t: InterruptType)
        requires
            old(self).wf(),
        ensures
            final(self).wf(),
            final(self)@ == fired(old(self)@, type_bit(t)),
    {
        let b = t.bit();
        proof {
            lemma_type_bit(t);
        }
        let f = self.flags;
        self.signalled = self.signalled | b;
        self.flags = f | b | 0x80;
        assert(summary_bit_agrees(f | b | 0x80)) by (bit_vector)
            requires
                b & 0x7f != 0,
                b & 0x80 == 0,
        ;
    }

    /// A write to the enable register: with bit 7 set, the given bits 0 to 6
    /// are armed; with bit 7 clear, they are disarmed.
    pub fn set_enabled(&mut self, e: Enabled)
        ensures
            final(self)@ == (InterruptsView {
                enabled: enable_written(old(self)@.enabled, e.0),
                ..old(self)@
            }),
            old(self).wf() ==> final(self).wf(),
    {
        if e.0 & 0x80 != 0 {
            self.enabled = self.enabled | (e.0 & 0x7f) | 0x80;
        } else {
            self.enabled = self.enabled & (!(e.0 & 0x7f) & 0x7f);
        }
    }

    /// A write to the flag register: the given bits 0 to 6 are cleared, and bit 7
    /// still summarises what is left.
    pub fn clear_flags(&mut self, f: Flags)
        requires
            old(self).wf(),
        ensures
            final(self).wf(),
            final(self)@ == (InterruptsView { flags: cleared(old(self)@.flags, f.0), ..old(self)@ }),
    {
        let old_flags = self.flags;
        let v = f.0;
        let left = old_flags & !(v & 0x7f) & 0x7f;
        let new_flags = if left != 0 {
            left | 0x80
        } else {
            0
        };
        assert(new_flags == cleared(old_flags, v) && summary_bit_agrees(new_flags))
            by (bit_vector)
            requires
                left == old_flags & !(v & 0x7f) & 0x7f,
                new_flags == if left != 0 { left | 0x80 } else { 0 },
        ;
        self.flags = new_flags;
    }
}

/// The mask that a list of sources makes.
pub open spec fn mask_of(sources: Seq<InterruptType>) -> u8
    decreases sources.len(),
{
    if sources.len() == 0 {
        0
    } else {
        mask_of(sources.drop_last()) | type_bit(sources.last())
    }
}

/// The flag register after a write of `v`: bits 0 to 6 that `v` sets are
/// cleared and bit 7 summarises the rest.
pub open spec fn cleared(flags: u8, v: u8) -> u8 {
    let left = flags & !(v & 0x7f) & 0x7f;
    if left != 0 {
        left | 0x80
    } else {
        0
    }
}

/// The enable register after a write of `v`.
pub open spec fn enable_written(enabled: u8, v: u8) -> u8 {
    if v & 0x80 != 0 {
        enabled | (v & 0x7f) | 0x80
    } else {
        enabled & (!(v & 0x7f) & 0x7f)
    }
}

/// Interrupt state after the sources in `mask` fire.
pub open spec fn fired(i: InterruptsView, mask: u8) -> InterruptsView {
    if mask == 0 {
        i
    } else {
        InterruptsView { signalled: i.signalled | mask, flags: i.flags | mask | 0x80, ..i }
    }
}

proof fn lemma_type_bit(t: InterruptType)
    ensures
        type_bit(t) & 0x80 == 0,
        type_bit(t) & 0x7f != 0,
        type_bit(t) != 0,
{
    assert(0x01u8 & 0x80 == 0 && 0x01u8 & 0x7f != 0) by (bit_vector);
    assert(0x02u8 & 0x80 == 0 && 0x02u8 & 0x7f != 0) by (bit_vector);
    assert(0x20u8 & 0x80 == 0 && 0x20u8 & 0x7f != 0) by (bit_vector);
    assert(0x40u8 & 0x80 == 0 && 0x40u8 & 0x7f != 0) by (bit_vector);
}

proof fn lemma_fired_twice(i: InterruptsView, a: u8, b: u8)
    requires
        b != 0,
    ensures
        fired(fired(i, a), b) == fired(i, a | b),
{
    let s = i.signalled;
    let f = i.flags;
    assert((s | a) | b == s | (a | b)) by (bit_vector);
    assert((f | a | 0x80) | b | 0x80 == f | (a | b) | 0x80) by (bit_vector);
    assert(a | b != 0) by (bit_vector)
        requires
            b != 0,
    ;
    assert(a == 0 ==> a | b == b) by (bit_vector);
}

/// After any write to the flag register, and after any source fires, bit 7 of
/// the flags is set exactly when one of bits 0 to 6 is.
pub proof fn lemma_flags_summary(i: InterruptsView, v: u8, t: InterruptType)
    ensures
        summary_bit_agrees(cleared(i.flags, v)),
        summary_bit_agrees(fired(i, type_bit(t)).flags),
{
    let f = i.flags;
    assert(summary_bit_agrees(cleared(f, v))) by (bit_vector);
    lemma_type_bit(t);
    let b = type_bit(t);
    assert(summary_bit_agrees(f | b | 0x80)) by (bit_vector)
        requires
            b & 0x7f != 0,
    ;
}

/// Writing 0x83 to the enable register arms sources 0 and 1; writing 0x02 after
/// that disarms source 1 and leaves source 0 armed.
pub proof fn lemma_enable_set_then_clear(e: u8)
    ensures
        enable_written(e, 0x83) & 0x03 == 0x03,
        enable_written(enable_written(e, 0x83), 0x02) & 0x02 == 0,
        enable_written(enable_written(e, 0x83), 0x02) & 0x01 == 0x01,
{
    assert((e | (0x83u8 & 0x7f) | 0x80) & 0x03 == 0x03) by (bit_vector);
    let s = e | (0x83u8 & 0x7f) | 0x80;
    assert(s & (!(0x02u8 & 0x7f) & 0x7f) & 0x02 == 0) by (bit_vector);
    assert(s & (!(0x02u8 & 0x7f) & 0x7f) & 0x01 == 0x01) by (bit_vector)
        requires
            s & 0x03 == 0x03,
    ;
    assert(0x83u8 & 0x80 != 0 && 0x02u8 & 0x80 == 0) by (bit_vector);
}

} // verus!
