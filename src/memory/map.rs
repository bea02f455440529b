use std::ops::{Range, RangeFrom, RangeTo};
use vstd::prelude::*;

use crate::memory::region::{Region, RegionMut};

verus! {

/// The std range from a start, as used by `region_from`; its field `start` is public.
#[verifier::external_type_specification]
#[verifier::reject_recursive_types(Idx)]
pub struct ExRangeFrom<Idx>(RangeFrom<Idx>);

/// The std range up to an end, as used by `region_to`; its field `end` is public.
#[verifier::external_type_specification]
#[verifier::reject_recursive_types(Idx)]
pub struct ExRangeTo<Idx>(RangeTo<Idx>);

/// Size of the emulated address space.
pub const MEM_SIZE: usize = 0x10000;

/// Writing a ROM number here pages that sideways ROM in.
pub const PAGED_ROM_REGISTER: u16 = 0xfe30;

/// First address of the sideways ROM slot.
pub const PAGED_ROM_START: usize = 0x8000;

/// One past the last address of the sideways ROM slot.
pub const PAGED_ROM_END: usize = 0xc000;

/// Size of the sideways ROM slot.
pub const PAGED_ROM_SIZE: usize = 0x4000;

/// A 64 KiB address space with hardware windows, whose last access it records,
/// and a sideways ROM slot.
pub struct MemMap {
    bytes: Vec<u8>,
    last_hw_write: Option<(u16, u8)>,
    last_hw_read: Option<u16>,
    hw_ranges: Vec<Range<usize>>,
    paged_roms: Vec<Vec<u8>>,
    current_paged_rom: Option<usize>,
}

/// The abstract state of a `MemMap`.
pub struct MemMapView {
    pub bytes: Seq<u8>,
    pub last_hw_write: Option<(u16, u8)>,
    pub last_hw_read: Option<u16>,
    pub hw_ranges: Seq<Range<usize>>,
    pub paged_roms: Seq<Seq<u8>>,
    pub current_paged_rom: Option<usize>,
}

/// Returned, still carrying the requested view, when a raw view overlaps a
/// hardware window.
#[derive(Debug)]
pub struct RawAccessToHardwareError<T>(pub T);

/// Whether the half-open range `r` holds `addr`.
pub open spec fn range_holds(r: Range<usize>, addr: int) -> bool {
    r.start <= addr < r.end
}

/// Whether any of the windows holds `addr`.
pub open spec fn in_windows(windows: Seq<Range<usize>>, addr: int) -> bool {
    exists|i: int| 0 <= i < windows.len() && range_holds(#[trigger] windows[i], addr)
}

/// Whether two half-open ranges share an address.
pub open spec fn spec_ranges_overlap(a: Range<usize>, b: Range<usize>) -> bool {
    a.start < b.end && b.start < a.end
}

/// Whether `r` shares an address with any of the windows.
pub open spec fn overlaps_windows(windows: Seq<Range<usize>>, r: Range<usize>) -> bool {
    exists|i: int| 0 <= i < windows.len() && spec_ranges_overlap(#[trigger] windows[i], r)
}

/// `dst` with its leading bytes replaced by those of `src`, as far as both reach.
pub open spec fn overlay(dst: Seq<u8>, src: Seq<u8>) -> Seq<u8> {
    Seq::new(dst.len(), |i: int| if i < src.len() { src[i] } else { dst[i] })
}

/// `bytes` with `data` laid over it from `start`, cut off at the end of `bytes`.
pub open spec fn overlay_at(bytes: Seq<u8>, start: int, data: Seq<u8>) -> Seq<u8> {
    Seq::new(
        bytes.len(),
        |i: int| if start <= i < start + data.len() { data[i - start] } else { bytes[i] },
    )
}

/// What of a ROM image fits the sideways ROM slot.
pub open spec fn slot_image(rom: Seq<u8>) -> Seq<u8> {
    if rom.len() <= PAGED_ROM_SIZE {
        rom
    } else {
        rom.take(PAGED_ROM_SIZE as int)
    }
}

/// The bytes of the sideways ROM slot.
pub open spec fn rom_slot(bytes: Seq<u8>) -> Seq<u8> {
    bytes.subrange(PAGED_ROM_START as int, PAGED_ROM_END as int)
}

impl MemMapView {
    /// Memory as it is after the slot is handed back to the ROM paged in (if
    /// any) and ROM `n` is paged in; nothing changes for a ROM that is absent.
    pub open spec fn switched_to(self, n: int) -> MemMapView {
        if 0 <= n < self.paged_roms.len() {
            let roms = match self.current_paged_rom {
                Some(c) => self.paged_roms.update(
                    c as int,
                    overlay(self.paged_roms[c as int], rom_slot(self.bytes)),
                ),
                None => self.paged_roms,
            };
            MemMapView {
                bytes: overlay_at(
                    self.bytes,
                    PAGED_ROM_START as int,
                    slot_image(roms[n]),
                ),
                paged_roms: roms,
                current_paged_rom: Some(n as usize),
                ..self
            }
        } else {
            self
        }
    }

    /// Memory as it is after the CPU writes `val` to `loc`.
    pub open spec fn written(self, loc: u16, val: u8) -> MemMapView {
        let s = if loc == PAGED_ROM_REGISTER { self.switched_to(val as int) } else { self };
        MemMapView {
            bytes: s.bytes.update(loc as int, val),
            last_hw_write: if in_windows(s.hw_ranges, loc as int) {
                Some((loc, val))
            } else {
                None
            },
            ..s
        }
    }

    /// Memory as it is after the CPU reads `loc`.
    pub open spec fn read_from(self, loc: u16) -> MemMapView {
        MemMapView {
            last_hw_read: if in_windows(self.hw_ranges, loc as int) {
                Some(loc)
            } else {
                None
            },
            ..self
        }
    }

    pub open spec fn wf(self) -> bool {
        &&& self.bytes.len() == MEM_SIZE
        &&& self.current_paged_rom matches Some(c) ==> c < self.paged_roms.len()
    }
}

impl View for MemMap {
    type V = MemMapView;

    closed spec fn view(&self) -> MemMapView {
        MemMapView {
            bytes: self.bytes@,
            last_hw_write: self.last_hw_write,
            last_hw_read: self.last_hw_read,
            hw_ranges: self.hw_ranges@,
            paged_roms: self.paged_roms@.map_values(|r: Vec<u8>| r@),
            current_paged_rom: self.current_paged_rom,
        }
    }
}

/// Whether two half-open ranges share an address.
pub fn ranges_overlap(section: Range<usize>, rhs: &Range<usize>) -> (r: bool)
    ensures
        r == spec_ranges_overlap(section, *rhs),
{
    section.start < rhs.end && rhs.start < section.end
}

/// Whether the half-open `range` holds `val`.
pub fn value_within_range(val: usize, range: &Range<usize>) -> (r: bool)
    ensures
        r == range_holds(*range, val as int),
{
    val >= range.start && val < range.end
}


impl MemMap {
    pub closed spec fn wf(&self) -> bool {
        &&& self.bytes@.len() == MEM_SIZE
        &&& self.current_paged_rom matches Some(c) ==> c < self.paged_roms@.len()
    }

    pub proof fn lemma_wf(&self)
        requires
            self.wf(),
        ensures
            self@.wf(),
    {
    }

    /// An address space of zeroes, with no hardware window and no sideways ROM.
    pub fn new() -> (m: MemMap)
        ensures
            m.wf(),
            m@.bytes == Seq::new(MEM_SIZE as nat, |i: int| 0u8),
            m@.hw_ranges.len() == 0,
            m@.paged_roms.len() == 0,
            m@.current_paged_rom is None,
            m@.last_hw_read is None,
            m@.last_hw_write is None,
    {
        let bytes: Vec<u8> = vec![0u8; MEM_SIZE];
        let m = MemMap {
            bytes,
            last_hw_write: None,
            last_hw_read: None,
            hw_ranges: Vec::new(),
            paged_roms: Vec::new(),
            current_paged_rom: None,
        };
        assert(m@.bytes =~= Seq::new(MEM_SIZE as nat, |i: int| 0u8));
        m
    }

    /// Adds a sideways ROM; the first one added is paged in at once.
    pub fn add_paged_rom(&mut self, rom: Vec<u8>)
        requires
            old(self).wf(),
        ensures
            final(self).wf(),
            ({
                let added = MemMapView {
                    paged_roms: old(self)@.paged_roms.push(rom@),
                    ..old(self)@
                };
                final(self)@ == if old(self)@.current_paged_rom is None {
                    added.switched_to(old(self)@.paged_roms.len() as int)
                } else {
                    added
                }
            }),
    {
        let ghost old_roms = self.paged_roms@;
        self.paged_roms.push(rom);
        proof {
            assert(self.paged_roms@.map_values(|r: Vec<u8>| r@) =~= old_roms.map_values(
                |r: Vec<u8>| r@,
            ).push(rom@));
        }
        if self.current_paged_rom.is_none() {
            let n = self.paged_roms.len() - 1;
            self.switch_paged_rom_to(n);
        }
    }

    /// Declares the half-open range a hardware window.
    pub fn with_hw_range(self, range: Range<usize>) -> (m: MemMap)
        requires
            self.wf(),
        ensures
            m.wf(),
            m@ == (MemMapView { hw_ranges: self@.hw_ranges.push(range), ..self@ }),
    {
        let mut m = self;
        m.hw_ranges.push(range);
        m
    }

    /// Declares each of the half-open ranges a hardware window.
    pub fn with_hw_ranges(self, ranges: Vec<Range<usize>>) -> (m: MemMap)
        requires
            self.wf(),
        ensures
            m.wf(),
            m@ == (MemMapView { hw_ranges: self@.hw_ranges + ranges@, ..self@ }),
    {
        let mut m = self;
        let mut i: usize = 0;
        while i < ranges.len()
            invariant
                i <= ranges.len(),
                m.wf(),
                m@ == (MemMapView { hw_ranges: self@.hw_ranges + ranges@.take(i as int), ..self@ }),
            decreases ranges.len() - i,
        {
            let r = ranges[i].start..ranges[i].end;
            m.hw_ranges.push(r);
            i = i + 1;
            proof {
                assert(ranges@.take(i as int) =~= ranges@.take(i - 1).push(ranges@[i - 1]));
            }
        }
        proof {
            assert(ranges@.take(i as int) =~= ranges@);
        }
        m
    }

    /// Whether `loc` lies in a hardware window.
    fn in_hw_window(&self, loc: usize) -> (r: bool)
        ensures
            r == in_windows(self@.hw_ranges, loc as int),
    {
        let mut i: usize = 0;
        while i < self.hw_ranges.len()
            invariant
                i <= self.hw_ranges@.len(),
                forall|j: int| 0 <= j < i ==> !range_holds(#[trigger] self.hw_ranges@[j], loc as int),
            decreases self.hw_ranges.len() - i,
        {
            if value_within_range(loc, &self.hw_ranges[i]) {
                return true;
            }
            i = i + 1;
        }
        false
    }

    /// Whether `range` overlaps a hardware window.
    fn overlaps_hw(&self, range: &Range<usize>) -> (r: bool)
        ensures
            r == overlaps_windows(self@.hw_ranges, *range),
    {
        let mut i: usize = 0;
        while i < self.hw_ranges.len()
            invariant
                i <= self.hw_ranges@.len(),
                forall|j: int|
                    0 <= j < i ==> !spec_ranges_overlap(#[trigger] self.hw_ranges@[j], *range),
            decreases self.hw_ranges.len() - i,
        {
            let w = self.hw_ranges[i].start..self.hw_ranges[i].end;
            if ranges_overlap(w, range) {
                return true;
            }
            i = i + 1;
        }
        false
    }

    /// Hands the slot back to the ROM paged in, if any, and pages in ROM `num`.
    fn switch_paged_rom_to(&mut self, num: usize)
        requires
            old(self).wf(),
        ensures
            final(self).wf(),
            final(self)@ == old(self)@.switched_to(num as int),
    {
        if num >= self.paged_roms.len() {
            return;
        }
        let ghost v0 = self@;
        if let Some(c) = self.current_paged_rom {
            let mut rom = self.paged_roms[c].clone();
            let ghost r0 = rom@;
            assert(r0 == v0.paged_roms[c as int]);
            let mut i: usize = 0;
            while i < rom.len() && i < PAGED_ROM_SIZE
                invariant
                    self.bytes@.len() == MEM_SIZE,
                    self.bytes@ == v0.bytes,
                    rom@.len() == r0.len(),
                    i <= r0.len(),
                    i <= PAGED_ROM_SIZE,
                    forall|j: int| 0 <= j < i ==> rom@[j] == self.bytes@[PAGED_ROM_START + j],
                    forall|j: int| i <= j < r0.len() ==> rom@[j] == r0[j],
                decreases rom.len() - i,
            {
                let b = self.bytes[PAGED_ROM_START + i];
                rom.set(i, b);
                i = i + 1;
            }
            assert(rom@ =~= overlay(r0, rom_slot(v0.bytes)));
            self.paged_roms.set(c, rom);
            assert(self.paged_roms@.map_values(|r: Vec<u8>| r@) =~= v0.paged_roms.update(
                c as int,
                overlay(r0, rom_slot(v0.bytes)),
            ));
        }
        let ghost v1 = self@;
        let n = if self.paged_roms[num].len() < PAGED_ROM_SIZE {
            self.paged_roms[num].len()
        } else {
            PAGED_ROM_SIZE
        };
        assert(v1.paged_roms[num as int] == self.paged_roms@[num as int]@);
        let mut i: usize = 0;
        while i < n
            invariant
                n <= PAGED_ROM_SIZE,
                n == slot_image(v1.paged_roms[num as int]).len(),
                v1.paged_roms[num as int] == self.paged_roms@[num as int]@,
                num < self.paged_roms@.len(),
                n <= self.paged_roms@[num as int]@.len(),
                self@ == (MemMapView { bytes: self.bytes@, ..v1 }),
                v1.wf(),
                self.bytes@.len() == MEM_SIZE,
                i <= n,
                forall|j: int|
                    0 <= j < MEM_SIZE ==> #[trigger] self.bytes@[j] == if PAGED_ROM_START <= j
                        < PAGED_ROM_START + i {
                        v1.paged_roms[num as int][j - PAGED_ROM_START]
                    } else {
                        v1.bytes[j]
                    },
            decreases n - i,
        {
            let b = self.paged_roms[num][i];
            self.bytes.set(PAGED_ROM_START + i, b);
            i = i + 1;
            assert(self@.paged_roms == v1.paged_roms);
        }
        self.current_paged_rom = Some(num);
        assert(self.bytes@ =~= overlay_at(
            v1.bytes,
            PAGED_ROM_START as int,
            slot_image(v1.paged_roms[num as int]),
        ));
    }

    /// The byte at `loc`; records the read when `loc` lies in a hardware window.
    pub fn read(&mut self, loc: u16) -> (r: u8)
        requires
            old(self).wf(),
        ensures
            final(self).wf(),
            r == old(self)@.bytes[loc as int],
            final(self)@ == old(self)@.read_from(loc),
    {
        let val = self.bytes[loc as usize];
        if self.in_hw_window(loc as usize) {
            self.last_hw_read = Some(loc);
        } else {
            self.last_hw_read = None;
        }
        val
    }

    /// Stores `val` at `loc`, records the write when `loc` lies in a hardware
    /// window, and pages in ROM `val` when `loc` is the paging register.
    pub fn write(&mut self, loc: u16, val: u8)
        requires
            old(self).wf(),
        ensures
            final(self).wf(),
            final(self)@ == old(self)@.written(loc, val),
    {
        if loc == PAGED_ROM_REGISTER {
            self.switch_paged_rom_to(val as usize);
        }
        self.bytes.set(loc as usize, val);
        if self.in_hw_window(loc as usize) {
            self.last_hw_write = Some((loc, val));
        } else {
            self.last_hw_write = None;
        }
    }

    /// The byte at `loc`, read with no side effect.
    pub fn peek(&self, loc: u16) -> (r: u8)
        requires
            self.wf(),
        ensures
            r == self@.bytes[loc as int],
    {
        self.bytes[loc as usize]
    }

    pub fn last_hw_read(&self) -> (r: Option<u16>)
        ensures
            r == self@.last_hw_read,
    {
        self.last_hw_read
    }

    pub fn last_hw_write(&self) -> (r: Option<(u16, u8)>)
        ensures
            r == self@.last_hw_write,
    {
        self.last_hw_write
    }

    /// Forgets the last hardware access.
    pub fn clear_last_hw_access(&mut self)
        requires
            old(self).wf(),
        ensures
            final(self).wf(),
            final(self)@ == (MemMapView { last_hw_read: None, last_hw_write: None, ..old(self)@ }),
    {
        self.last_hw_read = None;
        self.last_hw_write = None;
    }

    pub fn len(&self) -> (n: usize)
        ensures
            n == self@.bytes.len(),
    {
        self.bytes.len()
    }

    /// Copies `data` into memory from `start`, as far as memory reaches, with
    /// no side effect of any kind.
    pub fn copy_into(&mut self, start: usize, data: &[u8])
        requires
            old(self).wf(),
        ensures
            final(self).wf(),
            final(self)@ == (MemMapView {
                bytes: overlay_at(old(self)@.bytes, start as int, data@),
                ..old(self)@
            }),
    {
        let ghost b0 = self.bytes@;
        let ghost v0 = self@;
        let mut i: usize = 0;
        while i < data.len() && start < MEM_SIZE && i < MEM_SIZE - start
            invariant
                self.bytes@.len() == MEM_SIZE,
                self@ == (MemMapView { bytes: self.bytes@, ..v0 }),
                self.current_paged_rom == v0.current_paged_rom,
                self.paged_roms@.len() == v0.paged_roms.len(),
                b0.len() == MEM_SIZE,
                i <= data@.len(),
                start < MEM_SIZE ==> i <= MEM_SIZE - start,
                start >= MEM_SIZE ==> i == 0,
                forall|j: int|
                    0 <= j < MEM_SIZE ==> #[trigger] self.bytes@[j] == if start <= j < start + i {
                        data@[j - start]
                    } else {
                        b0[j]
                    },
            decreases data.len() - i,
        {
            self.bytes.set(start + i, data[i]);
            i = i + 1;
        }
        assert(self.bytes@ =~= overlay_at(b0, start as int, data@));
    }

    /// A raw view of `range`; an error, carrying the view, when the range
    /// overlaps a hardware window.
    pub fn region(&self, range: Range<usize>) -> (r: Result<
        Region<'_>,
        RawAccessToHardwareError<Region<'_>>,
    >)
        requires
            range.start <= range.end <= self@.bytes.len(),
        ensures
            r is Err <==> overlaps_windows(self@.hw_ranges, range),
            match r {
                Ok(v) => v.0@ == self@.bytes.subrange(range.start as int, range.end as int),
                Err(e) => e.0.0@ == self@.bytes.subrange(range.start as int, range.end as int),
            },
    {
        let hw = self.overlaps_hw(&range);
        let view = Region(vstd::slice::slice_subrange(self.bytes.as_slice(), range.start, range.end));
        if hw {
            Err(RawAccessToHardwareError(view))
        } else {
            Ok(view)
        }
    }

    /// A raw view from `range.start` to the end of memory.
    pub fn region_from(&self, range: RangeFrom<usize>) -> (r: Result<
        Region<'_>,
        RawAccessToHardwareError<Region<'_>>,
    >)
        requires
            range.start <= self@.bytes.len(),
        ensures
            r is Err <==> overlaps_windows(
                self@.hw_ranges,
                Range { start: range.start, end: self@.bytes.len() as usize },
            ),
            match r {
                Ok(v) => v.0@ == self@.bytes.subrange(range.start as int, self@.bytes.len() as int),
                Err(e) => e.0.0@ == self@.bytes.subrange(range.start as int, self@.bytes.len() as int),
            },
    {
        let len = self.bytes.len();
        self.region(range.start..len)
    }

    /// A raw view from the start of memory to `range.end`.
    pub fn region_to(&self, range: RangeTo<usize>) -> (r: Result<
        Region<'_>,
        RawAccessToHardwareError<Region<'_>>,
    >)
        requires
            range.end <= self@.bytes.len(),
        ensures
            r is Err <==> overlaps_windows(self@.hw_ranges, Range { start: 0, end: range.end }),
            match r {
                Ok(v) => v.0@ == self@.bytes.subrange(0, range.end as int),
                Err(e) => e.0.0@ == self@.bytes.subrange(0, range.end as int),
            },
    {
        self.region(0..range.end)
    }

    /// A raw writable view of `range`; an error, carrying the view, when the
    /// range overlaps a hardware window.
    pub fn region_mut(&mut self, range: Range<usize>) -> (r: Result<
        RegionMut<'_>,
        RawAccessToHardwareError<RegionMut<'_>>,
    >)
        requires
            range.start <= range.end <= old(self)@.bytes.len(),
        ensures
            r is Err <==> overlaps_windows(old(self)@.hw_ranges, range),
            match r {
                Ok(v) => v.0@ == old(self)@.bytes.subrange(range.start as int, range.end as int),
                Err(e) => e.0.0@ == old(self)@.bytes.subrange(range.start as int, range.end as int),
            },
    {
        let hw = self.overlaps_hw(&range);
        let (_, rest) = self.bytes.as_mut_slice().split_at_mut(range.start);
        let (mid, _) = rest.split_at_mut(range.end - range.start);
        let view = RegionMut(mid);
        if hw {
            Err(RawAccessToHardwareError(view))
        } else {
            Ok(view)
        }
    }

    /// A raw writable view from `range.start` to the end of memory.
    pub fn region_from_mut(&mut self, range: RangeFrom<usize>) -> (r: Result<
        RegionMut<'_>,
        RawAccessToHardwareError<RegionMut<'_>>,
    >)
        requires
            range.start <= old(self)@.bytes.len(),
        ensures
            r is Err <==> overlaps_windows(
                old(self)@.hw_ranges,
                Range { start: range.start, end: old(self)@.bytes.len() as usize },
            ),
            match r {
                Ok(v) => v.0@ == old(self)@.bytes.subrange(range.start as int, old(self)@.bytes.len() as int),
                Err(e) => e.0.0@ == old(self)@.bytes.subrange(range.start as int, old(self)@.bytes.len() as int),
            },
    {
        let len = self.bytes.len();
        self.region_mut(range.start..len)
    }

    /// A raw writable view from the start of memory to `range.end`.
    pub fn region_to_mut(&mut self, range: RangeTo<usize>) -> (r: Result<
        RegionMut<'_>,
        RawAccessToHardwareError<RegionMut<'_>>,
    >)
        requires
            range.end <= old(self)@.bytes.len(),
        ensures
            r is Err <==> overlaps_windows(old(self)@.hw_ranges, Range { start: 0, end: range.end }),
            match r {
                Ok(v) => v.0@ == old(self)@.bytes.subrange(0, range.end as int),
                Err(e) => e.0.0@ == old(self)@.bytes.subrange(0, range.end as int),
            },
    {
        self.region_mut(0..range.end)
    }
}

/// The access that the CPU makes to memory, with its side effects.
pub trait MemoryMap {
    spec fn well_formed(&self) -> bool;

    fn last_hw_read(&self) -> Option<u16>;

    fn last_hw_write(&self) -> Option<(u16, u8)>;

    fn write(&mut self, loc: u16, val: u8)
        requires
            old(self).well_formed(),
        ensures
            final(self).well_formed(),
    ;

    fn read(&mut self, loc: u16) -> (r: u8)
        requires
            old(self).well_formed(),
        ensures
            final(self).well_formed(),
    ;

    fn clear_last_hw_access(&mut self)
        requires
            old(self).well_formed(),
        ensures
            final(self).well_formed(),
    ;
}

/// Raw views of memory, with no side effects.
pub trait AsMemoryRegion {
    spec fn region_len(&self) -> nat;

    fn len(&self) -> (n: usize)
        ensures
            n == self.region_len(),
    ;

    fn region<'a>(&'a self, range: Range<usize>) -> Result<
        Region<'a>,
        RawAccessToHardwareError<Region<'a>>,
    >
        requires
            range.start <= range.end <= self.region_len(),
    ;

    fn region_from<'a>(&'a self, range: RangeFrom<usize>) -> Result<
        Region<'a>,
        RawAccessToHardwareError<Region<'a>>,
    >
        requires
            range.start <= self.region_len(),
    ;

    fn region_to<'a>(&'a self, range: RangeTo<usize>) -> Result<
        Region<'a>,
        RawAccessToHardwareError<Region<'a>>,
    >
        requires
            range.end <= self.region_len(),
    ;
}

/// Raw writable views of memory, with no side effects.
pub trait AsMemoryRegionMut: AsMemoryRegion {
    fn region_mut<'a>(&'a mut self, range: Range<usize>) -> Result<
        RegionMut<'a>,
        RawAccessToHardwareError<RegionMut<'a>>,
    >
        requires
            range.start <= range.end <= old(self).region_len(),
    ;

    fn region_from_mut<'a>(&'a mut self, range: RangeFrom<usize>) -> Result<
        RegionMut<'a>,
        RawAccessToHardwareError<RegionMut<'a>>,
    >
        requires
            range.start <= old(self).region_len(),
    ;

    fn region_to_mut<'a>(&'a mut self, range: RangeTo<usize>) -> Result<
        RegionMut<'a>,
        RawAccessToHardwareError<RegionMut<'a>>,
    >
        requires
            range.end <= old(self).region_len(),
    ;
}

impl MemoryMap for MemMap {
    open spec fn well_formed(&self) -> bool {
        self.wf()
    }

    fn last_hw_read(&self) -> (r: Option<u16>)
        ensures
            r == self@.last_hw_read,
    {
        MemMap::last_hw_read(self)
    }

    fn last_hw_write(&self) -> (r: Option<(u16, u8)>)
        ensures
            r == self@.last_hw_write,
    {
        MemMap::last_hw_write(self)
    }

    fn write(&mut self, loc: u16, val: u8)
        ensures
            final(self)@ == old(self)@.written(loc, val),
    {
        MemMap::write(self, loc, val)
    }

    fn read(&mut self, loc: u16) -> (r: u8)
        ensures
            r == old(self)@.bytes[loc as int],
            final(self)@ == old(self)@.read_from(loc),
    {
        MemMap::read(self, loc)
    }

    fn clear_last_hw_access(&mut self)
        ensures
            final(self)@ == (MemMapView { last_hw_read: None, last_hw_write: None, ..old(self)@ }),
    {
        MemMap::clear_last_hw_access(self)
    }
}

impl AsMemoryRegion for MemMap {
    open spec fn region_len(&self) -> nat {
        self@.bytes.len()
    }

    fn len(&self) -> usize {
        MemMap::len(self)
    }

    fn region<'a>(&'a self, range: Range<usize>) -> (r: Result<
        Region<'a>,
        RawAccessToHardwareError<Region<'a>>,
    >)
        ensures
            r is Err <==> overlaps_windows(self@.hw_ranges, range),
            match r {
                Ok(v) => v.0@ == self@.bytes.subrange(range.start as int, range.end as int),
                Err(e) => e.0.0@ == self@.bytes.subrange(range.start as int, range.end as int),
            },
    {
        MemMap::region(self, range)
    }

    fn region_from<'a>(&'a self, range: RangeFrom<usize>) -> (r: Result<
        Region<'a>,
        RawAccessToHardwareError<Region<'a>>,
    >)
        ensures
            r is Err <==> overlaps_windows(
                self@.hw_ranges,
                Range { start: range.start, end: self@.bytes.len() as usize },
            ),
            match r {
                Ok(v) => v.0@ == self@.bytes.subrange(range.start as int, self@.bytes.len() as int),
                Err(e) => e.0.0@ == self@.bytes.subrange(range.start as int, self@.bytes.len() as int),
            },
    {
        MemMap::region_from(self, range)
    }

    fn region_to<'a>(&'a self, range: RangeTo<usize>) -> (r: Result<
        Region<'a>,
        RawAccessToHardwareError<Region<'a>>,
    >)
        ensures
            r is Err <==> overlaps_windows(self@.hw_ranges, Range { start: 0, end: range.end }),
            match r {
                Ok(v) => v.0@ == self@.bytes.subrange(0, range.end as int),
                Err(e) => e.0.0@ == self@.bytes.subrange(0, range.end as int),
            },
    {
        MemMap::region_to(self, range)
    }
}

impl AsMemoryRegionMut for MemMap {
    fn region_mut<'a>(&'a mut self, range: Range<usize>) -> (r: Result<
        RegionMut<'a>,
        RawAccessToHardwareError<RegionMut<'a>>,
    >)
        ensures
            r is Err <==> overlaps_windows(old(self)@.hw_ranges, range),
            match r {
                Ok(v) => v.0@ == old(self)@.bytes.subrange(range.start as int, range.end as int),
                Err(e) => e.0.0@ == old(self)@.bytes.subrange(range.start as int, range.end as int),
            },
    {
        MemMap::region_mut(self, range)
    }

    fn region_from_mut<'a>(&'a mut self, range: RangeFrom<usize>) -> (r: Result<
        RegionMut<'a>,
        RawAccessToHardwareError<RegionMut<'a>>,
    >)
        ensures
            r is Err <==> overlaps_windows(
                old(self)@.hw_ranges,
                Range { start: range.start, end: old(self)@.bytes.len() as usize },
            ),
            match r {
                Ok(v) => v.0@ == old(self)@.bytes.subrange(range.start as int, old(self)@.bytes.len() as int),
                Err(e) => e.0.0@ == old(self)@.bytes.subrange(range.start as int, old(self)@.bytes.len() as int),
            },
    {
        MemMap::region_from_mut(self, range)
    }

    fn region_to_mut<'a>(&'a mut self, range: RangeTo<usize>) -> (r: Result<
        RegionMut<'a>,
        RawAccessToHardwareError<RegionMut<'a>>,
    >)
        ensures
            r is Err <==> overlaps_windows(old(self)@.hw_ranges, Range { start: 0, end: range.end }),
            match r {
                Ok(v) => v.0@ == old(self)@.bytes.subrange(0, range.end as int),
                Err(e) => e.0.0@ == old(self)@.bytes.subrange(0, range.end as int),
            },
    {
        MemMap::region_to_mut(self, range)
    }
}

/// A write followed by a read of the same address reads the byte written, and
/// the write is recorded as the last hardware write exactly when the address
/// lies in a hardware window.
pub proof fn lemma_write_then_read(m: MemMapView, addr: u16, v: u8)
    requires
        m.wf(),
    ensures
        m.written(addr, v).bytes[addr as int] == v,
        m.written(addr, v).last_hw_write == if in_windows(m.hw_ranges, addr as int) {
            Some((addr, v))
        } else {
            None
        },
        m.written(addr, v).wf(),
{
}

} // verus!
