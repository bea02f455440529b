use vstd::prelude::*;

use crate::memory::map::{MemMap, MemMapView};
use crate::video::framebuffer::{expand_byte_to_u32_array, pixel_of, row_written, FrameBuffer, FrameView};

verus! {

/// Number of programmable registers.
pub const NUM_REGISTERS: usize = 18;

pub const TOTAL_HORIZ_DISP: usize = 1;

pub const TOTAL_VERT_DISP: usize = 6;

pub const SCANLINES_PER_CHAR: usize = 9;

pub const SCREEN_START_HI: usize = 12;

pub const SCREEN_START_LO: usize = 13;

/// Address latch: a write selects a register.
pub const CRTC_ADDRESS: u16 = 0xfe00;

/// Data register: a write stores into the selected register.
pub const CRTC_DATA: u16 = 0xfe01;

/// Video control register of the video ULA; bit 1 selects teletext.
pub const VIDEO_CONTROL: u16 = 0xfe20;

/// Scanlines of a teletext character row.
pub const TELETEXT_SCANLINES_PER_ROW: usize = 19;

/// Screen memory ends where the sideways ROM slot begins.
pub const SCREEN_MEMORY_END: u16 = 0x8000;

/// Where the scanout is.
#[derive(Debug, PartialEq, Eq, Structural, Clone, Copy)]
pub enum VideoState {
    NotInitialized,
    /// Screen start address.
    NewFrame(u16),
    /// Line address, line, character, scanline.
    DisplayingLine(u16, usize, usize, usize),
    /// Next line address, lines displayed.
    EndOfLine(u16, usize),
}

/// A character cell due for display.
#[derive(Debug, PartialEq, Eq, Structural, Clone, Copy)]
pub struct Cell {
    pub line_addr: u16,
    pub row: usize,
    pub col: usize,
    pub scanline: usize,
}

/// What one transition of the scanout leads to.
pub enum Progress {
    Continue,
    Idle,
    Render(Cell),
}

/// The screen start address that the start registers give.
pub open spec fn start_address(hi: u8, lo: u8, teletext: bool) -> u16 {
    if teletext {
        ((((hi ^ 0x20) + 0x74) % 256) * 256 + lo) as u16
    } else {
        (((hi * 256 + lo) * 8) % 0x10000) as u16
    }
}

/// The screen start address that the start registers give.
pub fn calc_start_addr(hi: u8, lo: u8, teletext: bool) -> (a: u16)
    ensures
        a == start_address(hi, lo, teletext),
{
    if teletext {
        let h = (hi ^ 0x20).wrapping_add(0x74);
        h as u16 * 256 + lo as u16
    } else {
        let w: u32 = (hi as u32 * 256 + lo as u32) * 8;
        (w % 0x10000) as u16
    }
}

/// Bounds that the scanout keeps its counters within.
pub open spec fn state_wf(s: VideoState) -> bool {
    match s {
        VideoState::DisplayingLine(_, l, c, sl) => l <= 256 && c <= 255 && sl <= 256 && (c > 0
            ==> sl <= 255),
        VideoState::EndOfLine(_, lines) => lines <= 257,
        _ => true,
    }
}

/// One transition of the scanout, given the registers and the mode.
pub open spec fn transition(s: VideoState, regs: Seq<u8>, teletext: bool) -> (VideoState, Progress) {
    let hd = regs[TOTAL_HORIZ_DISP as int];
    let vd = regs[TOTAL_VERT_DISP as int];
    let spc = regs[SCANLINES_PER_CHAR as int];
    let start = start_address(regs[SCREEN_START_HI as int], regs[SCREEN_START_LO as int], teletext);
    match s {
        VideoState::NotInitialized => if hd == 0 || vd == 0 || start == 0 {
            (s, Progress::Idle)
        } else {
            (VideoState::NewFrame(start), Progress::Continue)
        },
        VideoState::NewFrame(a) => (VideoState::DisplayingLine(a, 0, 0, 0), Progress::Continue),
        VideoState::DisplayingLine(la, l, c, sl) => if hd == 0 {
            (s, Progress::Idle)
        } else if c >= hd {
            (
                VideoState::DisplayingLine(
                    if teletext {
                        la
                    } else {
                        ((la + 1) % 0x10000) as u16
                    },
                    l,
                    0,
                    (sl + 1) as usize,
                ),
                Progress::Continue,
            )
        } else if sl >= spc + 1 {
            let next = if teletext {
                ((la + hd) % 0x10000) as u16
            } else {
                ((la + (hd - 1) * 8) % 0x10000) as u16
            };
            (VideoState::EndOfLine(next, (l + 1) as usize), Progress::Continue)
        } else {
            (
                VideoState::DisplayingLine(la, l, (c + 1) as usize, sl),
                Progress::Render(Cell { line_addr: la, row: l, col: c, scanline: sl }),
            )
        },
        VideoState::EndOfLine(na, lines) => if lines >= vd {
            (VideoState::NewFrame(start), Progress::Continue)
        } else {
            (VideoState::DisplayingLine(na, lines, 0, 0), Progress::Continue)
        },
    }
}

/// How many transitions one cycle may take at most.
pub const TRANSITIONS_PER_CYCLE: usize = 8;

/// The transitions of one cycle: they go on until a cell is due or the
/// scanout idles.
pub open spec fn settle(s: VideoState, regs: Seq<u8>, teletext: bool, fuel: nat) -> (VideoState, Option<Cell>)
    decreases fuel,
{
    if fuel == 0 {
        (s, None)
    } else {
        let (n, p) = transition(s, regs, teletext);
        match p {
            Progress::Continue => settle(n, regs, teletext, (fuel - 1) as nat),
            Progress::Idle => (n, None),
            Progress::Render(c) => (n, Some(c)),
        }
    }
}

/// The scanout after `cycles` cycles.
pub open spec fn scanned(s: VideoState, regs: Seq<u8>, teletext: bool, cycles: nat) -> VideoState
    decreases cycles,
{
    if cycles == 0 {
        s
    } else {
        scanned(settle(s, regs, teletext, TRANSITIONS_PER_CYCLE as nat).0, regs, teletext, (cycles - 1) as nat)
    }
}

/// The controller after it reacts to the last write and then scans for
/// `cycles` cycles.
pub open spec fn crtc_stepped(v: CrtcView, write: Option<(u16, u8)>, cycles: nat) -> CrtcView {
    let p = programmed(v, write);
    CrtcView {
        state: scanned(p.state, p.registers, teletext_mode(p.video_control_reg), cycles),
        ..p
    }
}

/// Whether bit 1 of the video control byte selects teletext.
pub open spec fn teletext_mode(control: u8) -> bool {
    control & 0x02 != 0
}

/// A 6845 CRT controller with its video ULA control byte.
pub struct Crtc6845 {
    registers: Vec<u8>,
    selected_reg: Option<u8>,
    state: VideoState,
    video_control_reg: u8,
}

/// The abstract state of the CRT controller.
pub struct CrtcView {
    pub registers: Seq<u8>,
    pub selected_reg: Option<u8>,
    pub state: VideoState,
    pub video_control_reg: u8,
}

impl View for Crtc6845 {
    type V = CrtcView;

    closed spec fn view(&self) -> CrtcView {
        CrtcView {
            registers: self.registers@,
            selected_reg: self.selected_reg,
            state: self.state,
            video_control_reg: self.video_control_reg,
        }
    }
}

/// The controller after it reacts to the CPU's last write to the hardware
/// window: the address latch selects a register, the data register stores
/// into the selected one, and the control register sets the mode.
pub open spec fn programmed(v: CrtcView, write: Option<(u16, u8)>) -> CrtcView {
    match write {
        Some((a, val)) => if a == CRTC_ADDRESS {
            CrtcView { selected_reg: Some(val), ..v }
        } else if a == CRTC_DATA {
            match v.selected_reg {
                Some(r) => if r < NUM_REGISTERS {
                    CrtcView { registers: v.registers.update(r as int, val), ..v }
                } else {
                    v
                },
                None => v,
            }
        } else if a == VIDEO_CONTROL {
            CrtcView { video_control_reg: val, ..v }
        } else {
            v
        },
        None => v,
    }
}

/// Where a cell's pixels go in the frame, and the bits they show; `None`
/// when the cell shows nothing or falls outside the frame.
pub open spec fn cell_image(v: CrtcView, mem: Seq<u8>, glyphs: Seq<Seq<u8>>, width: int, frame_len: int, cell: Cell) -> Option<(int, u8)> {
    let teletext = teletext_mode(v.video_control_reg);
    let addr = if teletext {
        cell.line_addr + cell.col
    } else {
        cell.line_addr + cell.col * 8
    };
    let rows_per_char = if teletext {
        TELETEXT_SCANLINES_PER_ROW as int
    } else {
        v.registers[SCANLINES_PER_CHAR as int] + 1
    };
    let offset = cell.row * width * rows_per_char + cell.scanline * width + cell.col * 8;
    if addr >= SCREEN_MEMORY_END || offset + 8 > frame_len {
        None
    } else if teletext {
        let b = mem[addr];
        if b < 0x20 || b - 0x20 >= glyphs.len() || cell.scanline >= glyphs[b - 0x20].len() {
            None
        } else {
            Some((offset, glyphs[b - 0x20][cell.scanline as int]))
        }
    } else {
        Some((offset, mem[addr]))
    }
}

/// The frame after a cell is displayed.
pub open spec fn cell_displayed(v: CrtcView, mem: Seq<u8>, glyphs: Seq<Seq<u8>>, f: FrameView, cell: Cell) -> FrameView {
    match cell_image(v, mem, glyphs, f.width as int, f.pixels.len() as int, cell) {
        Some((offset, bits)) => FrameView {
            pixels: row_written(f.pixels, offset, Seq::new(8, |n: int| pixel_of(bits, n))),
            ..f
        },
        None => f,
    }
}

/// The frame after `cycles` cycles of scanning from `s` with the controller
/// programmed as `p`: each cycle shows the cell that its transitions yield.
pub open spec fn drawn(
    p: CrtcView,
    s: VideoState,
    mem: Seq<u8>,
    glyphs: Seq<Seq<u8>>,
    f: FrameView,
    cycles: nat,
) -> FrameView
    decreases cycles,
{
    if cycles == 0 {
        f
    } else {
        let (n, c) = settle(
            s,
            p.registers,
            teletext_mode(p.video_control_reg),
            TRANSITIONS_PER_CYCLE as nat,
        );
        let f2 = match c {
            Some(cell) => cell_displayed(p, mem, glyphs, f, cell),
            None => f,
        };
        drawn(p, n, mem, glyphs, f2, (cycles - 1) as nat)
    }
}

/// The controller at power-on: all registers zero, none selected, not yet
/// displaying.
pub open spec fn crtc_at_reset() -> CrtcView {
    CrtcView {
        registers: Seq::new(NUM_REGISTERS as nat, |i: int| 0u8),
        selected_reg: None,
        state: VideoState::NotInitialized,
        video_control_reg: 0,
    }
}

impl Crtc6845 {
    pub closed spec fn wf(&self) -> bool {
        self.registers@.len() == NUM_REGISTERS && state_wf(self.state)
    }

    /// A controller with all registers zero, not yet displaying.
    pub fn new() -> (c: Crtc6845)
        ensures
            c.wf(),
            c@ == crtc_at_reset(),
    {
        let c = Crtc6845 {
            registers: vec![0u8; NUM_REGISTERS],
            selected_reg: None,
            state: VideoState::NotInitialized,
            video_control_reg: 0,
        };
        assert(c@.registers =~= Seq::new(NUM_REGISTERS as nat, |i: int| 0u8));
        c
    }

    /// Where the scanout is.
    pub fn state(&self) -> (s: VideoState)
        ensures
            s == self@.state,
    {
        self.state
    }

    /// Whether the controller displays teletext.
    pub fn is_teletext(&self) -> (b: bool)
        ensures
            b == teletext_mode(self@.video_control_reg),
    {
        self.video_control_reg & 0x02 != 0
    }

    /// One transition of the scanout.
    fn transition_once(&mut self) -> (p: Progress)
        requires
            old(self).wf(),
        ensures
            final(self).wf(),
            (final(self)@.state, p) == transition(
                old(self)@.state,
                old(self)@.registers,
                teletext_mode(old(self)@.video_control_reg),
            ),
            final(self)@ == (CrtcView { state: final(self)@.state, ..old(self)@ }),
            p matches Progress::Render(c) ==> c.row <= 256 && c.col <= 255 && c.scanline <= 256,
    {
        let hd = self.registers[TOTAL_HORIZ_DISP];
        let vd = self.registers[TOTAL_VERT_DISP];
        let spc = self.registers[SCANLINES_PER_CHAR];
        let teletext = self.is_teletext();
        let start = calc_start_addr(
            self.registers[SCREEN_START_HI],
            self.registers[SCREEN_START_LO],
            teletext,
        );
        match self.state {
            VideoState::NotInitialized => {
                if hd == 0 || vd == 0 || start == 0 {
                    Progress::Idle
                } else {
                    self.state = VideoState::NewFrame(start);
                    Progress::Continue
                }
            },
            VideoState::NewFrame(a) => {
                self.state = VideoState::DisplayingLine(a, 0, 0, 0);
                Progress::Continue
            },
            VideoState::DisplayingLine(la, l, c, sl) => {
                if hd == 0 {
                    Progress::Idle
                } else if c >= hd as usize {
                    let next = if teletext {
                        la
                    } else {
                        la.wrapping_add(1)
                    };
                    self.state = VideoState::DisplayingLine(next, l, 0, sl + 1);
                    Progress::Continue
                } else if sl >= spc as usize + 1 {
                    let next = if teletext {
                        la.wrapping_add(hd as u16)
                    } else {
                        la.wrapping_add((hd as u16 - 1) * 8)
                    };
                    self.state = VideoState::EndOfLine(next, l + 1);
                    Progress::Continue
                } else {
                    self.state = VideoState::DisplayingLine(la, l, c + 1, sl);
                    Progress::Render(Cell { line_addr: la, row: l, col: c, scanline: sl })
                }
            },
            VideoState::EndOfLine(na, lines) => {
                if lines >= vd as usize {
                    self.state = VideoState::NewFrame(start);
                } else {
                    self.state = VideoState::DisplayingLine(na, lines, 0, 0);
                }
                Progress::Continue
            },
        }
    }

    /// The transitions of one cycle: until a cell is due, which is returned,
    /// or the scanout idles.
    pub fn advance(&mut self) -> (cell: Option<Cell>)
        requires
            old(self).wf(),
        ensures
            final(self).wf(),
            (final(self)@.state, cell) == settle(
                old(self)@.state,
                old(self)@.registers,
                teletext_mode(old(self)@.video_control_reg),
                TRANSITIONS_PER_CYCLE as nat,
            ),
            final(self)@ == (CrtcView { state: final(self)@.state, ..old(self)@ }),
            cell matches Some(c) ==> c.row <= 256 && c.col <= 255 && c.scanline <= 256,
    {
        let mut fuel: usize = TRANSITIONS_PER_CYCLE;
        while fuel > 0
            invariant
                self.wf(),
                self@ == (CrtcView { state: self@.state, ..old(self)@ }),
                settle(
                    old(self)@.state,
                    old(self)@.registers,
                    teletext_mode(old(self)@.video_control_reg),
                    TRANSITIONS_PER_CYCLE as nat,
                ) == settle(
                    self@.state,
                    self@.registers,
                    teletext_mode(self@.video_control_reg),
                    fuel as nat,
                ),
            decreases fuel,
        {
            match self.transition_once() {
                Progress::Continue => {},
                Progress::Idle => return None,
                Progress::Render(c) => return Some(c),
            }
            fuel = fuel - 1;
        }
        None
    }

    /// Reacts to the CPU's last write to the hardware window.
    fn program(&mut self, write: Option<(u16, u8)>)
        requires
            old(self).wf(),
        ensures
            final(self).wf(),
            final(self)@ == programmed(old(self)@, write),
    {
        match write {
            Some((a, val)) => {
                if a == CRTC_ADDRESS {
                    self.selected_reg = Some(val);
                } else if a == CRTC_DATA {
                    match self.selected_reg {
                        Some(r) => {
                            if (r as usize) < NUM_REGISTERS {
                                self.registers.set(r as usize, val);
                            }
                        },
                        None => {},
                    }
                } else if a == VIDEO_CONTROL {
                    self.video_control_reg = val;
                }
            },
            None => {},
        }
    }

    /// Shows a cell in the frame: a teletext glyph row, or a byte of bitmap
    /// screen memory.
    pub fn render_cell(&self, cell: Cell, mem: &MemMap, fb: &mut FrameBuffer, glyphs: &Vec<Vec<u8>>)
        requires
            self.wf(),
            mem.wf(),
            cell.row <= 256,
            cell.col <= 255,
            cell.scanline <= 256,
        ensures
            final(fb)@ == cell_displayed(
                self@,
                mem@.bytes,
                glyphs@.map_values(|g: Vec<u8>| g@),
                old(fb)@,
                cell,
            ),
    {
        proof {
            mem.lemma_wf();
        }
        let teletext = self.is_teletext();
        let addr: u32 = if teletext {
            cell.line_addr as u32 + cell.col as u32
        } else {
            cell.line_addr as u32 + cell.col as u32 * 8
        };
        let rows_per_char: u128 = if teletext {
            TELETEXT_SCANLINES_PER_ROW as u128
        } else {
            self.registers[SCANLINES_PER_CHAR] as u128 + 1
        };
        let width = fb.width() as u128;
        assert(width <= 0xffff_ffff_ffff_ffff);
        assert(cell.row * width <= 256 * 0xffff_ffff_ffff_ffff) by (nonlinear_arith)
            requires
                cell.row <= 256,
                width <= 0xffff_ffff_ffff_ffff,
        ;
        let a: u128 = cell.row as u128 * width;
        assert(a * rows_per_char <= 256 * 0xffff_ffff_ffff_ffff * 256) by (nonlinear_arith)
            requires
                a <= 256 * 0xffff_ffff_ffff_ffff,
                rows_per_char <= 256,
        ;
        assert(cell.scanline * width <= 256 * 0xffff_ffff_ffff_ffff) by (nonlinear_arith)
            requires
                cell.scanline <= 256,
                width <= 0xffff_ffff_ffff_ffff,
        ;
        let offset: u128 = a * rows_per_char + cell.scanline as u128 * width + cell.col as u128 * 8;
        let frame_len = fb.len();
        if addr >= SCREEN_MEMORY_END as u32 || offset + 8 > frame_len as u128 {
            return;
        }
        let bits: u8 = if teletext {
            let b = mem.peek(addr as u16);
            if b < 0x20 || (b - 0x20) as usize >= glyphs.len() {
                return;
            }
            let g = &glyphs[(b - 0x20) as usize];
            if cell.scanline >= g.len() {
                return;
            }
            g[cell.scanline]
        } else {
            mem.peek(addr as u16)
        };
        let px = expand_byte_to_u32_array(bits);
        assert(px@ =~= Seq::new(8, |n: int| pixel_of(bits, n)));
        fb.put_row(offset as usize, &px);
    }

    /// Advances the controller by `cycles`: it reacts to the CPU's last write
    /// to its registers, then each cycle moves the scanout on until a cell is
    /// due, and shows that cell in the frame.
    pub fn step(&mut self, cycles: usize, mem: &MemMap, fb: &mut FrameBuffer, glyphs: &Vec<Vec<u8>>)
        requires
            old(self).wf(),
            mem.wf(),
        ensures
            final(self).wf(),
            final(self)@ == crtc_stepped(old(self)@, mem@.last_hw_write, cycles as nat),
            ({
                let p = programmed(old(self)@, mem@.last_hw_write);
                final(fb)@ == drawn(
                    p,
                    p.state,
                    mem@.bytes,
                    glyphs@.map_values(|g: Vec<u8>| g@),
                    old(fb)@,
                    cycles as nat,
                )
            }),
    {
        self.program(mem.last_hw_write());
        let ghost p = self@;
        let mut i: usize = 0;
        while i < cycles
            invariant
                self.wf(),
                mem.wf(),
                i <= cycles,
                self@ == (CrtcView { state: self@.state, ..p }),
                scanned(p.state, p.registers, teletext_mode(p.video_control_reg), cycles as nat)
                    == scanned(
                    self@.state,
                    p.registers,
                    teletext_mode(p.video_control_reg),
                    (cycles - i) as nat,
                ),
                drawn(
                    p,
                    p.state,
                    mem@.bytes,
                    glyphs@.map_values(|g: Vec<u8>| g@),
                    old(fb)@,
                    cycles as nat,
                ) == drawn(
                    p,
                    self@.state,
                    mem@.bytes,
                    glyphs@.map_values(|g: Vec<u8>| g@),
                    fb@,
                    (cycles - i) as nat,
                ),
            decreases cycles - i,
        {
            let ghost f0 = fb@;
            let next = self.advance();
            match next {
                Some(cell) => {
                    self.render_cell(cell, mem, fb, glyphs);
                    assert(fb@ == cell_displayed(
                        p,
                        mem@.bytes,
                        glyphs@.map_values(|g: Vec<u8>| g@),
                        f0,
                        cell,
                    ));
                },
                None => {},
            }
            i = i + 1;
        }
    }
}

/// A controller that is not yet displaying starts a new frame exactly when
/// the horizontal and vertical displayed counts and the screen start address
/// are all non-zero, and the frame starts at that address.
pub proof fn lemma_new_frame_entry(regs: Seq<u8>, teletext: bool)
    ensures
        ({
            let start = start_address(regs[SCREEN_START_HI as int], regs[SCREEN_START_LO as int], teletext);
            let (next, _) = transition(VideoState::NotInitialized, regs, teletext);
            &&& next is NewFrame <==> (regs[TOTAL_HORIZ_DISP as int] > 0 && regs[TOTAL_VERT_DISP as int] > 0 && start > 0)
            &&& next is NewFrame ==> next == VideoState::NewFrame(start)
            &&& !(next is NewFrame) ==> next == VideoState::NotInitialized
        }),
{
}

/// A controller that idles before its first frame stays so, and leaves the
/// frame untouched, however many cycles it runs.
pub proof fn lemma_idle_keeps_frame(
    p: CrtcView,
    mem: Seq<u8>,
    glyphs: Seq<Seq<u8>>,
    f: FrameView,
    cycles: nat,
)
    requires
        transition(VideoState::NotInitialized, p.registers, teletext_mode(p.video_control_reg)).1 is Idle,
    ensures
        drawn(p, VideoState::NotInitialized, mem, glyphs, f, cycles) == f,
        scanned(
            VideoState::NotInitialized,
            p.registers,
            teletext_mode(p.video_control_reg),
            cycles,
        ) == VideoState::NotInitialized,
    decreases cycles,
{
    if cycles > 0 {
        lemma_idle_keeps_frame(p, mem, glyphs, f, (cycles - 1) as nat);
    }
}

} // verus!
