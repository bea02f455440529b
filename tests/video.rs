use bbc_em::memory::MemMap;
use bbc_em::video::crtc::VideoState;
use bbc_em::video::framebuffer::expand_byte_to_u32_array;
use bbc_em::video::{Crtc6845, FrameBuffer};

fn program(crtc: &mut Crtc6845, mem: &mut MemMap, fb: &mut FrameBuffer, reg: u8, val: u8) {
    let glyphs: Vec<Vec<u8>> = Vec::new();
    mem.write(0xfe00, reg);
    crtc.step(0, mem, fb, &glyphs);
    mem.write(0xfe01, val);
    crtc.step(0, mem, fb, &glyphs);
    mem.clear_last_hw_access();
}

#[test]
fn byte_expands_most_significant_bit_first() {
    let px = expand_byte_to_u32_array(0xa0);
    assert_eq!(px, [0xffffffff, 0, 0xffffffff, 0, 0, 0, 0, 0]);
}

#[test]
fn new_frame_waits_for_displayed_counts_and_start_address() {
    let mut mem = MemMap::new().with_hw_range(0xfe00..0xff00);
    let mut fb = FrameBuffer::new(640, 480);
    let mut crtc = Crtc6845::new();
    let glyphs: Vec<Vec<u8>> = Vec::new();
    program(&mut crtc, &mut mem, &mut fb, 1, 40);
    program(&mut crtc, &mut mem, &mut fb, 6, 25);
    crtc.step(1, &mem, &mut fb, &glyphs);
    assert_eq!(crtc.state(), VideoState::NotInitialized);
    program(&mut crtc, &mut mem, &mut fb, 12, 0x06);
    mem.copy_into(0x3000, &[0xf0]);
    crtc.step(1, &mem, &mut fb, &glyphs);
    assert_eq!(crtc.state(), VideoState::DisplayingLine(0x3000, 0, 1, 0));
    assert_eq!(&fb.bytes()[0..8], &[0xffffffff, 0xffffffff, 0xffffffff, 0xffffffff, 0, 0, 0, 0]);
}

#[test]
fn teletext_cell_shows_its_glyph_row() {
    let mut mem = MemMap::new().with_hw_range(0xfe00..0xff00);
    let mut fb = FrameBuffer::new(640, 480);
    let mut crtc = Crtc6845::new();
    let mut glyphs: Vec<Vec<u8>> = vec![Vec::new(); 0x60];
    glyphs[0x21] = vec![0x81, 0x42];
    program(&mut crtc, &mut mem, &mut fb, 1, 40);
    program(&mut crtc, &mut mem, &mut fb, 6, 25);
    program(&mut crtc, &mut mem, &mut fb, 9, 18);
    program(&mut crtc, &mut mem, &mut fb, 12, 0x28);
    mem.write(0xfe20, 0x02);
    crtc.step(0, &mem, &mut fb, &glyphs);
    mem.clear_last_hw_access();
    assert!(crtc.is_teletext());
    mem.copy_into(0x7c00, &[0x41]);
    crtc.step(1, &mem, &mut fb, &glyphs);
    assert_eq!(crtc.state(), VideoState::DisplayingLine(0x7c00, 0, 1, 0));
    assert_eq!(fb.bytes()[0], 0xffffffff);
    assert_eq!(fb.bytes()[1], 0);
    assert_eq!(fb.bytes()[7], 0xffffffff);
}

#[test]
fn displaying_zero_characters_idles() {
    let mut mem = MemMap::new().with_hw_range(0xfe00..0xff00);
    let mut fb = FrameBuffer::new(16, 16);
    let mut crtc = Crtc6845::new();
    let glyphs: Vec<Vec<u8>> = Vec::new();
    program(&mut crtc, &mut mem, &mut fb, 1, 1);
    program(&mut crtc, &mut mem, &mut fb, 6, 1);
    program(&mut crtc, &mut mem, &mut fb, 12, 0x06);
    crtc.step(1, &mem, &mut fb, &glyphs);
    program(&mut crtc, &mut mem, &mut fb, 1, 0);
    crtc.step(5, &mem, &mut fb, &glyphs);
    assert_eq!(crtc.state(), VideoState::DisplayingLine(0x3000, 0, 1, 0));
}
