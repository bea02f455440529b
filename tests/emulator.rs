use bbc_em::emulator::{BbcEmulator, Emulator, StepResult};
use bbc_em::memory::MemMap;
use bbc_em::video::FrameBuffer;

fn os_rom(program: &[u8], irq: u16) -> Vec<u8> {
    let mut rom = vec![0xeau8; 0x4000];
    rom[..program.len()].copy_from_slice(program);
    rom[0x3ffc] = 0x00;
    rom[0x3ffd] = 0xc0;
    rom[0x3ffe] = (irq & 0xff) as u8;
    rom[0x3fff] = (irq >> 8) as u8;
    rom
}

#[test]
fn steps_run_instructions_and_report_cycles() {
    let mut emu = BbcEmulator::with_memory(MemMap::new().with_hw_range(0xfe00..0xff00));
    emu.place_rom_at(0xc000, &os_rom(&[0xa9, 0x05, 0x8d, 0x00, 0x30], 0xd000));
    emu.initialize().unwrap();
    let mut fb = FrameBuffer::new(640, 480);
    assert_eq!(emu.step(&mut fb, |_| false).unwrap(), StepResult::Progressed(2));
    assert_eq!(emu.step(&mut fb, |_| false).unwrap(), StepResult::Progressed(4));
    assert_eq!(emu.mem().peek(0x3000), 0x05);
    assert_eq!(emu.cpu().program_counter(), 0xc005);
}

#[test]
fn timer_interrupt_reaches_the_cpu() {
    // LDX #$FF; TXS; LDA #$C0; STA $FE4E; CLI; JMP $C009
    let program = [0xa2, 0xff, 0x9a, 0xa9, 0xc0, 0x8d, 0x4e, 0xfe, 0x58, 0x4c, 0x09, 0xc0];
    let mut emu = BbcEmulator::with_memory(MemMap::new().with_hw_range(0xfe00..0xff00));
    emu.place_rom_at(0xc000, &os_rom(&program, 0xd000));
    emu.initialize().unwrap();
    let mut fb = FrameBuffer::new(640, 480);
    let mut cycles: u64 = 0;
    while emu.cpu().program_counter() < 0xd000 && cycles < 50_000 {
        match emu.step(&mut fb, |_| false).unwrap() {
            StepResult::Progressed(c) => cycles += c as u64,
            _ => break,
        }
    }
    assert_eq!(emu.cpu().program_counter(), 0xd000);
    assert!(cycles >= 40_000);
    assert!(emu.cpu().registers().status.interrupt);
}

#[test]
fn unknown_opcode_stops_the_step() {
    let mut emu = BbcEmulator::with_memory(MemMap::new());
    emu.place_rom_at(0xc000, &os_rom(&[0x02], 0xd000));
    emu.initialize().unwrap();
    let mut fb = FrameBuffer::new(8, 8);
    assert!(emu.step(&mut fb, |_| false).is_err());
}
