use bbc_em::memory::MemMap;
use bbc_em::timer::Timer;
use bbc_em::via::interrupts::{Enabled, Flags, InterruptType, Interrupts};
use bbc_em::via::peripheral_port::PeripheralPort;
use bbc_em::via::registers::KeyboardBuffer;
use bbc_em::via::System;

#[test]
fn set_all_ddr_read_bits_to_one() {
    let mut port = PeripheralPort::default();

    port.set_data_direction(0x7f);
    port.write(0x01);

    assert_eq!(0x81, u8::from(port.io()));
    assert_eq!(0x80, port.read());
}

#[test]
fn report_correct_key_is_down() {
    let mut kb = KeyboardBuffer::default();
    kb.key_down(16);

    assert!(kb.is_emulated_key_down(0x53));
}

#[test]
fn held_key_is_found_at_its_matrix_position() {
    let mut kb = KeyboardBuffer::default();
    kb.key_down(16);
    assert!(kb.is_emulated_key_down(0x53));
    assert!(!kb.is_emulated_key_down(0x54));
    assert_eq!(kb.len(), 1);
    kb.clear();
    assert!(!kb.is_emulated_key_down(0x53));
}

#[test]
fn key_ring_wraps_after_sixteen_keys() {
    let mut kb = KeyboardBuffer::default();
    for k in 0..15 {
        kb.key_down(k);
    }
    assert_eq!(kb.len(), 15);
    kb.key_down(35);
    assert_eq!(kb.len(), 0);
}

#[test]
fn ifr_write_clears_the_given_bits() {
    let mut i = Interrupts::new(Flags(0x23), Enabled(0));
    i.clear_flags(Flags(0xa1));
    assert_eq!(i.flags().0, 0x82);
    i.clear_flags(Flags(0x02));
    assert_eq!(i.flags().0, 0x00);
}

#[test]
fn ier_write_sets_or_clears_by_bit_seven() {
    let mut i = Interrupts::new(Flags(0), Enabled(0x83));
    i.set_enabled(Enabled(0x02));
    assert_eq!(i.enable_mask(), 0x01);
    i.set_enabled(Enabled(0xa2));
    assert_eq!(i.enable_mask(), 0xa3);
    assert_eq!(i.enabled().0, 0xa3);
}

#[test]
fn ier_write_of_83_then_02_keeps_bit_zero_only() {
    let mut i = Interrupts::new(Flags(0), Enabled(0));
    i.set_enabled(Enabled(0x83));
    assert!(i.is_enabled(InterruptType::Keyboard));
    assert!(i.is_enabled(InterruptType::VerticalSync));
    i.set_enabled(Enabled(0x02));
    assert!(i.is_enabled(InterruptType::Keyboard));
    assert!(!i.is_enabled(InterruptType::VerticalSync));
}

#[test]
fn signalled_source_sets_its_flag_and_the_summary_bit() {
    let mut i = Interrupts::default();
    i.signal(&[InterruptType::Timer1]);
    assert!(i.is_signalled(InterruptType::Timer1));
    assert_eq!(i.flags().0, 0xc0);
    i.set_enabled(Enabled(0xc0));
    assert_eq!(i.active().0, 0xc0);
    assert_eq!(i.drain_signalled().0, 0x40);
    assert_eq!(i.drain_signalled().0, 0x00);
    i.clear(&[InterruptType::Timer1]);
    assert_eq!(i.flags().0, 0x00);
}

#[test]
fn interrupt_iterator_walks_the_sources_in_order() {
    let mut it = Flags(0x63).iter();
    assert_eq!(it.next(), Some(InterruptType::Keyboard));
    assert_eq!(it.next(), Some(InterruptType::VerticalSync));
    assert_eq!(it.next(), Some(InterruptType::Timer2));
    assert_eq!(it.next(), Some(InterruptType::Timer1));
    assert_eq!(it.next(), None);
    let mut none = Enabled(0x1c).iter();
    assert_eq!(none.next(), None);
}

#[test]
fn timer_fires_every_twenty_milliseconds() {
    let mut t = Timer::new();
    assert!(!t.step(39_999));
    assert!(t.step(2));
    assert!(!t.step(39_998));
    assert!(t.step(1));
}

#[test]
fn via_raises_timer_and_vsync_every_interval() {
    let mut mem = MemMap::new().with_hw_range(0xfe00..0xff00);
    let mut via = System::new();
    mem.write(0xfe4e, 0xc2);
    assert!(!via.step(2, &mut mem, |_| false));
    mem.clear_last_hw_access();
    assert_eq!(mem.peek(0xfe4e), 0xc2);
    assert!(!via.step(39_997, &mut mem, |_| false));
    assert!(via.step(1, &mut mem, |_| false));
    assert_eq!(mem.peek(0xfe4d), 0xc2);
    mem.write(0xfe4d, 0x42);
    assert!(!via.step(1, &mut mem, |_| false));
    assert_eq!(mem.peek(0xfe4d), 0x00);
}

#[test]
fn keyboard_probe_reports_a_held_key() {
    let mut mem = MemMap::new().with_hw_range(0xfe00..0xff00);
    let mut via = System::new();
    via.keydown(16);
    mem.write(0xfe43, 0x7f);
    via.step(1, &mut mem, |_| false);
    mem.clear_last_hw_access();
    mem.write(0xfe4f, 0x53);
    via.step(1, &mut mem, |_| false);
    assert_eq!(mem.peek(0xfe4f) & 0x80, 0x80);
    mem.clear_last_hw_access();
    mem.write(0xfe4f, 0x54);
    via.step(1, &mut mem, |_| false);
    assert_eq!(mem.peek(0xfe4f) & 0x80, 0x00);
}
