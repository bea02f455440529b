use bbc_em::memory::{MemMap, RegionMut};

fn use_slice(_slice: &[u8]) {}

fn use_mut_slice(_slice: &mut [u8]) {}

#[test]
fn return_err_when_accessing_hw_region() {
    let mut map = MemMap::new().with_hw_range(0xfe00 as usize..0xff00 as usize);

    assert!(map.region(0xfd04 as usize..0xfe25 as usize).is_err());
    assert!(map.region(0xfe04 as usize..0xff25 as usize).is_err());
    assert!(map.region(0xfd04 as usize..0xff25 as usize).is_err());
    assert!(map.region_from_mut(0xfedc as usize..).is_err());
    assert!(map.region_to_mut(..0xfedc).is_err());
}

#[test]
fn return_ok_when_not_accessing_hw_region() {
    let map = MemMap::new().with_hw_range(0xfe00 as usize..0xff00 as usize);

    assert!(map.region(0x0000 as usize..0x0300 as usize).is_ok());
    assert!(map.region_from(0xff00 as usize..).is_ok());
    assert!(map.region_to(..0xfe00).is_ok());
}

#[test]
fn deref_to_mut_slice_for_range() {
    let mut map = MemMap::new();
    use_mut_slice(&mut map.region_to_mut(..0x0100).unwrap());
}

#[test]
fn deref_to_slice_for_range() {
    let map = MemMap::new();
    use_slice(&map.region_to(..0x0100).unwrap());
}

#[test]
fn should_report_last_hw_read() {
    let mut map = MemMap::new().with_hw_range(0xfe00 as usize..0xff00 as usize);

    let _ = map.read(0xfe40);
    assert_eq!(Some(0xfe40), map.last_hw_read());

    let _ = map.read(0x0100);
    assert_eq!(None, map.last_hw_read());
}

#[test]
fn should_report_last_hw_write() {
    let mut map = MemMap::new().with_hw_ranges(vec![0xfe00 as usize..0xff00 as usize]);

    map.write(0xfe40, 0xde);
    assert_eq!(Some((0xfe40, 0xde)), map.last_hw_write());

    map.write(0x0001, 0xde);
    assert_eq!(None, map.last_hw_write());
}

#[test]
fn write_then_read_gives_the_byte_back() {
    let mut map = MemMap::new().with_hw_range(0xfe00..0xff00);
    map.write(0x1234, 0x77);
    assert_eq!(map.read(0x1234), 0x77);
    assert_eq!(map.last_hw_write(), None);
    map.write(0xfe10, 0x12);
    assert_eq!(map.read(0xfe10), 0x12);
    assert_eq!(map.last_hw_write(), Some((0xfe10, 0x12)));
    assert_eq!(map.last_hw_read(), Some(0xfe10));
}

#[test]
fn window_end_is_exclusive() {
    let mut map = MemMap::new().with_hw_range(0xfe00..0xff00);
    map.write(0xff00, 1);
    assert_eq!(map.last_hw_write(), None);
    let _ = map.read(0xfeff);
    assert_eq!(map.last_hw_read(), Some(0xfeff));
}

#[test]
fn clearing_forgets_the_last_access() {
    let mut map = MemMap::new().with_hw_range(0xfe00..0xff00);
    map.write(0xfe40, 1);
    let _ = map.read(0xfe41);
    map.clear_last_hw_access();
    assert_eq!(map.last_hw_write(), None);
    assert_eq!(map.last_hw_read(), None);
}

#[test]
fn mutable_region_writes_reach_memory() {
    let mut map = MemMap::new();
    {
        let mut r: RegionMut = map.region_mut(0x10..0x12).unwrap();
        r[0] = 9;
        r[1] = 8;
    }
    assert_eq!(map.peek(0x10), 9);
    assert_eq!(map.peek(0x11), 8);
    assert_eq!(map.len(), 0x10000);
}

#[test]
fn paged_rom_switch_keeps_modifications() {
    let mut map = MemMap::new().with_hw_range(0xfe00..0xff00);
    let a: Vec<u8> = (0..0x4000).map(|i| (i % 251) as u8).collect();
    let b: Vec<u8> = (0..0x4000).map(|i| (i % 13 + 100) as u8).collect();
    map.add_paged_rom(a.clone());
    map.add_paged_rom(b.clone());
    assert_eq!(map.read(0x8000), a[0]);
    assert_eq!(map.read(0xbfff), a[0x3fff]);
    map.write(0x8001, 0xee);
    map.write(0xfe30, 1);
    assert_eq!(map.read(0x8000), b[0]);
    assert_eq!(map.read(0x8001), b[1]);
    map.write(0xfe30, 0);
    assert_eq!(map.read(0x8000), a[0]);
    assert_eq!(map.read(0x8001), 0xee);
}

#[test]
fn paging_in_a_missing_rom_changes_nothing() {
    let mut map = MemMap::new();
    map.add_paged_rom(vec![1, 2, 3]);
    assert_eq!(map.read(0x8000), 1);
    map.write(0xfe30, 5);
    assert_eq!(map.read(0x8000), 1);
    assert_eq!(map.read(0x8003), 0);
}

#[test]
fn copy_is_cut_at_the_end_of_memory() {
    let mut map = MemMap::new();
    map.copy_into(0xfffe, &[1, 2, 3, 4]);
    assert_eq!(map.peek(0xfffe), 1);
    assert_eq!(map.peek(0xffff), 2);
}
