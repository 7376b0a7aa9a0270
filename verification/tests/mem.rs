use uarch_emu::mem::{DataMemory, Memory, Mmu, DATA_MEMORY_SIZE};

#[test]
fn new_memory_is_zeroed() {
    let mem = Memory::new(64);
    assert_eq!(mem.size(), 64);
    for addr in 0..64 {
        assert_eq!(mem.load8(addr), 0);
    }
    assert_eq!(mem.load32(60), 0);
}

#[test]
fn empty_memory_has_no_bytes() {
    let mem = Memory::new(0);
    assert_eq!(mem.size(), 0);
}

#[test]
fn mmu_can_be_made() {
    let _mmu = Mmu::new();
}

#[test]
fn write_copies_a_slice() {
    let mut mem = Memory::new(16);
    mem.write(4, &[1, 2, 3, 4, 5]);
    assert_eq!(mem.data, vec![0, 0, 0, 0, 1, 2, 3, 4, 5, 0, 0, 0, 0, 0, 0, 0]);
    mem.write(14, &[9, 8]);
    assert_eq!(mem.load8(14), 9);
    assert_eq!(mem.load8(15), 8);
    mem.write(16, &[]);
    assert_eq!(mem.size(), 16);
}

#[test]
fn store_then_load_gives_the_value_back() {
    let mut mem = Memory::new(32);
    mem.store32(8, 0xdead_beef);
    assert_eq!(mem.load32(8), 0xdead_beef);
    assert_eq!(mem.read32(8), 0xdead_beef);
    mem.store16(3, 0xabcd);
    assert_eq!(mem.load16(3), 0xabcd);
    mem.store8(31, 0x7f);
    assert_eq!(mem.load8(31), 0x7f);
    // an unaligned word at the very end of memory
    mem.store32(27, 0x0102_0304);
    assert_eq!(mem.load32(27), 0x0102_0304);
}

#[test]
fn stores_are_little_endian() {
    let mut mem = Memory::new(16);
    mem.store32(4, 0x0403_0201);
    assert_eq!(mem.load8(4), 1);
    assert_eq!(mem.load8(5), 2);
    assert_eq!(mem.load8(6), 3);
    assert_eq!(mem.load8(7), 4);
    assert_eq!(mem.load16(4), 0x0201);
    assert_eq!(mem.load16(6), 0x0403);
    mem.store16(10, 0xbbaa);
    assert_eq!(mem.load8(10), 0xaa);
    assert_eq!(mem.load8(11), 0xbb);
}

#[test]
fn loads_are_little_endian() {
    let mut mem = Memory::new(8);
    mem.write(0, &[0x78, 0x56, 0x34, 0x12, 0xff, 0x00, 0x00, 0x80]);
    assert_eq!(mem.load32(0), 0x1234_5678);
    assert_eq!(mem.load16(1), 0x3456);
    assert_eq!(mem.load32(4), 0x8000_00ff);
}

#[test]
fn a_store_leaves_the_other_bytes_alone() {
    let mut mem = Memory::new(12);
    mem.write(0, &[1, 2, 3, 4, 5, 6, 7, 8, 9, 10, 11, 12]);
    mem.store32(4, 0xffff_ffff);
    assert_eq!(mem.data, vec![1, 2, 3, 4, 0xff, 0xff, 0xff, 0xff, 9, 10, 11, 12]);
    mem.store16(1, 0);
    assert_eq!(mem.data, vec![1, 0, 0, 4, 0xff, 0xff, 0xff, 0xff, 9, 10, 11, 12]);
}

#[test]
fn data_memory_has_64_kib() {
    let mem = DataMemory::new();
    assert_eq!(mem.size(), 0x0001_0000);
    assert_eq!(DATA_MEMORY_SIZE, 0x0001_0000);
}

#[test]
fn data_memory_starts_with_arbitrary_bytes() {
    // 65536 random bytes are all equal with a chance of 256^-65535.
    let mem = DataMemory::new();
    let first = mem.load8(0);
    let mut all_equal = true;
    for addr in 0..mem.size() {
        if mem.load8(addr) != first {
            all_equal = false;
        }
    }
    assert!(!all_equal);
}

#[test]
fn data_memory_loads_and_stores() {
    let mut mem = DataMemory::from_memory(Memory::new(16));
    mem.store32(0, 0x0403_0201);
    assert_eq!(mem.load8(0), 1);
    assert_eq!(mem.load8(3), 4);
    assert_eq!(mem.load16(2), 0x0403);
    assert_eq!(mem.load32(0), 0x0403_0201);
    mem.store16(8, 0x1122);
    assert_eq!(mem.load16(8), 0x1122);
    mem.store8(15, 0x33);
    assert_eq!(mem.load8(15), 0x33);
}
