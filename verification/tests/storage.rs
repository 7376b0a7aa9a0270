use uarch_emu::storage::{
    ArchValue, ArchitecturalRegisters, ArchitecturalStorage, ReorderBuffer, SSAVirtualRegisters,
    VirtualStorage,
};

#[test]
fn rob_full() {
    let mut rob = ReorderBuffer::new(32);
    for _i in 0..32 {
        assert!(rob.allocate().is_some());
    }
    assert!(rob.allocate().is_none());
}

#[test]
fn rob_allocates_in_order_and_wraps() {
    let mut rob = ReorderBuffer::new(4);
    assert_eq!(rob.allocate(), Some(0));
    assert_eq!(rob.allocate(), Some(1));
    assert_eq!(rob.allocate(), Some(2));
    assert_eq!(rob.allocate(), Some(3));
    assert_eq!(rob.allocate(), None);
    // the head is back at entry 0, which is still in flight
    rob.free(1);
    assert_eq!(rob.allocate(), None);
    rob.free(0);
    assert_eq!(rob.allocate(), Some(0));
    assert_eq!(rob.allocate(), Some(1));
    assert_eq!(rob.allocate(), None);
}

#[test]
fn rob_entry_cycles_through_its_states() {
    let mut rob = ReorderBuffer::new(2);
    // Free
    assert_eq!(rob.resolve(0), None);
    // InFlight
    let idx = rob.allocate().unwrap();
    assert_eq!(idx, 0);
    assert_eq!(rob.resolve(idx), None);
    // Valid
    rob.write(idx, 0xdead_beef);
    assert_eq!(rob.resolve(idx), Some(0xdead_beef));
    assert_eq!(rob.resolve(1), None);
    // Free again
    rob.free(idx);
    assert_eq!(rob.resolve(idx), None);
}

#[test]
fn rob_without_entries_never_allocates() {
    let mut rob = ReorderBuffer::new(0);
    assert_eq!(rob.allocate(), None);
    assert_eq!(rob.allocate(), None);
}

#[test]
fn ssa_arena_grows_by_one_slot_per_allocation() {
    let mut regs = SSAVirtualRegisters::new();
    assert_eq!(regs.allocate(), Some(0));
    assert_eq!(regs.allocate(), Some(1));
    assert_eq!(regs.allocate(), Some(2));
    assert_eq!(regs.resolve(1), None);
    regs.write(1, 7);
    assert_eq!(regs.resolve(0), None);
    assert_eq!(regs.resolve(1), Some(7));
    assert_eq!(regs.resolve(2), None);
    regs.free(1);
    assert_eq!(regs.resolve(1), None);
    // a freed slot can be written again
    regs.write(1, 9);
    assert_eq!(regs.resolve(1), Some(9));
}

#[test]
fn architectural_registers_chase_names_once() {
    let mut backing = SSAVirtualRegisters::new();
    let mut arch = ArchitecturalRegisters::new();
    for i in 0..32 {
        assert_eq!(arch.resolve(i, &backing), Some(0));
    }
    arch.write(3, 33);
    assert_eq!(arch.resolve(3, &backing), Some(33));

    let name = backing.allocate().unwrap();
    arch.rename(3, name);
    assert_eq!(arch.resolve(3, &backing), None);
    backing.write(name, 44);
    assert_eq!(arch.resolve(3, &backing), Some(44));
    assert_eq!(arch.resolve(4, &backing), Some(0));

    arch.write(3, 55);
    assert_eq!(arch.resolve(3, &backing), Some(55));
}

#[test]
fn arch_value_variants_differ() {
    assert_ne!(ArchValue::Valid(1), ArchValue::Name(1));
    assert_eq!(ArchValue::Name(2), ArchValue::Name(2));
}
