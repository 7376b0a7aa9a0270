//! Storage for register renaming: architectural registers that hold a value or the name of
//! a slot in a backing store, and two backing stores.

use vstd::prelude::*;

verus! {

/// A store of slots that are allocated, written once, read, and freed.
pub trait VirtualStorage {
    /// The number of slots.
    spec fn slots(&self) -> nat;

    /// The value that slot `idx` resolves to, if it holds one.
    spec fn value(&self, idx: int) -> Option<u32>;

    /// Whether slot `idx` is allocated and waits for its value.
    spec fn awaited(&self, idx: int) -> bool;

    /// The invariant of the store.
    spec fn inv(&self) -> bool;

    /// Whether two stores agree on every slot of the first but `idx`.
    open spec fn same_but(&self, other: &Self, idx: int) -> bool {
        forall|j: int|
            0 <= j < self.slots() && j != idx ==> j < other.slots() && #[trigger] other.value(j)
                == self.value(j) && other.awaited(j) == self.awaited(j)
    }

    /// The value of slot `idx`, if it holds one.
    fn resolve(&self, idx: usize) -> (r: Option<u32>)
        requires
            self.inv(),
            idx < self.slots(),
        ensures
            r == self.value(idx as int),
    ;

    /// Allocates a slot, which then waits for its value, and gives its index; or gives
    /// `None` and changes nothing.
    fn allocate(&mut self) -> (r: Option<usize>)
        requires
            old(self).inv(),
        ensures
            final(self).inv(),
            match r {
                Some(idx) => idx < final(self).slots() && final(self).awaited(idx as int)
                    && final(self).value(idx as int) is None && old(self).same_but(
                    final(self),
                    idx as int,
                ),
                None => final(self).slots() == old(self).slots() && old(self).same_but(
                    final(self),
                    -1,
                ),
            },
    ;

    /// Gives slot `idx`, which waits for it, its value.
    fn write(&mut self, idx: usize, data: u32)
        requires
            old(self).inv(),
            idx < old(self).slots(),
            old(self).awaited(idx as int),
        ensures
            final(self).inv(),
            final(self).slots() == old(self).slots(),
            final(self).value(idx as int) == Some(data),
            !final(self).awaited(idx as int),
            old(self).same_but(final(self), idx as int),
    ;

    /// Takes the value of slot `idx` away.
    fn free(&mut self, idx: usize)
        requires
            old(self).inv(),
            idx < old(self).slots(),
        ensures
            final(self).inv(),
            final(self).slots() == old(self).slots(),
            final(self).value(idx as int) is None,
            old(self).same_but(final(self), idx as int),
    ;
}

/// Representing the state of some architectural register.
#[derive(Clone, Copy, Debug, PartialEq, Eq, Structural)]
pub enum ArchValue {
    /// The value in this register is valid.
    Valid(u32),
    /// This register is mapped to the name of a physical register: a slot of a backing
    /// store.
    Name(usize),
}

/// Representing the state of some physical register.
#[derive(Clone, Copy, Debug, PartialEq, Eq, Structural)]
pub enum PhysValue {
    /// The value in this physical register is valid.
    Valid(u32),
    /// This physical register is empty.
    Invalid,
}

/// A set of architectural registers over a backing store.
pub trait ArchitecturalStorage {
    type Backing: VirtualStorage;

    /// What each register holds.
    spec fn entries(&self) -> Seq<ArchValue>;

    /// The value of register `idx`: its own, or that of the slot it names. Names are chased
    /// once.
    fn resolve(&self, idx: usize, s: &Self::Backing) -> (r: Option<u32>)
        requires
            idx < self.entries().len(),
            s.inv(),
            self.entries()[idx as int] matches ArchValue::Name(n) ==> n < s.slots(),
        ensures
            r == match self.entries()[idx as int] {
                ArchValue::Valid(x) => Some(x),
                ArchValue::Name(n) => s.value(n as int),
            },
    ;

    /// Makes register `idx` stand for the slot `name`.
    fn rename(&mut self, idx: usize, name: usize)
        requires
            idx < old(self).entries().len(),
        ensures
            final(self).entries() == old(self).entries().update(
                idx as int,
                ArchValue::Name(name),
            ),
    ;

    /// Gives register `idx` a value of its own.
    fn write(&mut self, idx: usize, data: u32)
        requires
            idx < old(self).entries().len(),
        ensures
            final(self).entries() == old(self).entries().update(
                idx as int,
                ArchValue::Valid(data),
            ),
    ;
}

/// An arena of slots that only grows: every allocation makes a new slot.
pub struct SSAVirtualRegisters {
    data: Vec<Option<u32>>,
}

impl View for SSAVirtualRegisters {
    type V = Seq<Option<u32>>;

    closed spec fn view(&self) -> Seq<Option<u32>> {
        self.data@
    }
}

impl SSAVirtualRegisters {
    /// An arena without slots.
    pub fn new() -> (r: Self)
        ensures
            r@ == Seq::<Option<u32>>::empty(),
    {
        Self { data: Vec::new() }
    }
}

impl VirtualStorage for SSAVirtualRegisters {
    closed spec fn slots(&self) -> nat {
        self.data@.len()
    }

    closed spec fn value(&self, idx: int) -> Option<u32> {
        self.data@[idx]
    }

    closed spec fn awaited(&self, idx: int) -> bool {
        self.data@[idx] is None
    }

    open spec fn inv(&self) -> bool {
        true
    }

    fn resolve(&self, idx: usize) -> (r: Option<u32>) {
        self.data[idx]
    }

    fn allocate(&mut self) -> (r: Option<usize>)
        ensures
            r == Some(old(self)@.len() as usize),
            final(self)@ == old(self)@.push(None),
    {
        let idx = self.data.len();
        self.data.push(None);
        Some(idx)
    }

    fn free(&mut self, idx: usize)
        ensures
            final(self)@ == old(self)@.update(idx as int, None),
    {
        self.data[idx] = None;
    }

    fn write(&mut self, idx: usize, data: u32)
        ensures
            final(self)@ == old(self)@.update(idx as int, Some(data)),
    {
        self.data[idx] = Some(data);
    }
}

impl SSAVirtualRegisters {
    /// The slots of the arena are those of its view: a slot without a value waits for one.
    pub proof fn lemma_view(&self)
        ensures
            self.slots() == self@.len(),
            forall|i: int|
                0 <= i < self@.len() ==> #[trigger] self.value(i) == self@[i] && self.awaited(i)
                    == (self@[i] is None),
    {
    }
}

/// The 32 architectural registers over an arena.
pub struct ArchitecturalRegisters {
    data: [ArchValue; 32],
}

impl ArchitecturalRegisters {
    /// Registers that all hold the value zero.
    pub fn new() -> (r: Self)
        ensures
            r.entries() == Seq::new(32, |i: int| ArchValue::Valid(0)),
    {
        let r = Self { data: [ArchValue::Valid(0);32] };
        assert(r.entries() =~= Seq::new(32, |i: int| ArchValue::Valid(0)));
        r
    }
}

impl ArchitecturalStorage for ArchitecturalRegisters {
    type Backing = SSAVirtualRegisters;

    closed spec fn entries(&self) -> Seq<ArchValue> {
        self.data@
    }

    fn resolve(&self, idx: usize, s: &SSAVirtualRegisters) -> (r: Option<u32>) {
        match self.data[idx] {
            ArchValue::Valid(x) => Some(x),
            ArchValue::Name(n) => s.resolve(n),
        }
    }

    fn rename(&mut self, idx: usize, name: usize) {
        self.data[idx] = ArchValue::Name(name);
    }

    fn write(&mut self, idx: usize, data: u32) {
        self.data[idx] = ArchValue::Valid(data);
    }
}

/// The state of an entry of a reorder buffer.
#[derive(Clone, Copy, Debug, PartialEq, Eq, Structural)]
pub enum ROBEntry {
    InFlight,
    Valid(u32),
    Free,
}

/// A reorder buffer: a ring of entries. Entries are allocated at the head, in order.
pub struct ReorderBuffer {
    data: Vec<ROBEntry>,
    size: usize,
    head: usize,
}

/// The entries of a reorder buffer and the position of its head.
#[verifier::ext_equal]
pub struct Ring {
    pub entries: Seq<ROBEntry>,
    pub head: nat,
}

impl Ring {
    /// A ring of `size` free entries with the head at the first.
    pub open spec fn fresh(size: nat) -> Ring {
        Ring { entries: Seq::new(size, |i: int| ROBEntry::Free), head: 0 }
    }

    /// Whether an allocation succeeds: there is a head entry and it is free.
    pub open spec fn can_allocate(self) -> bool {
        self.head < self.entries.len() && self.entries[self.head as int] is Free
    }

    /// The ring after an allocation: the head entry is in flight and the head has moved on,
    /// around the end of the ring. Where no allocation is possible the ring stays as it is.
    pub open spec fn allocate(self) -> Ring {
        if self.can_allocate() {
            Ring {
                entries: self.entries.update(self.head as int, ROBEntry::InFlight),
                head: (self.head + 1) % self.entries.len(),
            }
        } else {
            self
        }
    }

    /// The ring after `n` allocations in a row.
    pub open spec fn allocate_n(self, n: nat) -> Ring
        decreases n,
    {
        if n == 0 {
            self
        } else {
            self.allocate_n((n - 1) as nat).allocate()
        }
    }

    /// In a fresh ring the first `n` allocations, for `n` up to the size, succeed and take
    /// the entries in order; after as many allocations as there are entries the next one
    /// fails.
    pub proof fn lemma_fills_up(size: nat, n: nat)
        requires
            n <= size,
        ensures
            Self::fresh(size).allocate_n(n).entries == Seq::new(
                size,
                |i: int|
                    if i < n {
                        ROBEntry::InFlight
                    } else {
                        ROBEntry::Free
                    },
            ),
            n < size ==> Self::fresh(size).allocate_n(n).head == n && Self::fresh(size).allocate_n(
                n,
            ).can_allocate(),
            n == size ==> !Self::fresh(size).allocate_n(n).can_allocate(),
        decreases n,
    {
        let filled = Seq::new(
            size,
            |i: int|
                if i < n {
                    ROBEntry::InFlight
                } else {
                    ROBEntry::Free
                },
        );
        if n == 0 {
            assert(Self::fresh(size).allocate_n(0).entries =~= filled);
        } else {
            Self::lemma_fills_up(size, (n - 1) as nat);
            let before = Self::fresh(size).allocate_n((n - 1) as nat);
            assert(before.can_allocate());
            assert(before.allocate().entries =~= filled);
            if n < size {
                assert((n - 1 + 1) % (size as int) == n) by (nonlinear_arith)
                    requires
                        0 < n < size,
                ;
            } else {
                assert((n - 1 + 1) % (size as int) == 0) by (nonlinear_arith)
                    requires
                        0 < n == size,
                ;
            }
        }
    }
}

impl View for ReorderBuffer {
    type V = Ring;

    closed spec fn view(&self) -> Ring {
        Ring { entries: self.data@, head: self.head as nat }
    }
}

impl ReorderBuffer {
    /// A buffer of `size` free entries. The size is even.
    pub fn new(size: usize) -> (r: Self)
        requires
            size % 2 == 0,
        ensures
            r.inv(),
            r@ == Ring::fresh(size as nat),
    {
        let r = Self { size, head: 0, data: vec![ROBEntry::Free; size] };
        assert(r@.entries =~= Ring::fresh(size as nat).entries);
        r
    }

    /// The slots of the buffer are the entries of its ring: an entry in flight waits for its
    /// value, a valid entry has one.
    pub proof fn lemma_view(&self)
        requires
            self.inv(),
        ensures
            self.slots() == self@.entries.len(),
            self@.head < self@.entries.len() || self@.entries.len() == 0,
            forall|i: int|
                0 <= i < self@.entries.len() ==> #[trigger] self.value(i) == (match self@.entries[i] {
                    ROBEntry::Valid(data) => Some(data),
                    _ => None,
                }) && self.awaited(i) == (self@.entries[i] is InFlight),
    {
    }
}

impl VirtualStorage for ReorderBuffer {
    closed spec fn slots(&self) -> nat {
        self.data@.len()
    }

    closed spec fn value(&self, idx: int) -> Option<u32> {
        match self.data@[idx] {
            ROBEntry::Valid(data) => Some(data),
            _ => None,
        }
    }

    closed spec fn awaited(&self, idx: int) -> bool {
        self.data@[idx] is InFlight
    }

    closed spec fn inv(&self) -> bool {
        self.data@.len() == self.size && (self.head < self.size || self.size == 0)
    }

    fn resolve(&self, idx: usize) -> (r: Option<u32>) {
        match self.data[idx] {
            ROBEntry::Valid(data) => Some(data),
            _ => None,
        }
    }

    fn allocate(&mut self) -> (r: Option<usize>)
        ensures
            final(self)@ == old(self)@.allocate(),
            r == if old(self)@.can_allocate() {
                Some(old(self)@.head as usize)
            } else {
                None
            },
    {
        if self.size == 0 {
            return None;
        }
        let head = self.head;
        match self.data[head] {
            ROBEntry::Free => {
                self.data[head] = ROBEntry::InFlight;
                self.head = (self.head + 1) % self.size;
                Some(head)
            },
            _ => None,
        }
    }

    fn free(&mut self, idx: usize)
        ensures
            final(self)@ == (Ring {
                entries: old(self)@.entries.update(idx as int, ROBEntry::Free),
                ..old(self)@
            }),
    {
        self.data[idx] = ROBEntry::Free;
    }

    fn write(&mut self, idx: usize, data: u32)
        ensures
            final(self)@ == (Ring {
                entries: old(self)@.entries.update(idx as int, ROBEntry::Valid(data)),
                ..old(self)@
            }),
    {
        self.data[idx] = ROBEntry::Valid(data);
    }
}

} // verus!
