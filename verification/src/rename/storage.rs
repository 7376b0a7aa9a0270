//! Architectural and physical registers.

use super::Operand;
use crate::storage::{ArchValue, PhysValue};
use vstd::prelude::*;

verus! {

/// The value that a physical register resolves to.
pub open spec fn phys_value(phys: Seq<PhysValue>, idx: int) -> Option<u32> {
    match phys[idx] {
        PhysValue::Valid(data) => Some(data),
        PhysValue::Invalid => None,
    }
}

/// The value that an architectural register resolves to: its own, or that of the physical
/// register it names.
pub open spec fn arch_value(arch: Seq<ArchValue>, phys: Seq<PhysValue>, idx: int) -> Option<u32> {
    match arch[idx] {
        ArchValue::Valid(data) => Some(data),
        ArchValue::Name(name) => phys_value(phys, name as int),
    }
}

/// Whether every name among the architectural registers is that of a physical register.
pub open spec fn names_resolve(arch: Seq<ArchValue>, phys: Seq<PhysValue>) -> bool {
    forall|i: int|
        0 <= i < arch.len() ==> (#[trigger] arch[i] matches ArchValue::Name(name) ==> name
            < phys.len())
}

/// A set of physical registers.
pub struct PhysicalStorage {
    pub data: Vec<PhysValue>,
}

impl PhysicalStorage {
    /// No physical registers.
    pub fn new() -> (r: Self)
        ensures
            r.data@ == Seq::<PhysValue>::empty(),
    {
        Self { data: Vec::new() }
    }

    /// Try to resolve the value of a physical register.
    pub fn resolve(&self, idx: usize) -> (r: Option<u32>)
        requires
            idx < self.data@.len(),
        ensures
            r == phys_value(self.data@, idx as int),
    {
        match self.data[idx] {
            // Return the value in the physical register.
            PhysValue::Valid(data) => Some(data),
            // This value has not been computed, or is otherwise invalid.
            PhysValue::Invalid => None,
        }
    }
}

/// A set of architectural registers.
pub struct ArchitecturalStorage {
    pub data: Vec<ArchValue>,
}

impl ArchitecturalStorage {
    /// `size` architectural registers that hold zero.
    pub fn new(size: usize) -> (r: Self)
        ensures
            r.data@ == Seq::new(size as nat, |i: int| ArchValue::Valid(0)),
    {
        let r = Self { data: vec![ArchValue::Valid(0); size] };
        assert(r.data@ =~= Seq::new(size as nat, |i: int| ArchValue::Valid(0)));
        r
    }

    /// Try to resolve the value of an architectural register.
    pub fn resolve(&self, idx: usize, p: &PhysicalStorage) -> (r: Option<u32>)
        requires
            idx < self.data@.len(),
            self.data@[idx as int] matches ArchValue::Name(name) ==> name < p.data@.len(),
        ensures
            r == arch_value(self.data@, p.data@, idx as int),
    {
        match self.data[idx] {
            // Return the value in the architectural register.
            ArchValue::Valid(data) => Some(data),
            // Try to resolve the value of a physical register.
            ArchValue::Name(name) => p.resolve(name),
        }
    }
}

/// Some set of registers for storing values in the machine.
pub struct Storage {
    /// A set of "architectural" registers.
    pub arch: Vec<ArchValue>,
    /// A set of "physical" registers.
    pub phys: Vec<PhysValue>,
}

impl Storage {
    /// Every name among the architectural registers is that of a physical register.
    pub open spec fn wf(&self) -> bool {
        names_resolve(self.arch@, self.phys@)
    }

    /// Whether the operand can be looked up: a register operand names a register.
    pub open spec fn has(&self, o: Operand) -> bool {
        o matches Operand::ArchReg(reg) ==> reg < self.arch@.len()
    }

    /// The value of an operand, if it has one yet.
    pub open spec fn operand_value(&self, o: Operand) -> Option<u32> {
        match o {
            Operand::Imm(data) => Some(data),
            Operand::ArchReg(reg) => arch_value(self.arch@, self.phys@, reg as int),
        }
    }

    /// `rf_size` architectural registers that hold zero, and no physical register.
    pub fn new(rf_size: usize) -> (r: Self)
        ensures
            r.wf(),
            r.arch@ == Seq::new(rf_size as nat, |i: int| ArchValue::Valid(0)),
            r.phys@ == Seq::<PhysValue>::empty(),
    {
        let r = Self { arch: vec![ArchValue::Valid(0); rf_size], phys: Vec::new() };
        assert(r.arch@ =~= Seq::new(rf_size as nat, |i: int| ArchValue::Valid(0)));
        r
    }

    /// Try to resolve the value of a physical register.
    pub fn resolve_phys_value(&self, idx: usize) -> (r: Option<u32>)
        requires
            idx < self.phys@.len(),
        ensures
            r == phys_value(self.phys@, idx as int),
    {
        match self.phys[idx] {
            // Return the value in the physical register.
            PhysValue::Valid(data) => Some(data),
            // This value has not been computed, or is otherwise invalid.
            PhysValue::Invalid => None,
        }
    }

    /// Try to resolve the value of an architectural register.
    pub fn resolve_arch_value(&self, idx: usize) -> (r: Option<u32>)
        requires
            self.wf(),
            idx < self.arch@.len(),
        ensures
            r == arch_value(self.arch@, self.phys@, idx as int),
    {
        match self.arch[idx] {
            // Return the value in the architectural register.
            ArchValue::Valid(data) => Some(data),
            // Try to resolve the value of a physical register.
            ArchValue::Name(name) => self.resolve_phys_value(name),
        }
    }

    /// The value of an operand, if it has one yet.
    pub fn resolve_operand(&self, o: Operand) -> (r: Option<u32>)
        requires
            self.wf(),
            self.has(o),
        ensures
            r == self.operand_value(o),
    {
        match o {
            // This is an immediate operand, we already have the data
            Operand::Imm(data) => Some(data),
            // Try to resolve the value in this register
            Operand::ArchReg(reg) => self.resolve_arch_value(reg),
        }
    }

    /// Renames the architectural register `idx`: it now stands for a new physical register,
    /// which is empty.
    pub fn rename_alloc(&mut self, idx: usize)
        requires
            old(self).wf(),
            idx < old(self).arch@.len(),
        ensures
            final(self).wf(),
            final(self).phys@ == old(self).phys@.push(PhysValue::Invalid),
            final(self).arch@ == old(self).arch@.update(
                idx as int,
                ArchValue::Name(old(self).phys@.len() as usize),
            ),
    {
        let name = self.phys.len();
        self.phys.push(PhysValue::Invalid);
        self.arch[idx] = ArchValue::Name(name);
    }

    /// Gives the physical register `idx` its value.
    pub fn writeback_phys(&mut self, idx: usize, data: u32)
        requires
            idx < old(self).phys@.len(),
        ensures
            final(self).phys@ == old(self).phys@.update(idx as int, PhysValue::Valid(data)),
            final(self).arch@ == old(self).arch@,
            old(self).wf() ==> final(self).wf(),
    {
        self.phys[idx] = PhysValue::Valid(data);
    }
}

/// After a renaming the register has no value until the write-back to its physical
/// register, and then it has the value written back.
pub proof fn lemma_rename_then_writeback(
    arch: Seq<ArchValue>,
    phys: Seq<PhysValue>,
    idx: int,
    data: u32,
)
    requires
        0 <= idx < arch.len(),
    ensures
        ({
            let name = phys.len() as usize;
            let renamed = arch.update(idx, ArchValue::Name(name));
            let empty = phys.push(PhysValue::Invalid);
            phys.len() <= usize::MAX ==> arch_value(renamed, empty, idx) is None && arch_value(
                renamed,
                empty.update(name as int, PhysValue::Valid(data)),
                idx,
            ) == Some(data)
        }),
{
}

} // verus!
