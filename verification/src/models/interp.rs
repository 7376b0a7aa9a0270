//! A simple interpreting-style virtual machine for RV32I programs.

use super::access::{load_value, mapped, store_value};
use super::regs::{RvRegs, SENTINEL};
use super::semantics::{alu, branch_taken, lemma_casts, wrap32, MachineState};
use crate::image::{load_segments, object_image, segments_fit, Image, LoadError};
use crate::mem::Memory;
use crate::rv32::{RvALUOp, RvBranchOp, RvEncoding, RvInstr, RvReg, RvWidth};
use vstd::prelude::*;

pub use super::semantics::{Fault, Halt, StepResult};

verus! {

/// The number of bytes of memory that an interpreter has.
pub const MEMORY_SIZE: usize = 0x0010_0000;

/// The interpreter: a program counter, a register file and a memory.
pub struct Interpreter {
    /// Program counter
    pc: u32,
    /// Register file
    reg: RvRegs,
    /// Simple emulated memory device
    ram: Memory,
}

impl View for Interpreter {
    type V = MachineState;

    closed spec fn view(&self) -> MachineState {
        MachineState { pc: self.pc, regs: self.reg@, mem: self.ram@ }
    }
}

impl Interpreter {
    /// Every interpreter has 32 registers, and register 0 holds zero.
    pub proof fn lemma_wf(&self)
        ensures
            self@.wf(),
    {
        self.reg.lemma_wf();
    }

    /// An interpreter at reset: the program counter at 0, the registers at their initial
    /// values, and one mebibyte of zeroed memory.
    pub fn new() -> (r: Self)
        ensures
            r@ == MachineState::reset(MEMORY_SIZE as nat),
    {
        let r = Self { pc: 0, reg: RvRegs::new(), ram: Memory::new(MEMORY_SIZE) };
        assert(r@.mem =~= MachineState::reset(MEMORY_SIZE as nat).mem);
        r
    }

    /// The program counter.
    pub fn pc(&self) -> (r: u32)
        ensures
            r == self@.pc,
    {
        self.pc
    }

    /// Moves the program counter.
    pub fn set_pc(&mut self, pc: u32)
        ensures
            final(self)@ == (MachineState { pc, ..old(self)@ }),
    {
        self.pc = pc;
    }

    /// The register file.
    pub fn regs(&self) -> (r: &RvRegs)
        ensures
            r@ == self@.regs,
    {
        &self.reg
    }

    /// The memory.
    pub fn memory(&self) -> (r: &Memory)
        ensures
            r@ == self@.mem,
    {
        &self.ram
    }

    /// Copies the segments of `image` into memory and points the program counter at its
    /// entry, cut to 32 bits. Where a segment does not lie inside memory, nothing changes.
    pub fn load_image(&mut self, image: &Image) -> (r: Result<(), LoadError>)
        ensures
            segments_fit(old(self)@.mem.len(), image@.1) ==> r == Ok::<(), LoadError>(())
                && final(self)@ == (MachineState {
                pc: (image@.0 % 0x1_0000_0000) as u32,
                mem: load_segments(old(self)@.mem, image@.1),
                ..old(self)@
            }),
            !segments_fit(old(self)@.mem.len(), image@.1) ==> r == Err::<(), LoadError>(
                LoadError::OutOfRange,
            ) && final(self)@ == old(self)@,
    {
        match self.ram.load_image(image) {
            Ok(entry) => {
                self.pc = entry;
                Ok(())
            },
            Err(e) => Err(e),
        }
    }

    /// Loads the object file that `data` holds: copies its loadable segments into memory and
    /// points the program counter at its entry, cut to 32 bits. Where the bytes are no object
    /// file, or a segment does not lie inside memory, nothing changes.
    pub fn load_elf(&mut self, data: &[u8]) -> (r: Result<(), LoadError>)
        ensures
            match object_image(data@) {
                None => r == Err::<(), LoadError>(LoadError::Malformed)
                    && final(self)@ == old(self)@,
                Some((entry, segments)) => if segments_fit(old(self)@.mem.len(), segments) {
                    r == Ok::<(), LoadError>(()) && final(self)@ == (MachineState {
                        pc: (entry % 0x1_0000_0000) as u32,
                        mem: load_segments(old(self)@.mem, segments),
                        ..old(self)@
                    })
                } else {
                    r == Err::<(), LoadError>(LoadError::OutOfRange) && final(self)@ == old(self)@
                },
            },
    {
        match self.ram.load_elf(data) {
            Ok(entry) => {
                self.pc = entry;
                Ok(())
            },
            Err(e) => Err(e),
        }
    }

    /// Evaluate the result of some ALU operation
    pub fn eval_alu_op(x: u32, y: u32, op: RvALUOp) -> (r: u32)
        ensures
            r == alu(x, y, op),
    {
        proof {
            lemma_casts(x, 0);
            lemma_casts(y, 0);
        }
        match op {
            RvALUOp::Add => x.wrapping_add(y),
            RvALUOp::Sub => x.wrapping_sub(y),
            RvALUOp::And => x & y,
            RvALUOp::Or => x | y,
            RvALUOp::Xor => x ^ y,
            RvALUOp::Sll => x.wrapping_shl(y),
            RvALUOp::Srl => x.wrapping_shr(y),
            RvALUOp::Sra => (x as i32).wrapping_shr(y) as u32,
            RvALUOp::Slt => if (x as i32) < (y as i32) {
                1
            } else {
                0
            },
            RvALUOp::Sltu => if x < y {
                1
            } else {
                0
            },
        }
    }

    /// Evaluate some condition
    pub fn eval_branch_op(x: u32, y: u32, op: RvBranchOp) -> (r: bool)
        ensures
            r == branch_taken(x, y, op),
    {
        proof {
            lemma_casts(x, 0);
            lemma_casts(y, 0);
        }
        match op {
            RvBranchOp::Eq => x == y,
            RvBranchOp::Ne => x != y,
            RvBranchOp::Lt => (x as i32) < (y as i32),
            RvBranchOp::Ge => (x as i32) >= (y as i32),
            RvBranchOp::Ltu => x < y,
            RvBranchOp::Geu => x >= y,
        }
    }

    /// The address `reg[base] + offset`, wrapped to 32 bits.
    fn address(&self, base: RvReg, offset: i32) -> (r: u32)
        requires
            base.wf(),
        ensures
            r == self@.address(base, offset),
    {
        proof {
            lemma_casts(0, offset);
        }
        self.reg.read(base).wrapping_add(offset as u32)
    }

    /// A register-register ALU instruction.
    fn exec_op(&mut self, rd: RvReg, rs1: RvReg, rs2: RvReg, op: RvALUOp) -> (r: Result<
        StepResult,
        Fault,
    >)
        requires
            rd.wf(),
            rs1.wf(),
            rs2.wf(),
        ensures
            old(self)@.executes_to(RvInstr::Op(rd, rs1, rs2, op), final(self)@, r),
    {
        proof {
            reveal(MachineState::execute);
        }
        let res = Self::eval_alu_op(self.reg.read(rs1), self.reg.read(rs2), op);
        self.reg.write(rd, res);
        Ok(StepResult::Next)
    }

    /// A register-immediate ALU instruction.
    fn exec_op_imm(&mut self, rd: RvReg, rs1: RvReg, imm: i32, op: RvALUOp) -> (r: Result<
        StepResult,
        Fault,
    >)
        requires
            rd.wf(),
            rs1.wf(),
        ensures
            old(self)@.executes_to(RvInstr::OpImm(rd, rs1, imm, op), final(self)@, r),
    {
        proof {
            reveal(MachineState::execute);
            lemma_casts(0, imm);
        }
        let res = Self::eval_alu_op(self.reg.read(rs1), imm as u32, op);
        self.reg.write(rd, res);
        Ok(StepResult::Next)
    }

    /// A sign-extending load.
    fn exec_load(&mut self, rd: RvReg, rs1: RvReg, imm: i32, width: RvWidth) -> (r: Result<
        StepResult,
        Fault,
    >)
        requires
            rd.wf(),
            rs1.wf(),
        ensures
            old(self)@.executes_to(RvInstr::Load(rd, rs1, imm, width), final(self)@, r),
    {
        proof {
            reveal(MachineState::execute);
        }
        let addr = self.address(rs1, imm);
        if !mapped(&self.ram, addr, width) {
            return Err(Fault::Access { pc: self.pc, addr, width });
        }
        let res = load_value(&self.ram, addr, width, false);
        self.reg.write(rd, res);
        Ok(StepResult::Next)
    }

    /// A zero-extending load.
    fn exec_load_unsigned(&mut self, rd: RvReg, rs1: RvReg, imm: i32, width: RvWidth) -> (r:
        Result<StepResult, Fault>)
        requires
            rd.wf(),
            rs1.wf(),
        ensures
            old(self)@.executes_to(RvInstr::LoadU(rd, rs1, imm, width), final(self)@, r),
    {
        proof {
            reveal(MachineState::execute);
        }
        let addr = self.address(rs1, imm);
        if !mapped(&self.ram, addr, width) {
            return Err(Fault::Access { pc: self.pc, addr, width });
        }
        let res = load_value(&self.ram, addr, width, true);
        self.reg.write(rd, res);
        Ok(StepResult::Next)
    }

    /// A store.
    fn exec_store(&mut self, rs1: RvReg, rs2: RvReg, imm: i32, width: RvWidth) -> (r: Result<
        StepResult,
        Fault,
    >)
        requires
            rs1.wf(),
            rs2.wf(),
        ensures
            old(self)@.executes_to(RvInstr::Store(rs1, rs2, imm, width), final(self)@, r),
    {
        proof {
            reveal(MachineState::execute);
        }
        let val = self.reg.read(rs2);
        let addr = self.address(rs1, imm);
        if !mapped(&self.ram, addr, width) {
            return Err(Fault::Access { pc: self.pc, addr, width });
        }
        store_value(&mut self.ram, addr, width, val);
        Ok(StepResult::Next)
    }

    /// The address `pc + offset`, wrapped to 32 bits.
    fn pc_relative(&self, offset: i32) -> (r: u32)
        ensures
            r == wrap32(self@.pc + offset),
    {
        proof {
            lemma_casts(0, offset);
        }
        self.pc.wrapping_add(offset as u32)
    }

    /// A jump: link, then go to `pc + imm`.
    fn exec_jal(&mut self, rd: RvReg, imm: i32) -> (r: Result<StepResult, Fault>)
        requires
            rd.wf(),
        ensures
            old(self)@.executes_to(RvInstr::Jal(rd, imm), final(self)@, r),
    {
        proof {
            reveal(MachineState::execute);
        }
        let target = self.pc_relative(imm);
        self.reg.write(rd, self.pc.wrapping_add(4));
        Ok(StepResult::Goto(target))
    }

    /// A conditional branch.
    fn exec_branch(&mut self, rs1: RvReg, rs2: RvReg, imm: i32, op: RvBranchOp) -> (r: Result<
        StepResult,
        Fault,
    >)
        requires
            rs1.wf(),
            rs2.wf(),
        ensures
            old(self)@.executes_to(RvInstr::Branch(rs1, rs2, imm, op), final(self)@, r),
    {
        proof {
            reveal(MachineState::execute);
        }
        if Self::eval_branch_op(self.reg.read(rs1), self.reg.read(rs2), op) {
            Ok(StepResult::Goto(self.pc_relative(imm)))
        } else {
            Ok(StepResult::Next)
        }
    }

    /// An indirect jump: link, then go to `reg[rs1] + imm` with bit 0 cleared.
    fn exec_jalr(&mut self, rd: RvReg, rs1: RvReg, imm: i32) -> (r: Result<StepResult, Fault>)
        requires
            rd.wf(),
            rs1.wf(),
        ensures
            old(self)@.executes_to(RvInstr::Jalr(rd, rs1, imm), final(self)@, r),
    {
        proof {
            reveal(MachineState::execute);
        }
        let sum = self.address(rs1, imm);
        let target = sum & 0xffff_fffe;
        assert(target == (sum - sum % 2) as u32) by (bit_vector)
            requires
                target == sum & 0xffff_fffe,
        ;
        self.reg.write(rd, self.pc.wrapping_add(4));
        Ok(StepResult::Goto(target))
    }

    /// Load upper immediate.
    fn exec_lui(&mut self, rd: RvReg, uimm: u32) -> (r: Result<StepResult, Fault>)
        requires
            rd.wf(),
        ensures
            old(self)@.executes_to(RvInstr::Lui(rd, uimm), final(self)@, r),
    {
        proof {
            reveal(MachineState::execute);
        }
        self.reg.write(rd, uimm);
        Ok(StepResult::Next)
    }

    /// Add upper immediate to the program counter.
    fn exec_auipc(&mut self, rd: RvReg, uimm: u32) -> (r: Result<StepResult, Fault>)
        requires
            rd.wf(),
        ensures
            old(self)@.executes_to(RvInstr::Auipc(rd, uimm), final(self)@, r),
    {
        proof {
            reveal(MachineState::execute);
        }
        self.reg.write(rd, self.pc.wrapping_add(uimm));
        Ok(StepResult::Next)
    }

    /// Executes `instr` as the instruction at the program counter. The program counter
    /// itself is left to the caller, who is told where it should go.
    pub fn execute(&mut self, instr: RvInstr) -> (r: Result<StepResult, Fault>)
        requires
            instr.wf(),
        ensures
            old(self)@.executes_to(instr, final(self)@, r),
    {
        match instr {
            RvInstr::Op(rd, rs1, rs2, op) => self.exec_op(rd, rs1, rs2, op),
            RvInstr::OpImm(rd, rs1, imm, op) => self.exec_op_imm(rd, rs1, imm, op),
            RvInstr::Store(rs1, rs2, imm, width) => self.exec_store(rs1, rs2, imm, width),
            RvInstr::Load(rd, rs1, imm, width) => self.exec_load(rd, rs1, imm, width),
            RvInstr::LoadU(rd, rs1, imm, width) => self.exec_load_unsigned(rd, rs1, imm, width),
            RvInstr::Jal(rd, imm) => self.exec_jal(rd, imm),
            RvInstr::Branch(rs1, rs2, imm, op) => self.exec_branch(rs1, rs2, imm, op),
            RvInstr::Lui(rd, imm) => self.exec_lui(rd, imm),
            RvInstr::Auipc(rd, imm) => self.exec_auipc(rd, imm),
            RvInstr::Jalr(rd, rs1, imm) => self.exec_jalr(rd, rs1, imm),
            RvInstr::Fence => {
                assert(self@.executes_to(instr, self@, Ok(StepResult::Next))) by {
                    reveal(MachineState::execute);
                }
                Ok(StepResult::Next)
            },
            RvInstr::Ecall | RvInstr::Ebreak => {
                assert(self@.executes_to(instr, self@, Ok(StepResult::Terminate))) by {
                    reveal(MachineState::execute);
                }
                Ok(StepResult::Terminate)
            },
        }
    }

    /// The instruction at the program counter: the word there, decoded.
    pub fn current_instr(&self) -> (r: Result<RvInstr, Fault>)
        ensures
            r == self@.current_instr(),
            r matches Ok(instr) ==> instr.wf(),
    {
        let pc = self.pc;
        if !mapped(&self.ram, pc, RvWidth::Word) {
            return Err(Fault::Fetch { pc });
        }
        let word = self.ram.read32(pc as usize);
        match RvEncoding(word).decode() {
            Ok(instr) => Ok(instr),
            Err(cause) => Err(Fault::Decode { pc, word, cause }),
        }
    }

    /// Fetch and execute the instruction at the address specified by the program counter,
    /// returning a [StepResult]. The program counter is not moved.
    pub fn step(&mut self) -> (r: Result<StepResult, Fault>)
        ensures
            old(self)@.steps_to(final(self)@, r),
    {
        proof {
            reveal(MachineState::step);
        }
        match self.current_instr() {
            Ok(instr) => self.execute(instr),
            Err(fault) => Err(fault),
        }
    }

    /// One turn of the run loop: halts if the program counter is at the sentinel; otherwise
    /// makes a step and moves the program counter as the step says. Gives the reason where
    /// the machine halts.
    pub fn turn(&mut self) -> (r: Option<Halt>)
        ensures
            (final(self)@, r) == old(self)@.turn(),
    {
        if self.pc == SENTINEL {
            return Some(Halt::Sentinel);
        }
        match self.step() {
            Ok(StepResult::Next) => {
                self.pc = self.pc.wrapping_add(4);
                None
            },
            Ok(StepResult::Goto(pc)) => {
                self.pc = pc;
                None
            },
            Ok(StepResult::Terminate) => Some(Halt::Terminated),
            Err(fault) => Some(Halt::Faulted(fault)),
        }
    }

    /// Run the machine until it halts, for at most `max_steps` steps.
    pub fn run(&mut self, max_steps: u64) -> (halt: Halt)
        ensures
            (final(self)@, halt) == old(self)@.run(max_steps as nat),
    {
        let mut left = max_steps;
        loop
            invariant
                self@.run(left as nat) == old(self)@.run(max_steps as nat),
            decreases left,
        {
            if self.pc == SENTINEL {
                return Halt::Sentinel;
            }
            if left == 0 {
                return Halt::OutOfSteps;
            }
            if let Some(halt) = self.turn() {
                return halt;
            }
            left = left - 1;
        }
    }
}

} // verus!
