//! The meaning of instructions, as functions on the state of the machine.

use super::regs::{initial_regs, regs_wf, write_reg, SENTINEL};
use crate::mem::{in_bounds, load_u16, load_u32, load_u8, store_u16, store_u32, store_u8};
use crate::rv32::bits::sign_extend;
use crate::rv32::{DecodeError, RvALUOp, RvBranchOp, RvEncoding, RvInstr, RvReg, RvWidth};
use vstd::prelude::*;

verus! {

/// The 32-bit word that stands for `x`: its remainder by 2^32.
pub open spec fn wrap32(x: int) -> u32 {
    (x % 0x1_0000_0000) as u32
}

/// The two's-complement reading of a word.
pub open spec fn signed(x: u32) -> int {
    if x >= 0x8000_0000 {
        x - 0x1_0000_0000
    } else {
        x as int
    }
}

/// The result of an ALU operation. Sums and differences wrap; shifts take the low five bits
/// of `y` as the amount; the comparisons give 1 or 0.
pub open spec fn alu(x: u32, y: u32, op: RvALUOp) -> u32 {
    match op {
        RvALUOp::Add => wrap32(x + y),
        RvALUOp::Sub => wrap32(x - y),
        RvALUOp::And => x & y,
        RvALUOp::Or => x | y,
        RvALUOp::Xor => x ^ y,
        RvALUOp::Sll => x << (y % 32),
        RvALUOp::Srl => x >> (y % 32),
        RvALUOp::Sra => ((x as i32) >> (y % 32)) as u32,
        RvALUOp::Slt => if signed(x) < signed(y) {
            1
        } else {
            0
        },
        RvALUOp::Sltu => if x < y {
            1
        } else {
            0
        },
    }
}

/// Whether a branch on `x` and `y` is taken.
pub open spec fn branch_taken(x: u32, y: u32, op: RvBranchOp) -> bool {
    match op {
        RvBranchOp::Eq => x == y,
        RvBranchOp::Ne => x != y,
        RvBranchOp::Lt => signed(x) < signed(y),
        RvBranchOp::Ge => signed(x) >= signed(y),
        RvBranchOp::Ltu => x < y,
        RvBranchOp::Geu => x >= y,
    }
}

/// What a load of the given width at `addr` puts in the destination register: the value in
/// memory, sign-extended to 32 bits or, for an unsigned load, zero-extended.
pub open spec fn loaded(mem: Seq<u8>, addr: int, width: RvWidth, unsigned: bool) -> u32 {
    match width {
        RvWidth::Byte => if unsigned {
            load_u8(mem, addr) as u32
        } else {
            wrap32(sign_extend(load_u8(mem, addr) as int, 8))
        },
        RvWidth::Half => if unsigned {
            load_u16(mem, addr) as u32
        } else {
            wrap32(sign_extend(load_u16(mem, addr) as int, 16))
        },
        RvWidth::Word => load_u32(mem, addr),
    }
}

/// The memory after the low byte, halfword or all of `val` is stored at `addr`.
pub open spec fn stored(mem: Seq<u8>, addr: int, width: RvWidth, val: u32) -> Seq<u8> {
    match width {
        RvWidth::Byte => store_u8(mem, addr, (val % 0x100) as u8),
        RvWidth::Half => store_u16(mem, addr, (val % 0x1_0000) as u16),
        RvWidth::Word => store_u32(mem, addr, val),
    }
}

/// How the program counter moves after an instruction.
#[derive(Clone, Copy, Debug, PartialEq, Eq, Structural)]
pub enum StepResult {
    /// Increment the program counter
    Next,
    /// Write the program counter
    Goto(u32),
    /// Terminate the machine
    Terminate,
}

/// A condition that stops execution for good.
#[derive(Clone, Copy, Debug, PartialEq, Eq, Structural)]
pub enum Fault {
    /// The four bytes at `pc` are not all inside memory.
    Fetch { pc: u32 },
    /// The word fetched at `pc` is not an instruction.
    Decode { pc: u32, word: u32, cause: DecodeError },
    /// The instruction at `pc` reads or writes at `addr`, outside memory.
    Access { pc: u32, addr: u32, width: RvWidth },
}

/// The state of the machine: program counter, the 32 registers, and memory.
#[verifier::ext_equal]
pub struct MachineState {
    pub pc: u32,
    pub regs: Seq<u32>,
    pub mem: Seq<u8>,
}

impl MachineState {
    /// There are 32 registers and register 0 holds zero.
    pub open spec fn wf(self) -> bool {
        regs_wf(self.regs)
    }

    /// The state at reset, with a memory of `size` zero bytes.
    pub open spec fn reset(size: nat) -> MachineState {
        MachineState { pc: 0, regs: initial_regs(), mem: Seq::new(size, |i: int| 0u8) }
    }

    /// The value of a register.
    pub open spec fn reg(self, r: RvReg) -> u32 {
        self.regs[r.0 as int]
    }

    /// The state after a register write.
    pub open spec fn with_reg(self, r: RvReg, val: u32) -> MachineState {
        MachineState { regs: write_reg(self.regs, r.0 as int, val), ..self }
    }

    /// The state after the program counter moves as `r` says.
    pub open spec fn advance(self, r: StepResult) -> MachineState {
        match r {
            StepResult::Next => MachineState { pc: wrap32(self.pc + 4), ..self },
            StepResult::Goto(target) => MachineState { pc: target, ..self },
            StepResult::Terminate => self,
        }
    }

    /// The address that a load, store or indirect jump computes from a base register and an
    /// offset.
    pub open spec fn address(self, base: RvReg, offset: i32) -> u32 {
        wrap32(self.reg(base) + offset)
    }

    /// What `instr`, found at the program counter, does to registers and memory, and where
    /// it sends the program counter; or the fault it ends in, which leaves the state alone.
    #[verifier::opaque]
    pub open spec fn execute(self, instr: RvInstr) -> Result<(MachineState, StepResult), Fault> {
        match instr {
            RvInstr::Op(rd, rs1, rs2, op) => Ok(
                (self.with_reg(rd, alu(self.reg(rs1), self.reg(rs2), op)), StepResult::Next),
            ),
            RvInstr::OpImm(rd, rs1, imm, op) => Ok(
                (self.with_reg(rd, alu(self.reg(rs1), wrap32(imm as int), op)), StepResult::Next),
            ),
            RvInstr::Lui(rd, uimm) => Ok((self.with_reg(rd, uimm), StepResult::Next)),
            RvInstr::Auipc(rd, uimm) => Ok(
                (self.with_reg(rd, wrap32(self.pc + uimm)), StepResult::Next),
            ),
            RvInstr::Load(rd, rs1, imm, width) => {
                let addr = self.address(rs1, imm);
                if in_bounds(self.mem, addr as int, width.bytes() as int) {
                    Ok(
                        (
                            self.with_reg(rd, loaded(self.mem, addr as int, width, false)),
                            StepResult::Next,
                        ),
                    )
                } else {
                    Err(Fault::Access { pc: self.pc, addr, width })
                }
            },
            RvInstr::LoadU(rd, rs1, imm, width) => {
                let addr = self.address(rs1, imm);
                if in_bounds(self.mem, addr as int, width.bytes() as int) {
                    Ok(
                        (
                            self.with_reg(rd, loaded(self.mem, addr as int, width, true)),
                            StepResult::Next,
                        ),
                    )
                } else {
                    Err(Fault::Access { pc: self.pc, addr, width })
                }
            },
            RvInstr::Store(rs1, rs2, imm, width) => {
                let addr = self.address(rs1, imm);
                if in_bounds(self.mem, addr as int, width.bytes() as int) {
                    Ok(
                        (
                            MachineState {
                                mem: stored(self.mem, addr as int, width, self.reg(rs2)),
                                ..self
                            },
                            StepResult::Next,
                        ),
                    )
                } else {
                    Err(Fault::Access { pc: self.pc, addr, width })
                }
            },
            RvInstr::Branch(rs1, rs2, imm, op) => if branch_taken(
                self.reg(rs1),
                self.reg(rs2),
                op,
            ) {
                Ok((self, StepResult::Goto(wrap32(self.pc + imm))))
            } else {
                Ok((self, StepResult::Next))
            },
            RvInstr::Jal(rd, imm) => Ok(
                (
                    self.with_reg(rd, wrap32(self.pc + 4)),
                    StepResult::Goto(wrap32(self.pc + imm)),
                ),
            ),
            RvInstr::Jalr(rd, rs1, imm) => {
                let sum = self.address(rs1, imm);
                Ok(
                    (
                        self.with_reg(rd, wrap32(self.pc + 4)),
                        StepResult::Goto((sum - sum % 2) as u32),
                    ),
                )
            },
            RvInstr::Fence => Ok((self, StepResult::Next)),
            RvInstr::Ecall => Ok((self, StepResult::Terminate)),
            RvInstr::Ebreak => Ok((self, StepResult::Terminate)),
        }
    }

    /// Whether the result `r` and the state `post` are what `instr` gives in the state
    /// `self`.
    pub open spec fn executes_to(
        self,
        instr: RvInstr,
        post: MachineState,
        r: Result<StepResult, Fault>,
    ) -> bool {
        match self.execute(instr) {
            Ok((next, step)) => r == Ok::<StepResult, Fault>(step) && post == next,
            Err(fault) => r == Err::<StepResult, Fault>(fault) && post == self,
        }
    }

    /// Whether the result `r` and the state `post` are what one step gives in the state
    /// `self`.
    pub open spec fn steps_to(self, post: MachineState, r: Result<StepResult, Fault>) -> bool {
        match self.step() {
            Ok((next, step)) => r == Ok::<StepResult, Fault>(step) && post == next,
            Err(fault) => r == Err::<StepResult, Fault>(fault) && post == self,
        }
    }

    /// The instruction at the program counter: the word there, decoded.
    pub open spec fn current_instr(self) -> Result<RvInstr, Fault> {
        if !in_bounds(self.mem, self.pc as int, 4) {
            Err(Fault::Fetch { pc: self.pc })
        } else {
            let word = load_u32(self.mem, self.pc as int);
            match RvEncoding(word).decoded() {
                Ok(instr) => Ok(instr),
                Err(cause) => Err(Fault::Decode { pc: self.pc, word, cause }),
            }
        }
    }

    /// One step: fetch the word at the program counter, decode it, execute it. The program
    /// counter of the result is still that of the instruction.
    #[verifier::opaque]
    pub open spec fn step(self) -> Result<(MachineState, StepResult), Fault> {
        match self.current_instr() {
            Ok(instr) => self.execute(instr),
            Err(fault) => Err(fault),
        }
    }
}

/// Why a run ended.
#[derive(Clone, Copy, Debug, PartialEq, Eq, Structural)]
pub enum Halt {
    /// The program counter reached the sentinel address.
    Sentinel,
    /// An `ecall` or `ebreak` was executed.
    Terminated,
    /// A fault stopped the machine.
    Faulted(Fault),
    /// The step budget ran out first.
    OutOfSteps,
}

impl MachineState {
    /// One turn of the run loop: halt if the program counter is at the sentinel; otherwise
    /// make a step and move the program counter as the step says. The result is the new
    /// state and, where the machine halts, the reason.
    pub open spec fn turn(self) -> (MachineState, Option<Halt>) {
        if self.pc == SENTINEL {
            (self, Some(Halt::Sentinel))
        } else {
            match self.step() {
                Err(fault) => (self, Some(Halt::Faulted(fault))),
                Ok((next, StepResult::Terminate)) => (next, Some(Halt::Terminated)),
                Ok((next, r)) => (next.advance(r), None),
            }
        }
    }

    /// The state in which a run of at most `steps` steps ends, and why it ends there. At
    /// the sentinel the run halts even when no step is left.
    pub open spec fn run(self, steps: nat) -> (MachineState, Halt)
        decreases steps,
    {
        if self.pc == SENTINEL {
            (self, Halt::Sentinel)
        } else if steps == 0 {
            (self, Halt::OutOfSteps)
        } else {
            match self.turn() {
                (next, Some(halt)) => (next, halt),
                (next, None) => next.run((steps - 1) as nat),
            }
        }
    }
}

/// The signed and the unsigned reading of a word, as casts compute them.
pub proof fn lemma_casts(x: u32, i: i32)
    ensures
        (x as i32) as int == signed(x),
        i as u32 == wrap32(i as int),
{
    assert((x as i32) as int == if x >= 0x8000_0000u32 {
        x - 0x1_0000_0000
    } else {
        x as int
    }) by (bit_vector);
    assert((i as u32) as int == if i < 0 {
        i + 0x1_0000_0000
    } else {
        i as int
    }) by (bit_vector);
}

/// The low byte and the low halfword of a word, as truncating casts compute them.
pub proof fn lemma_low_parts(val: u32)
    ensures
        val as u8 == (val % 0x100) as u8,
        val as u16 == (val % 0x1_0000) as u16,
{
    assert(val as u8 == (val % 0x100) as u8 && val as u16 == (val % 0x1_0000) as u16)
        by (bit_vector);
}

/// A signed load of a byte or halfword fills the upper bits of the register with the top
/// bit of the value; an unsigned load fills them with zeros. So the byte 0xff loads as
/// 0xffff_ffff when signed and as 0x0000_00ff when unsigned.
pub proof fn lemma_load_extension(mem: Seq<u8>, addr: int)
    ensures
        loaded(mem, addr, RvWidth::Byte, true) == mem[addr],
        loaded(mem, addr, RvWidth::Byte, false) == if mem[addr] >= 0x80 {
            0xffff_ff00 + mem[addr]
        } else {
            mem[addr] as int
        },
        loaded(mem, addr, RvWidth::Half, true) == load_u16(mem, addr),
        loaded(mem, addr, RvWidth::Half, false) == if load_u16(mem, addr) >= 0x8000 {
            0xffff_0000 + load_u16(mem, addr)
        } else {
            load_u16(mem, addr) as int
        },
        mem[addr] == 0xff ==> loaded(mem, addr, RvWidth::Byte, false) == 0xffff_ffff && loaded(
            mem,
            addr,
            RvWidth::Byte,
            true,
        ) == 0x0000_00ff,
{
}

/// A run that halts for another reason than the end of its budget does not depend on the
/// budget: with more steps allowed it ends in the same state for the same reason.
pub proof fn lemma_run_budget(s: MachineState, steps: nat, more: nat)
    requires
        steps <= more,
        s.run(steps).1 != Halt::OutOfSteps,
    ensures
        s.run(more) == s.run(steps),
    decreases steps,
{
    if s.pc != SENTINEL && steps > 0 {
        match s.turn() {
            (next, None) => {
                lemma_run_budget(next, (steps - 1) as nat, (more - 1) as nat);
            },
            _ => {},
        }
    }
}

/// Addition is commutative and has zero as its identity.
pub proof fn lemma_alu_add(x: u32, y: u32)
    ensures
        alu(x, y, RvALUOp::Add) == alu(y, x, RvALUOp::Add),
        alu(x, 0, RvALUOp::Add) == x,
{
}

/// Register 0 holds zero in the reset state and after every instruction: execution keeps the
/// shape of the register file.
pub proof fn lemma_zero_register(s: MachineState, instr: RvInstr, steps: nat)
    requires
        s.wf(),
    ensures
        MachineState::reset(s.mem.len()).wf(),
        instr.wf() ==> (s.execute(instr) matches Ok((next, _)) ==> next.wf() && next.regs[0] == 0),
        s.step() matches Ok((next, _)) ==> next.wf() && next.regs[0] == 0,
        s.run(steps).0.wf(),
        s.run(steps).0.regs[0] == 0,
    decreases steps,
{
    if instr.wf() {
        lemma_execute_wf(s, instr);
    }
    lemma_step_wf(s);
    if s.pc != SENTINEL && steps > 0 {
        match s.step() {
            Ok((next, StepResult::Terminate)) => {},
            Ok((next, r)) => {
                lemma_zero_register(next.advance(r), instr, (steps - 1) as nat);
            },
            Err(_) => {},
        }
    }
}

/// An instruction keeps the shape of the register file.
pub proof fn lemma_execute_wf(s: MachineState, instr: RvInstr)
    requires
        s.wf(),
        instr.wf(),
    ensures
        s.execute(instr) matches Ok((next, _)) ==> next.wf() && next.pc == s.pc,
{
    reveal(MachineState::execute);
}

/// A step keeps the shape of the register file.
pub proof fn lemma_step_wf(s: MachineState)
    requires
        s.wf(),
    ensures
        s.step() matches Ok((next, _)) ==> next.wf() && next.pc == s.pc,
{
    reveal(MachineState::step);
    if in_bounds(s.mem, s.pc as int, 4) {
        let enc = RvEncoding(load_u32(s.mem, s.pc as int));
        enc.lemma_decoded_wf();
        if let Ok(instr) = enc.decoded() {
            lemma_execute_wf(s, instr);
        }
    }
}

/// A write to register 0 changes nothing: `addi x0, x0, imm` leaves every register as it was.
pub proof fn lemma_write_to_zero_register(s: MachineState, imm: i32)
    requires
        s.wf(),
    ensures
        s.execute(RvInstr::OpImm(RvReg(0), RvReg(0), imm, RvALUOp::Add)) == Ok::<
            (MachineState, StepResult),
            Fault,
        >((s, StepResult::Next)),
{
    reveal(MachineState::execute);
}

/// `jal` jumps to `pc + imm`. With a destination other than register 0 it first writes
/// `pc + 4` there; with register 0 it changes no register.
pub proof fn lemma_jal(s: MachineState, rd: RvReg, imm: i32)
    requires
        s.wf(),
        rd.wf(),
    ensures
        s.execute(RvInstr::Jal(rd, imm)) matches Ok((next, r)) && r == StepResult::Goto(
            wrap32(s.pc + imm),
        ) && next.mem == s.mem && next.pc == s.pc && (rd.0 != 0 ==> next.regs == s.regs.update(
            rd.0 as int,
            wrap32(s.pc + 4),
        )) && (rd.0 == 0 ==> next.regs == s.regs),
{
    reveal(MachineState::execute);
}

/// `jalr` jumps to `reg[rs1] + imm` with bit 0 cleared, so to an even address. With a
/// destination other than register 0 it writes `pc + 4` there; with register 0 it changes
/// no register. The target is computed from the registers as they were before the write.
pub proof fn lemma_jalr(s: MachineState, rd: RvReg, rs1: RvReg, imm: i32)
    requires
        s.wf(),
        rd.wf(),
        rs1.wf(),
    ensures
        s.execute(RvInstr::Jalr(rd, rs1, imm)) matches Ok((next, StepResult::Goto(target)))
            && target % 2 == 0 && target & !1u32 == target && target == wrap32(
            s.regs[rs1.0 as int] + imm,
        ) & !1u32 && next.mem == s.mem && next.pc == s.pc && (rd.0 != 0 ==> next.regs
            == s.regs.update(rd.0 as int, wrap32(s.pc + 4))) && (rd.0 == 0 ==> next.regs
            == s.regs),
{
    reveal(MachineState::execute);
    let sum = wrap32(s.regs[rs1.0 as int] + imm);
    let target = (sum - sum % 2) as u32;
    assert(target == sum & !1u32 && target & !1u32 == target) by (bit_vector)
        requires
            target == (sum - sum % 2) as u32,
    ;
}

} // verus!
