//! The simple pipeline: fetch, decode, execute, memory access and writeback, run one after
//! the other within a tick. There is no forwarding, no stall and no branch resolution.

use super::common::{
    ALUOp, Effect, FrontendALUOp, FrontendAccessWidth, Op, RegisterFile, Width,
};
use crate::mem::{in_bounds, load_u32, DataMemory};
use crate::models::access::{load_value, mapped, store_value};
use crate::models::interp::Interpreter;
use crate::models::regs::{write_reg, SENTINEL};
use crate::models::semantics::{
    lemma_casts, loaded, stored, wrap32, Fault, MachineState, StepResult,
};
use crate::rv32::{DecodeError, RvALUOp, RvEncoding, RvInstr, RvWidth};
use vstd::prelude::*;

verus! {

/// Why a tick could not be completed.
#[derive(Clone, Copy, Debug, PartialEq, Eq, Structural)]
pub enum PipelineFault {
    /// The four bytes at this program counter are not all inside memory.
    Fetch(u32),
    /// The fetched word is not an instruction.
    Decode(u32, DecodeError),
    /// The pipeline has no operation for this instruction.
    Unsupported(RvInstr),
    /// The instruction names a register that the register file does not have.
    NoSuchRegister(RvInstr),
    /// A load or store at this address, of this width, does not lie inside memory.
    Access(u32, Width),
}

/// IF: the word at the program counter.
pub open spec fn fetched(mem: Seq<u8>, pc: u32) -> Result<RvEncoding, PipelineFault> {
    if in_bounds(mem, pc as int, 4) {
        Ok(RvEncoding(load_u32(mem, pc as int)))
    } else {
        Err(PipelineFault::Fetch(pc))
    }
}

/// Whether the pipeline has an operation for the instruction.
pub open spec fn supported(instr: RvInstr) -> bool {
    instr is Op || instr is OpImm || instr is Lui || instr is Load || instr is Store
}

/// Whether every register that the instruction names is below `n`.
pub open spec fn names_below(instr: RvInstr, n: nat) -> bool {
    match instr {
        RvInstr::Op(rd, rs1, rs2, _) => rd.0 < n && rs1.0 < n && rs2.0 < n,
        RvInstr::OpImm(rd, rs1, _, _) => rd.0 < n && rs1.0 < n,
        RvInstr::Load(rd, rs1, _, _) => rd.0 < n && rs1.0 < n,
        RvInstr::LoadU(rd, rs1, _, _) => rd.0 < n && rs1.0 < n,
        RvInstr::Jalr(rd, rs1, _) => rd.0 < n && rs1.0 < n,
        RvInstr::Lui(rd, _) => rd.0 < n,
        RvInstr::Auipc(rd, _) => rd.0 < n,
        RvInstr::Store(rs1, rs2, _, _) => rs1.0 < n && rs2.0 < n,
        RvInstr::Jal(rd, _) => rd.0 < n,
        RvInstr::Branch(rs1, rs2, _, _) => rs1.0 < n && rs2.0 < n,
        RvInstr::Fence => true,
        RvInstr::Ecall => true,
        RvInstr::Ebreak => true,
    }
}

/// The second half of ID: the operation that stands for a decoded instruction, with the
/// values of its source registers in place of their names.
pub open spec fn lowered(regs: Seq<u32>, instr: RvInstr) -> Result<Op, PipelineFault> {
    if !supported(instr) {
        Err(PipelineFault::Unsupported(instr))
    } else if !names_below(instr, regs.len()) {
        Err(PipelineFault::NoSuchRegister(instr))
    } else {
        match instr {
            RvInstr::Op(rd, rs1, rs2, op) => Ok(
                Op::Alu(rd.0, regs[rs1.0 as int], regs[rs2.0 as int], op.alu_op()),
            ),
            RvInstr::OpImm(rd, rs1, imm, op) => Ok(
                Op::Alu(rd.0, regs[rs1.0 as int], wrap32(imm as int), op.alu_op()),
            ),
            RvInstr::Lui(rd, uimm) => Ok(Op::Alu(rd.0, 0, uimm, ALUOp::Add)),
            RvInstr::Load(rd, rs1, imm, w) => Ok(
                Op::Load(rd.0, regs[rs1.0 as int], imm, w.width()),
            ),
            RvInstr::Store(rs1, rs2, imm, w) => Ok(
                Op::Store(regs[rs2.0 as int], regs[rs1.0 as int], imm, w.width()),
            ),
            _ => Err(PipelineFault::Unsupported(instr)),
        }
    }
}

/// ID: decode the word, then read the source registers.
pub open spec fn decoded_op(regs: Seq<u32>, raw: RvEncoding) -> Result<Op, PipelineFault> {
    match raw.decoded() {
        Ok(instr) => lowered(regs, instr),
        Err(cause) => Err(PipelineFault::Decode(raw.0, cause)),
    }
}

/// EX: the effect of an operation. An ALU operation is computed; for a load or a store the
/// address is.
pub open spec fn executed(op: Op) -> Effect {
    match op {
        Op::Alu(rd, x, y, aluop) => Effect::RegWrite(rd, aluop.eval(x, y)),
        Op::Load(rd, base, off, w) => Effect::MemLoad(rd, wrap32(base + off), w),
        Op::Store(val, base, off, w) => Effect::MemStore(val, wrap32(base + off), w),
    }
}

/// ME: a load becomes the write of the loaded, sign-extended value; a store is applied to
/// memory and leaves nothing to do; any other effect passes through.
pub open spec fn accessed(mem: Seq<u8>, effect: Effect) -> Result<(Seq<u8>, Effect), PipelineFault> {
    match effect {
        Effect::MemLoad(rd, addr, w) => if in_bounds(mem, addr as int, w.rv().bytes() as int) {
            Ok((mem, Effect::RegWrite(rd, loaded(mem, addr as int, w.rv(), false))))
        } else {
            Err(PipelineFault::Access(addr, w))
        },
        Effect::MemStore(val, addr, w) => if in_bounds(mem, addr as int, w.rv().bytes() as int) {
            Ok((stored(mem, addr as int, w.rv(), val), Effect::Nop))
        } else {
            Err(PipelineFault::Access(addr, w))
        },
        _ => Ok((mem, effect)),
    }
}

/// Whether WB can take the effect: it is empty, or the write of a register that exists.
pub open spec fn committable(regs: Seq<u32>, effect: Effect) -> bool {
    match effect {
        Effect::Nop => true,
        Effect::RegWrite(rd, _) => rd < regs.len(),
        _ => false,
    }
}

/// WB: the registers after the effect is committed.
pub open spec fn committed(regs: Seq<u32>, effect: Effect) -> Seq<u32> {
    match effect {
        Effect::RegWrite(rd, val) => write_reg(regs, rd as int, val),
        _ => regs,
    }
}

/// Stages EX to WB on the operation `op`, and the program counter moved on by four.
pub open spec fn retired(s: MachineState, op: Op) -> Result<MachineState, PipelineFault> {
    match accessed(s.mem, executed(op)) {
        Ok((mem, effect)) => Ok(
            MachineState { pc: wrap32(s.pc + 4), regs: committed(s.regs, effect), mem },
        ),
        Err(fault) => Err(fault),
    }
}

/// The state after `instr` has gone through the stages from the second half of ID on.
pub open spec fn issued(s: MachineState, instr: RvInstr) -> Result<MachineState, PipelineFault> {
    match lowered(s.regs, instr) {
        Ok(op) => retired(s, op),
        Err(fault) => Err(fault),
    }
}

/// One tick: the five stages from left to right, and the program counter moved on by four.
pub open spec fn tick(s: MachineState) -> Result<MachineState, PipelineFault> {
    match fetched(s.mem, s.pc) {
        Ok(raw) => match decoded_op(s.regs, raw) {
            Ok(op) => retired(s, op),
            Err(fault) => Err(fault),
        },
        Err(fault) => Err(fault),
    }
}

/// The state after `n` ticks, or the fault of the first tick that could not be completed.
pub open spec fn ticks(s: MachineState, n: nat) -> Result<MachineState, PipelineFault>
    decreases n,
{
    if n == 0 {
        Ok(s)
    } else {
        match tick(s) {
            Ok(next) => ticks(next, (n - 1) as nat),
            Err(fault) => Err(fault),
        }
    }
}

/// A stage of the pipeline: a transformation of an input to an output that may read or
/// change one resource that it shares with other stages.
pub trait PipelineStage<R> {
    type In;

    type Out;

    /// Whether the stage can take the input `i`.
    spec fn accepts(shared: R, i: Self::In) -> bool;

    /// Whether, on the input `i` and with the resource as in `pre`, the stage gives the
    /// output `o` and leaves the resource as in `post`.
    spec fn performs(pre: R, i: Self::In, post: R, o: Self::Out) -> bool;

    fn execute(&mut self, shared: &mut R, i: Self::In) -> (o: Self::Out)
        requires
            Self::accepts(*old(shared), i),
        ensures
            Self::performs(*old(shared), i, *final(shared), o),
    ;
}

/// IF: reads the word at the program counter.
pub struct FetchStage {}

impl FetchStage {
    pub fn new() -> Self {
        Self {  }
    }
}

impl PipelineStage<DataMemory> for FetchStage {
    type In = u32;

    type Out = Result<RvEncoding, PipelineFault>;

    open spec fn accepts(shared: DataMemory, i: u32) -> bool {
        true
    }

    open spec fn performs(
        pre: DataMemory,
        i: u32,
        post: DataMemory,
        o: Result<RvEncoding, PipelineFault>,
    ) -> bool {
        post@ == pre@ && o == fetched(pre@, i)
    }

    fn execute(&mut self, shared: &mut DataMemory, i: u32) -> (o: Result<
        RvEncoding,
        PipelineFault,
    >) {
        if mapped(&shared.mem, i, RvWidth::Word) {
            Ok(RvEncoding(shared.load32(i as usize)))
        } else {
            Err(PipelineFault::Fetch(i))
        }
    }
}

/// ID: decodes the word and reads the source registers.
pub struct DecodeStage {}

impl DecodeStage {
    pub fn new() -> Self {
        Self {  }
    }

    /// The operation that stands for `instr`, with the values of its source registers.
    pub fn lower(rf: &RegisterFile, instr: RvInstr) -> (r: Result<Op, PipelineFault>)
        ensures
            r == lowered(rf@, instr),
    {
        let n = rf.size();
        match instr {
            RvInstr::Op(rd, rs1, rs2, op) => {
                if rd.0 < n && rs1.0 < n && rs2.0 < n {
                    Ok(Op::Alu(rd.0, rf.read(rs1.0), rf.read(rs2.0), op.to_alu_op()))
                } else {
                    Err(PipelineFault::NoSuchRegister(instr))
                }
            },
            RvInstr::OpImm(rd, rs1, imm, op) => {
                if rd.0 < n && rs1.0 < n {
                    proof {
                        lemma_casts(0, imm);
                    }
                    Ok(Op::Alu(rd.0, rf.read(rs1.0), imm as u32, op.to_alu_op()))
                } else {
                    Err(PipelineFault::NoSuchRegister(instr))
                }
            },
            RvInstr::Lui(rd, imm) => {
                if rd.0 < n {
                    Ok(Op::Alu(rd.0, 0, imm, ALUOp::Add))
                } else {
                    Err(PipelineFault::NoSuchRegister(instr))
                }
            },
            RvInstr::Load(rd, rs1, imm, w) => {
                if rd.0 < n && rs1.0 < n {
                    Ok(Op::Load(rd.0, rf.read(rs1.0), imm, w.to_width()))
                } else {
                    Err(PipelineFault::NoSuchRegister(instr))
                }
            },
            RvInstr::Store(rs1, rs2, imm, w) => {
                if rs1.0 < n && rs2.0 < n {
                    Ok(Op::Store(rf.read(rs2.0), rf.read(rs1.0), imm, w.to_width()))
                } else {
                    Err(PipelineFault::NoSuchRegister(instr))
                }
            },
            _ => Err(PipelineFault::Unsupported(instr)),
        }
    }
}

impl PipelineStage<RegisterFile> for DecodeStage {
    type In = RvEncoding;

    type Out = Result<Op, PipelineFault>;

    open spec fn accepts(shared: RegisterFile, i: RvEncoding) -> bool {
        true
    }

    open spec fn performs(
        pre: RegisterFile,
        i: RvEncoding,
        post: RegisterFile,
        o: Result<Op, PipelineFault>,
    ) -> bool {
        post@ == pre@ && o == decoded_op(pre@, i)
    }

    fn execute(&mut self, shared: &mut RegisterFile, i: RvEncoding) -> (o: Result<
        Op,
        PipelineFault,
    >) {
        match i.decode() {
            Ok(instr) => Self::lower(shared, instr),
            Err(cause) => Err(PipelineFault::Decode(i.0, cause)),
        }
    }
}

/// EX: computes the result of an ALU operation or the address of a memory access.
pub struct ExecutionStage {}

impl ExecutionStage {
    pub fn new() -> Self {
        Self {  }
    }
}

impl PipelineStage<()> for ExecutionStage {
    type In = Op;

    type Out = Effect;

    open spec fn accepts(shared: (), i: Op) -> bool {
        true
    }

    open spec fn performs(pre: (), i: Op, post: (), o: Effect) -> bool {
        o == executed(i)
    }

    fn execute(&mut self, shared: &mut (), i: Op) -> (o: Effect) {
        match i {
            Op::Alu(rd, x, y, aluop) => {
                let res = Interpreter::eval_alu_op(x, y, aluop.to_rv());
                Effect::RegWrite(rd, res)
            },
            Op::Load(rd, base, off, w) => {
                proof {
                    lemma_casts(0, off);
                }
                let addr = base.wrapping_add(off as u32);
                Effect::MemLoad(rd, addr, w)
            },
            Op::Store(val, base, off, w) => {
                proof {
                    lemma_casts(0, off);
                }
                let addr = base.wrapping_add(off as u32);
                Effect::MemStore(val, addr, w)
            },
        }
    }
}

/// ME: carries out loads and stores.
pub struct MemoryStage {}

impl MemoryStage {
    pub fn new() -> Self {
        Self {  }
    }
}

impl PipelineStage<DataMemory> for MemoryStage {
    type In = Effect;

    type Out = Result<Effect, PipelineFault>;

    open spec fn accepts(shared: DataMemory, i: Effect) -> bool {
        true
    }

    open spec fn performs(
        pre: DataMemory,
        i: Effect,
        post: DataMemory,
        o: Result<Effect, PipelineFault>,
    ) -> bool {
        match accessed(pre@, i) {
            Ok((mem, effect)) => o == Ok::<Effect, PipelineFault>(effect) && post@ == mem,
            Err(fault) => o == Err::<Effect, PipelineFault>(fault) && post@ == pre@,
        }
    }

    fn execute(&mut self, shared: &mut DataMemory, i: Effect) -> (o: Result<
        Effect,
        PipelineFault,
    >) {
        match i {
            Effect::MemLoad(rd, addr, w) => {
                if !mapped(&shared.mem, addr, w.to_rv()) {
                    return Err(PipelineFault::Access(addr, w));
                }
                Ok(Effect::RegWrite(rd, load_value(&shared.mem, addr, w.to_rv(), false)))
            },
            Effect::MemStore(val, addr, w) => {
                if !mapped(&shared.mem, addr, w.to_rv()) {
                    return Err(PipelineFault::Access(addr, w));
                }
                store_value(&mut shared.mem, addr, w.to_rv(), val);
                Ok(Effect::Nop)
            },
            _ => Ok(i),
        }
    }
}

/// WB: commits a register write.
pub struct WritebackStage {}

impl WritebackStage {
    pub fn new() -> Self {
        Self {  }
    }
}

impl PipelineStage<RegisterFile> for WritebackStage {
    type In = Effect;

    type Out = ();

    open spec fn accepts(shared: RegisterFile, i: Effect) -> bool {
        committable(shared@, i)
    }

    open spec fn performs(pre: RegisterFile, i: Effect, post: RegisterFile, o: ()) -> bool {
        post@ == committed(pre@, i)
    }

    fn execute(&mut self, shared: &mut RegisterFile, i: Effect) -> (o: ()) {
        match i {
            Effect::RegWrite(rd, val) => {
                shared.write(rd, val);
            },
            _ => {},
        }
    }
}

/// The cycle count after one more tick: it wraps around.
pub open spec fn next_cycle(cyc: usize) -> usize {
    if cyc == usize::MAX {
        0
    } else {
        (cyc + 1) as usize
    }
}

/// The pipeline: a cycle count, a program counter, the shared register file and memory,
/// and the five stages.
pub struct SimplePipeline {
    pub cyc: usize,
    pub pc: u32,
    pub rf: RegisterFile,
    pub dmem: DataMemory,
    pub if_stage: FetchStage,
    pub id_stage: DecodeStage,
    pub ex_stage: ExecutionStage,
    pub me_stage: MemoryStage,
    pub wb_stage: WritebackStage,
}

impl View for SimplePipeline {
    type V = MachineState;

    open spec fn view(&self) -> MachineState {
        MachineState { pc: self.pc, regs: self.rf@, mem: self.dmem@ }
    }
}

impl SimplePipeline {
    /// A pipeline at cycle 0 with the program counter at 0, over the given register file
    /// and memory.
    pub fn new(rf: RegisterFile, dmem: DataMemory) -> (r: Self)
        ensures
            r.cyc == 0,
            r@ == (MachineState { pc: 0, regs: rf@, mem: dmem@ }),
    {
        Self {
            cyc: 0,
            pc: 0,
            if_stage: FetchStage::new(),
            id_stage: DecodeStage::new(),
            ex_stage: ExecutionStage::new(),
            me_stage: MemoryStage::new(),
            wb_stage: WritebackStage::new(),
            rf,
            dmem,
        }
    }

    /// Stages EX, ME and WB on the operation `d`; then the program counter moves on by four
    /// and the cycle count by one. A fault leaves the pipeline as it was.
    fn retire(&mut self, d: Op) -> (r: Result<(), PipelineFault>)
        requires
            d matches Op::Alu(rd, _, _, _) ==> rd < old(self).rf@.len(),
            d matches Op::Load(rd, _, _, _) ==> rd < old(self).rf@.len(),
        ensures
            match retired(old(self)@, d) {
                Ok(next) => r == Ok::<(), PipelineFault>(()) && final(self)@ == next
                    && final(self).cyc == next_cycle(old(self).cyc),
                Err(fault) => r == Err::<(), PipelineFault>(fault) && final(self)@ == old(self)@
                    && final(self).cyc == old(self).cyc,
            },
    {
        let mut nothing = ();
        let x = self.ex_stage.execute(&mut nothing, d);
        let m = match self.me_stage.execute(&mut self.dmem, x) {
            Ok(m) => m,
            Err(fault) => {
                return Err(fault);
            },
        };
        self.wb_stage.execute(&mut self.rf, m);
        self.pc = self.pc.wrapping_add(4);
        self.cyc = self.cyc.wrapping_add(1);
        Ok(())
    }

    /// One tick: the word at the program counter goes through the five stages; then the
    /// program counter moves on by four and the cycle count by one. A fault leaves the
    /// pipeline as it was.
    pub fn step(&mut self) -> (r: Result<(), PipelineFault>)
        ensures
            match tick(old(self)@) {
                Ok(next) => r == Ok::<(), PipelineFault>(()) && final(self)@ == next
                    && final(self).cyc == next_cycle(old(self).cyc),
                Err(fault) => r == Err::<(), PipelineFault>(fault) && final(self)@ == old(self)@
                    && final(self).cyc == old(self).cyc,
            },
    {
        let f = match self.if_stage.execute(&mut self.dmem, self.pc) {
            Ok(f) => f,
            Err(fault) => {
                return Err(fault);
            },
        };
        let d = match self.id_stage.execute(&mut self.rf, f) {
            Ok(d) => d,
            Err(fault) => {
                return Err(fault);
            },
        };
        self.retire(d)
    }

    /// A tick on an instruction that is handed in rather than fetched: `instr` goes through
    /// the stages from the second half of ID on.
    pub fn issue(&mut self, instr: RvInstr) -> (r: Result<(), PipelineFault>)
        ensures
            match issued(old(self)@, instr) {
                Ok(next) => r == Ok::<(), PipelineFault>(()) && final(self)@ == next
                    && final(self).cyc == next_cycle(old(self).cyc),
                Err(fault) => r == Err::<(), PipelineFault>(fault) && final(self)@ == old(self)@
                    && final(self).cyc == old(self).cyc,
            },
    {
        match DecodeStage::lower(&self.rf, instr) {
            Ok(d) => self.retire(d),
            Err(fault) => Err(fault),
        }
    }
}

/// The fault of the pipeline that stands for a fault of the interpreter.
pub open spec fn fault_of(fault: Fault) -> PipelineFault {
    match fault {
        Fault::Fetch { pc } => PipelineFault::Fetch(pc),
        Fault::Decode { pc, word, cause } => PipelineFault::Decode(word, cause),
        Fault::Access { pc, addr, width } => PipelineFault::Access(addr, width.width()),
    }
}

/// Whether the next `n` steps of the interpreter from `s` all execute instructions that the
/// pipeline supports, without a fault and without reaching the sentinel before the end.
pub open spec fn straight_line(s: MachineState, n: nat) -> bool
    decreases n,
{
    n == 0 || (s.pc != SENTINEL && match s.current_instr() {
        Ok(instr) => supported(instr) && match s.step() {
            Ok((next, r)) => straight_line(next.advance(r), (n - 1) as nat),
            Err(_) => false,
        },
        Err(_) => false,
    })
}

/// On an instruction that the pipeline supports, the stages from the second half of ID on
/// do what the interpreter does when it executes the instruction and moves to the next one,
/// and fail where the interpreter fails.
pub proof fn lemma_issue_is_execute(s: MachineState, instr: RvInstr)
    requires
        s.wf(),
        instr.wf(),
        supported(instr),
    ensures
        match s.execute(instr) {
            Ok((next, r)) => r == StepResult::Next && issued(s, instr) == Ok::<
                MachineState,
                PipelineFault,
            >(next.advance(r)),
            Err(fault) => issued(s, instr) == Err::<MachineState, PipelineFault>(fault_of(fault)),
        },
{
    reveal(MachineState::execute);
    super::common::lemma_frontend(RvALUOp::Add, RvWidth::Byte);
    match instr {
        RvInstr::Op(rd, rs1, rs2, op) => {
            super::common::lemma_frontend(op, RvWidth::Byte);
        },
        RvInstr::OpImm(rd, rs1, imm, op) => {
            super::common::lemma_frontend(op, RvWidth::Byte);
        },
        RvInstr::Load(rd, rs1, imm, w) => {
            super::common::lemma_frontend(RvALUOp::Add, w);
        },
        RvInstr::Store(rs1, rs2, imm, w) => {
            super::common::lemma_frontend(RvALUOp::Add, w);
        },
        _ => {},
    }
}

/// A tick of the pipeline is a step of the interpreter: on an instruction that the pipeline
/// supports it ends in the state that the interpreter reaches by executing the instruction
/// and moving to the next one, and it fails where the interpreter fails.
pub proof fn lemma_tick_is_step(s: MachineState)
    requires
        s.wf(),
    ensures
        match s.current_instr() {
            Ok(instr) => if supported(instr) {
                match s.step() {
                    Ok((next, r)) => tick(s) == Ok::<MachineState, PipelineFault>(next.advance(r)),
                    Err(fault) => tick(s) == Err::<MachineState, PipelineFault>(fault_of(fault)),
                }
            } else {
                tick(s) == Err::<MachineState, PipelineFault>(PipelineFault::Unsupported(instr))
            },
            Err(fault) => tick(s) == Err::<MachineState, PipelineFault>(fault_of(fault)),
        },
{
    reveal(MachineState::step);
    if let Ok(instr) = s.current_instr() {
        RvEncoding(load_u32(s.mem, s.pc as int)).lemma_decoded_wf();
        if supported(instr) {
            lemma_issue_is_execute(s, instr);
        }
    }
}

/// After `n` ticks the pipeline is in the state of the interpreter after `n` steps, as long
/// as those steps execute supported instructions only.
pub proof fn lemma_ticks_are_steps(s: MachineState, n: nat)
    requires
        s.wf(),
        straight_line(s, n),
    ensures
        ticks(s, n) == Ok::<MachineState, PipelineFault>(s.run(n).0),
    decreases n,
{
    if n > 0 {
        lemma_tick_is_step(s);
        crate::models::semantics::lemma_step_wf(s);
        match s.step() {
            Ok((next, r)) => {
                lemma_ticks_are_steps(next.advance(r), (n - 1) as nat);
            },
            Err(_) => {},
        }
    } else {
    }
}

} // verus!
