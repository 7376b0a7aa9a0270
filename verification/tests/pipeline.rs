use uarch_emu::image::{Image, Segment};
use uarch_emu::mem::{DataMemory, Memory};
use uarch_emu::models::interp::{Halt, Interpreter};
use uarch_emu::rv32::sample::random_instr;
use uarch_emu::rv32::{DecodeError, RvALUOp, RvBranchOp, RvEncoding, RvInstr, RvReg, RvWidth};
use uarch_emu::uarch::common::{
    ALUOp, Effect, FrontendALUOp, FrontendAccessWidth, Instruction, Op, RegisterFile, Width,
};
use uarch_emu::uarch::simple::{
    DecodeStage, ExecutionStage, FetchStage, MemoryStage, PipelineFault, PipelineStage,
    SimplePipeline, WritebackStage,
};

const INITIAL_REGS: [u32; 8] = [0, 1, 2, 3, 4, 5, 6, 7];

fn r_type(f7: u32, rs2: u32, rs1: u32, f3: u32, rd: u32, opcode: u32) -> u32 {
    (f7 << 25) | (rs2 << 20) | (rs1 << 15) | (f3 << 12) | (rd << 7) | opcode
}

fn i_type(imm: i32, rs1: u32, f3: u32, rd: u32, opcode: u32) -> u32 {
    (((imm as u32) & 0xfff) << 20) | (rs1 << 15) | (f3 << 12) | (rd << 7) | opcode
}

fn s_type(imm: i32, rs2: u32, rs1: u32, f3: u32) -> u32 {
    let imm = imm as u32;
    (((imm >> 5) & 0x7f) << 25) | (rs2 << 20) | (rs1 << 15) | (f3 << 12) | ((imm & 0x1f) << 7)
        | 0x23
}

fn addi(rd: u32, rs1: u32, imm: i32) -> u32 {
    i_type(imm, rs1, 0, rd, 0x13)
}

fn words(program: &[u32]) -> Vec<u8> {
    let mut bytes = Vec::new();
    for word in program {
        bytes.extend_from_slice(&word.to_le_bytes());
    }
    bytes
}

/// The registers of an interpreter at reset, as initial values for a register file.
fn reset_registers() -> Vec<u32> {
    let mut regs = vec![0u32; 32];
    regs[1] = 0xdead_0000;
    regs[2] = 0x000f_0000;
    regs
}

/// A pipeline and an interpreter in the same state: `program` at address 0, the program
/// counter there, one mebibyte of memory.
fn pair(program: &[u32]) -> (SimplePipeline, Interpreter) {
    let mut mem = Memory::new(0x0010_0000);
    mem.write(0, &words(program));
    let rf = RegisterFile::new(32, Some(&reset_registers()));
    let pipeline = SimplePipeline::new(rf, DataMemory::from_memory(mem));

    let mut vm = Interpreter::new();
    let image = Image { entry: 0, segments: vec![Segment { address: 0, data: words(program) }] };
    assert_eq!(vm.load_image(&image), Ok(()));
    (pipeline, vm)
}

/// Runs both for `n` instructions and holds their registers and program counters against
/// one another after each.
fn in_lockstep(program: &[u32], n: usize) -> (SimplePipeline, Interpreter) {
    let (mut p, mut vm) = pair(program);
    for tick in 0..n {
        assert_eq!(p.step(), Ok(()));
        assert_eq!(vm.run(1), Halt::OutOfSteps);
        assert_eq!(p.pc, vm.pc());
        assert_eq!(p.cyc, tick + 1);
        for idx in 0..32 {
            assert_eq!(p.rf.read(idx), vm.regs().read(RvReg(idx)));
        }
    }
    (p, vm)
}

#[test]
fn main_test() {
    let dmem = DataMemory::new();
    let rf = RegisterFile::new(8, Some(&INITIAL_REGS));
    let mut p = SimplePipeline::new(rf, dmem);

    for _cycle in 0..8 {
        println!("{:08x?}", p.rf);
        let (cyc, pc) = (p.cyc, p.pc);
        let instr = random_instr();
        match p.issue(instr) {
            Ok(()) => {
                assert_eq!((p.cyc, p.pc), (cyc + 1, pc + 4));
            },
            Err(fault) => {
                // only a load can fail here: its address may lie outside the 64 KiB
                assert!(matches!(fault, PipelineFault::Access(_, _)));
                assert!(matches!(instr, RvInstr::Load(_, _, _, _)));
                assert_eq!((p.cyc, p.pc), (cyc, pc));
            },
        }
        assert_eq!(p.rf.read(0), 0);
        println!();
    }
}

#[test]
fn register_file_from_initial_values() {
    let rf = RegisterFile::new(8, Some(&INITIAL_REGS));
    assert_eq!(rf.size(), 8);
    for idx in 0..8 {
        assert_eq!(rf.read(idx), idx as u32);
    }
    // register 0 reads as zero whatever it is made with
    let rf = RegisterFile::new(3, Some(&[7, 8, 9]));
    assert_eq!(rf.read(0), 0);
    assert_eq!(rf.read(1), 8);
    assert_eq!(rf.read(2), 9);
}

#[test]
fn register_file_without_initial_values_is_zero() {
    let mut rf = RegisterFile::new(32, None);
    assert_eq!(rf.size(), 32);
    for idx in 0..32 {
        assert_eq!(rf.read(idx), 0);
    }
    rf.write(31, 5);
    rf.write(0, 5);
    assert_eq!(rf.read(31), 5);
    assert_eq!(rf.read(30), 0);
    assert_eq!(rf.read(0), 0);
    let empty = RegisterFile::new(0, None);
    assert_eq!(empty.size(), 0);
}

#[test]
fn frontend_operations_map_to_those_of_the_machine() {
    assert_eq!(RvALUOp::Add.to_alu_op(), ALUOp::Add);
    assert_eq!(RvALUOp::Sub.to_alu_op(), ALUOp::Sub);
    assert_eq!(RvALUOp::Xor.to_alu_op(), ALUOp::Xor);
    assert_eq!(RvALUOp::Or.to_alu_op(), ALUOp::Or);
    assert_eq!(RvALUOp::And.to_alu_op(), ALUOp::And);
    assert_eq!(RvALUOp::Slt.to_alu_op(), ALUOp::LtSigned);
    assert_eq!(RvALUOp::Sltu.to_alu_op(), ALUOp::LtUnsigned);
    assert_eq!(RvALUOp::Sll.to_alu_op(), ALUOp::Sll);
    assert_eq!(RvALUOp::Srl.to_alu_op(), ALUOp::Srl);
    assert_eq!(RvALUOp::Sra.to_alu_op(), ALUOp::Sra);
    assert_eq!(RvWidth::Byte.to_width(), Width::Byte);
    assert_eq!(RvWidth::Half.to_width(), Width::Half);
    assert_eq!(RvWidth::Word.to_width(), Width::Word);
}

#[test]
fn fetch_stage_reads_the_word_at_the_program_counter() {
    let mut mem = Memory::new(16);
    mem.store32(4, 0x1234_52b7);
    let mut dmem = DataMemory::from_memory(mem);
    let mut stage = FetchStage::new();
    assert_eq!(stage.execute(&mut dmem, 4), Ok(RvEncoding(0x1234_52b7)));
    assert_eq!(stage.execute(&mut dmem, 12), Ok(RvEncoding(0)));
    assert_eq!(stage.execute(&mut dmem, 13), Err(PipelineFault::Fetch(13)));
    assert_eq!(stage.execute(&mut dmem, 0xffff_fffe), Err(PipelineFault::Fetch(0xffff_fffe)));
}

#[test]
fn decode_stage_reads_the_source_registers() {
    let mut rf = RegisterFile::new(8, Some(&INITIAL_REGS));
    let mut stage = DecodeStage::new();
    // add x1, x2, x3
    assert_eq!(
        stage.execute(&mut rf, RvEncoding(r_type(0, 3, 2, 0, 1, 0x33))),
        Ok(Op::Alu(1, 2, 3, ALUOp::Add))
    );
    // addi x4, x5, -1
    assert_eq!(
        stage.execute(&mut rf, RvEncoding(addi(4, 5, -1))),
        Ok(Op::Alu(4, 5, 0xffff_ffff, ALUOp::Add))
    );
    // lui x5, 0x12345
    assert_eq!(
        stage.execute(&mut rf, RvEncoding(0x1234_52b7)),
        Ok(Op::Alu(5, 0, 0x1234_5000, ALUOp::Add))
    );
    // lh x6, -2(x7)
    assert_eq!(
        stage.execute(&mut rf, RvEncoding(i_type(-2, 7, 1, 6, 0x03))),
        Ok(Op::Load(6, 7, -2, Width::Half))
    );
    // sb x3, 9(x4)
    assert_eq!(
        stage.execute(&mut rf, RvEncoding(s_type(9, 3, 4, 0))),
        Ok(Op::Store(3, 4, 9, Width::Byte))
    );
}

#[test]
fn decode_stage_refuses_what_the_pipeline_cannot_do() {
    let mut rf = RegisterFile::new(8, Some(&INITIAL_REGS));
    let mut stage = DecodeStage::new();
    assert_eq!(
        stage.execute(&mut rf, RvEncoding(0xffff_ffff)),
        Err(PipelineFault::Decode(0xffff_ffff, DecodeError::UndefinedOpcode))
    );
    assert_eq!(
        stage.execute(&mut rf, RvEncoding(2)),
        Err(PipelineFault::Decode(2, DecodeError::Compressed))
    );
    // x8 in a file of eight registers
    let instr = RvInstr::OpImm(RvReg(8), RvReg(0), 1, RvALUOp::Add);
    assert_eq!(
        stage.execute(&mut rf, RvEncoding(addi(8, 0, 1))),
        Err(PipelineFault::NoSuchRegister(instr))
    );
    assert_eq!(DecodeStage::lower(&rf, instr), Err(PipelineFault::NoSuchRegister(instr)));
    let unsupported = [
        RvInstr::Jal(RvReg(1), 8),
        RvInstr::Jalr(RvReg(0), RvReg(1), 0),
        RvInstr::Branch(RvReg(1), RvReg(2), 8, RvBranchOp::Eq),
        RvInstr::Auipc(RvReg(1), 0x1000),
        RvInstr::LoadU(RvReg(1), RvReg(2), 0, RvWidth::Byte),
        RvInstr::Fence,
        RvInstr::Ecall,
        RvInstr::Ebreak,
        // unsupported goes before a register that is missing
        RvInstr::Jal(RvReg(9), 8),
    ];
    for instr in unsupported {
        assert_eq!(DecodeStage::lower(&rf, instr), Err(PipelineFault::Unsupported(instr)));
    }
}

#[test]
fn execution_stage_computes_results_and_addresses() {
    let mut stage = ExecutionStage::new();
    let mut nothing = ();
    let mut alu = |x: u32, y: u32, op: ALUOp| match stage.execute(&mut nothing, Op::Alu(3, x, y, op)) {
        Effect::RegWrite(3, val) => val,
        other => panic!("{:?}", other),
    };
    assert_eq!(alu(0xffff_ffff, 2, ALUOp::Add), 1);
    assert_eq!(alu(1, 2, ALUOp::Sub), 0xffff_ffff);
    assert_eq!(alu(0b1100, 0b1010, ALUOp::And), 0b1000);
    assert_eq!(alu(0b1100, 0b1010, ALUOp::Or), 0b1110);
    assert_eq!(alu(0b1100, 0b1010, ALUOp::Xor), 0b0110);
    assert_eq!(alu(1, 33, ALUOp::Sll), 2);
    assert_eq!(alu(0x8000_0000, 35, ALUOp::Srl), 0x1000_0000);
    assert_eq!(alu(0x8000_0000, 35, ALUOp::Sra), 0xf000_0000);
    assert_eq!(alu(0xffff_fff8, 2, ALUOp::Sra), 0xffff_fffe);
    assert_eq!(alu(0xffff_ffff, 0, ALUOp::LtSigned), 1);
    assert_eq!(alu(0xffff_ffff, 0, ALUOp::LtUnsigned), 0);
    assert_eq!(alu(0, 0xffff_ffff, ALUOp::LtUnsigned), 1);

    let mut stage = ExecutionStage::new();
    assert_eq!(
        stage.execute(&mut nothing, Op::Load(4, 0x100, -4, Width::Word)),
        Effect::MemLoad(4, 0xfc, Width::Word)
    );
    assert_eq!(
        stage.execute(&mut nothing, Op::Store(9, 2, -4, Width::Half)),
        Effect::MemStore(9, 0xffff_fffe, Width::Half)
    );
}

#[test]
fn memory_stage_resolves_loads_and_applies_stores() {
    let mut mem = Memory::new(16);
    mem.write(0, &[0xff, 0x80, 0x7f, 0x01]);
    let mut dmem = DataMemory::from_memory(mem);
    let mut stage = MemoryStage::new();
    assert_eq!(
        stage.execute(&mut dmem, Effect::MemLoad(5, 0, Width::Byte)),
        Ok(Effect::RegWrite(5, 0xffff_ffff))
    );
    assert_eq!(
        stage.execute(&mut dmem, Effect::MemLoad(5, 1, Width::Half)),
        Ok(Effect::RegWrite(5, 0x7f80))
    );
    assert_eq!(
        stage.execute(&mut dmem, Effect::MemLoad(5, 0, Width::Half)),
        Ok(Effect::RegWrite(5, 0xffff_80ff))
    );
    assert_eq!(
        stage.execute(&mut dmem, Effect::MemLoad(5, 0, Width::Word)),
        Ok(Effect::RegWrite(5, 0x017f_80ff))
    );
    assert_eq!(
        stage.execute(&mut dmem, Effect::MemStore(0x1234_5678, 8, Width::Word)),
        Ok(Effect::Nop)
    );
    assert_eq!(dmem.load32(8), 0x1234_5678);
    assert_eq!(
        stage.execute(&mut dmem, Effect::MemStore(0x1234_5678, 13, Width::Half)),
        Ok(Effect::Nop)
    );
    assert_eq!(dmem.load32(12), 0x0056_7800);
    assert_eq!(stage.execute(&mut dmem, Effect::MemStore(0xaabb, 15, Width::Byte)), Ok(Effect::Nop));
    assert_eq!(dmem.load8(15), 0xbb);
    // the other effects pass through
    assert_eq!(stage.execute(&mut dmem, Effect::RegWrite(1, 2)), Ok(Effect::RegWrite(1, 2)));
    assert_eq!(stage.execute(&mut dmem, Effect::Nop), Ok(Effect::Nop));
    // outside memory
    assert_eq!(
        stage.execute(&mut dmem, Effect::MemLoad(5, 13, Width::Word)),
        Err(PipelineFault::Access(13, Width::Word))
    );
    assert_eq!(
        stage.execute(&mut dmem, Effect::MemStore(1, 16, Width::Byte)),
        Err(PipelineFault::Access(16, Width::Byte))
    );
    assert_eq!(
        stage.execute(&mut dmem, Effect::MemStore(1, 0xffff_ffff, Width::Half)),
        Err(PipelineFault::Access(0xffff_ffff, Width::Half))
    );
}

#[test]
fn writeback_stage_commits_register_writes() {
    let mut rf = RegisterFile::new(8, Some(&INITIAL_REGS));
    let mut stage = WritebackStage::new();
    stage.execute(&mut rf, Effect::RegWrite(3, 33));
    assert_eq!(rf.read(3), 33);
    stage.execute(&mut rf, Effect::Nop);
    stage.execute(&mut rf, Effect::RegWrite(0, 44));
    for idx in 0..8 {
        assert_eq!(rf.read(idx), if idx == 3 { 33 } else { idx as u32 });
    }
}

#[test]
fn a_tick_moves_the_program_counter_by_four() {
    let (mut p, _) = pair(&[addi(5, 0, 1), addi(5, 5, 1)]);
    assert_eq!(p.cyc, 0);
    assert_eq!(p.pc, 0);
    assert_eq!(p.step(), Ok(()));
    assert_eq!((p.cyc, p.pc, p.rf.read(5)), (1, 4, 1));
    assert_eq!(p.step(), Ok(()));
    assert_eq!((p.cyc, p.pc, p.rf.read(5)), (2, 8, 2));
    // memory beyond the program is zero, which is no instruction
    assert_eq!(p.step(), Err(PipelineFault::Decode(0, DecodeError::Compressed)));
    assert_eq!((p.cyc, p.pc, p.rf.read(5)), (2, 8, 2));
}

#[test]
fn a_fault_leaves_the_pipeline_as_it_was() {
    let (mut p, _) = pair(&[i_type(-1, 0, 2, 5, 0x03), i_type(0, 1, 0, 0, 0x67)]);
    // lw x5, -1(x0)
    assert_eq!(p.step(), Err(PipelineFault::Access(0xffff_ffff, Width::Word)));
    assert_eq!((p.cyc, p.pc, p.rf.read(5)), (0, 0, 0));
    p.pc = 4;
    assert_eq!(
        p.step(),
        Err(PipelineFault::Unsupported(RvInstr::Jalr(RvReg(0), RvReg(1), 0)))
    );
    assert_eq!((p.cyc, p.pc), (0, 4));
    p.pc = 0x0010_0000;
    assert_eq!(p.step(), Err(PipelineFault::Fetch(0x0010_0000)));
}

#[test]
fn cycle_count_wraps_around() {
    let (mut p, _) = pair(&[addi(5, 0, 1)]);
    p.cyc = usize::MAX;
    assert_eq!(p.step(), Ok(()));
    assert_eq!(p.cyc, 0);
}

#[test]
fn pipeline_matches_interpreter_on_arithmetic_chain() {
    let program = [
        0x1234_52b7,
        addi(5, 5, 0x678),
        addi(6, 0, 0),
        r_type(0, 5, 6, 0, 6, 0x33),
        i_type(0, 1, 0, 0, 0x67),
    ];
    let (p, vm) = in_lockstep(&program, 4);
    assert_eq!(p.rf.read(5), 0x1234_5678);
    assert_eq!(p.rf.read(6), 0x1234_5678);
    assert_eq!(vm.regs().read(RvReg(6)), 0x1234_5678);
}

#[test]
fn pipeline_matches_interpreter_on_memory_round_trip() {
    let program = [addi(10, 0, 0x7b), s_type(16, 10, 2, 2), i_type(16, 2, 2, 11, 0x03)];
    let (p, vm) = in_lockstep(&program, 3);
    assert_eq!(p.rf.read(11), 0x7b);
    assert_eq!(p.dmem.load32(0x000f_0010), 0x7b);
    assert_eq!(vm.memory().load32(0x000f_0010), 0x7b);
    assert_eq!(p.dmem.mem.data, vm.memory().data);
}

#[test]
fn pipeline_matches_interpreter_before_a_branch() {
    let program = [addi(5, 0, -1), addi(6, 0, 1)];
    let (p, _) = in_lockstep(&program, 2);
    assert_eq!(p.rf.read(5), 0xffff_ffff);
    assert_eq!(p.rf.read(6), 1);
}

#[test]
fn pipeline_matches_interpreter_on_shift_immediates() {
    let program = [
        addi(5, 0, -8),
        r_type(0x20, 2, 5, 5, 6, 0x13),
        r_type(0, 2, 5, 5, 7, 0x13),
        r_type(0, 1, 6, 1, 8, 0x13),
    ];
    let (p, _) = in_lockstep(&program, 4);
    assert_eq!(p.rf.read(5), 0xffff_fff8);
    assert_eq!(p.rf.read(6), 0xffff_fffe);
    assert_eq!(p.rf.read(7), 0x3fff_fffe);
    assert_eq!(p.rf.read(8), 0xffff_fffc);
}

#[test]
fn pipeline_matches_interpreter_on_unaligned_signed_loads() {
    let program = [
        addi(5, 0, -2),
        // sh x5, 0x101(x0)
        s_type(0x101, 5, 0, 1),
        // lh x6, 0x101(x0); lb x7, 0x102(x0); lw x8, 0x100(x0)
        i_type(0x101, 0, 1, 6, 0x03),
        i_type(0x102, 0, 0, 7, 0x03),
        i_type(0x100, 0, 2, 8, 0x03),
    ];
    let (p, _) = in_lockstep(&program, 5);
    assert_eq!(p.rf.read(6), 0xffff_fffe);
    assert_eq!(p.rf.read(7), 0xffff_ffff);
    assert_eq!(p.rf.read(8), 0x00ff_fe00);
}

#[test]
fn issued_instructions_need_no_memory_for_the_program() {
    let rf = RegisterFile::new(8, Some(&INITIAL_REGS));
    let mut p = SimplePipeline::new(rf, DataMemory::from_memory(Memory::new(0)));
    assert_eq!(p.issue(RvInstr::Op(RvReg(1), RvReg(2), RvReg(3), RvALUOp::Add)), Ok(()));
    assert_eq!(p.rf.read(1), 5);
    assert_eq!(p.issue(RvInstr::Lui(RvReg(7), 0xabcd_e000)), Ok(()));
    assert_eq!(p.rf.read(7), 0xabcd_e000);
    assert_eq!((p.cyc, p.pc), (2, 8));
    assert_eq!(
        p.issue(RvInstr::Store(RvReg(0), RvReg(1), 0, RvWidth::Byte)),
        Err(PipelineFault::Access(0, Width::Byte))
    );
    assert_eq!(p.step(), Err(PipelineFault::Fetch(8)));
    assert_eq!((p.cyc, p.pc), (2, 8));
}

#[test]
fn an_instruction_of_the_stream_has_an_id() {
    let a = Instruction { id: 1, op: Op::Alu(1, 2, 3, ALUOp::Add) };
    let b = Instruction { id: 2, op: Op::Alu(1, 2, 3, ALUOp::Add) };
    assert_ne!(a, b);
    assert_eq!(a.op, b.op);
}
