use uarch_emu::effects::{
    ArithOp, BasicBlock, BasicBlockId, BinaryRelation, ControlEffect, DataEffect, LogicOp,
    Operation, UnaryRelation, VirtReg,
};

#[test]
fn default_block_is_empty_and_halts() {
    let bb = BasicBlock::default();
    assert!(bb.eff.is_empty());
    assert_eq!(bb.ctrl, ControlEffect::Halt);
}

#[test]
fn virtual_register_names_a_position() {
    assert_eq!(VirtReg(7).get(), 7);
    assert_eq!(VirtReg(0).get(), 0);
}

#[test]
fn a_block_of_effects_can_be_written_down() {
    let sum = Operation::Arith { x: VirtReg(0), y: VirtReg(1), op: ArithOp::Add };
    let block = BasicBlock {
        eff: vec![
            DataEffect::Id { dst: VirtReg(0), val: 1 },
            DataEffect::Id { dst: VirtReg(1), val: 2 },
            DataEffect::Op { dst: VirtReg(2), op: sum },
            DataEffect::Op {
                dst: VirtReg(3),
                op: Operation::Logic { x: VirtReg(2), y: VirtReg(0), op: LogicOp::Lsl },
            },
            DataEffect::Op { dst: VirtReg(4), op: Operation::Move { x: VirtReg(3), y: VirtReg(4) } },
            DataEffect::Op {
                dst: VirtReg(5),
                op: Operation::Cmp1 { x: VirtReg(4), op: UnaryRelation::NotId },
            },
            DataEffect::Op {
                dst: VirtReg(6),
                op: Operation::Cmp2 { x: VirtReg(4), y: VirtReg(0), op: BinaryRelation::Lt },
            },
        ],
        ctrl: ControlEffect::Branch2Cond {
            eff1: BasicBlockId(1),
            eff2: BasicBlockId(2),
            data1: VirtReg(2),
            data2: VirtReg(0),
            op: BinaryRelation::Gt,
        },
    };
    assert_eq!(block.eff.len(), 7);
    assert_eq!(block.eff[2], DataEffect::Op { dst: VirtReg(2), op: sum });
    assert_ne!(block.ctrl, ControlEffect::BranchUncond { eff: BasicBlockId(1) });
    assert_ne!(
        block.ctrl,
        ControlEffect::Branch1Cond {
            eff1: BasicBlockId(1),
            eff2: BasicBlockId(2),
            data: VirtReg(2),
            op: UnaryRelation::Id
        }
    );
}
