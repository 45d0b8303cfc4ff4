//! Routing for the escape arm: operand reporting for the instruction forms
//! of the separately generated opcode table. The table defines many more
//! forms; only those this layer itself creates or inspects are handled.

use vstd::prelude::*;
use crate::inst::RawInst;
use crate::operands::{raw_inst_operands, OperandVisitor};
use crate::regs::Writable;

verus! {

/// Reports the register operands of a generated-table instruction.
pub fn raw_get_operands<V: OperandVisitor>(raw: &RawInst, collector: &mut V)
    ensures
        final(collector).reports() == old(collector).reports() + raw_inst_operands(*raw),
{
    let ghost base = collector.reports();
    match raw {
        RawInst::Trap { .. } => {},
        RawInst::Ret => {},
        RawInst::Xmov { dst, src } => {
            collector.reg_def(Writable::from_reg(dst.to_reg().to_reg()));
            collector.reg_use(src.to_reg());
        },
        RawInst::Fmov { dst, src } => {
            collector.reg_def(Writable::from_reg(dst.to_reg().to_reg()));
            collector.reg_use(src.to_reg());
        },
        RawInst::Vmov { dst, src } => {
            collector.reg_def(Writable::from_reg(dst.to_reg().to_reg()));
            collector.reg_use(src.to_reg());
        },
    }
    proof {
        assert(collector.reports() =~= base + raw_inst_operands(*raw));
    }
}

} // verus!
