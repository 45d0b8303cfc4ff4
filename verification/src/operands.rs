//! The operand-collection protocol feeding the register allocator.
//!
//! Every instruction form reports each register operand exactly once,
//! classified as a plain use, a plain definition, a fixed-register use or
//! definition, an allocator-chosen definition, or a clobber set. The
//! authoritative operand list of each form is the spec function
//! `inst_operands`; the collector is proved to report exactly that list, in
//! order, to any visitor.

use vstd::prelude::*;
use crate::inst::{
    Amode, ArgPair, CallArgPair, CallRetPair, Cond, Inst, PulleyCall, RawInst, RetLocation,
    RetPair, TryCallHandler, TryCallInfo,
};
use crate::regs::{PRegSet, Reg, RegClass, Writable, RETURN_CALL_DEST_ENC};

verus! {

/// One reported register operand.
#[derive(Clone, Copy, Debug, PartialEq, Eq, Structural)]
pub enum Operand {
    /// A plain use: the allocator picks any register of the class.
    Use { reg: Reg },
    /// A plain definition.
    Def { reg: Reg },
    /// A use constrained to one physical register.
    FixedUse { vreg: Reg, preg: Reg },
    /// A definition constrained to one physical register.
    FixedDef { vreg: Reg, preg: Reg },
    /// A definition whose location the allocator chooses freely.
    AnyDef { vreg: Reg },
    /// The set of physical registers a call may destroy.
    Clobbers { set: PRegSet },
}

/// The visitor the allocator hands to operand collection. Each method
/// appends exactly one report.
pub trait OperandVisitor: Sized {
    /// The operands reported to this visitor so far, in order.
    spec fn reports(&self) -> Seq<Operand>;

    /// Reports a plain use.
    fn reg_use(&mut self, reg: Reg)
        ensures
            final(self).reports() == old(self).reports().push(Operand::Use { reg }),
    ;

    /// Reports a plain definition.
    fn reg_def(&mut self, reg: Writable<Reg>)
        ensures
            final(self).reports() == old(self).reports().push(Operand::Def { reg: reg.reg }),
    ;

    /// Reports a use fixed to the given physical register.
    fn reg_fixed_use(&mut self, vreg: Reg, preg: Reg)
        ensures
            final(self).reports() == old(self).reports().push(Operand::FixedUse { vreg, preg }),
    ;

    /// Reports a definition fixed to the given physical register.
    fn reg_fixed_def(&mut self, vreg: Writable<Reg>, preg: Reg)
        ensures
            final(self).reports() == old(self).reports().push(
                Operand::FixedDef { vreg: vreg.reg, preg },
            ),
    ;

    /// Reports a definition the allocator may place anywhere.
    fn any_def(&mut self, vreg: Writable<Reg>)
        ensures
            final(self).reports() == old(self).reports().push(
                Operand::AnyDef { vreg: vreg.reg },
            ),
    ;

    /// Reports the clobber set of a call.
    fn reg_clobbers(&mut self, set: PRegSet)
        ensures
            final(self).reports() == old(self).reports().push(Operand::Clobbers { set }),
    ;
}

/// A visitor that simply records every report, for the allocator's
/// bookkeeping passes and for tests.
pub struct OperandCollector {
    pub operands: Vec<Operand>,
}

impl OperandCollector {
    /// An empty collector.
    pub fn new() -> (r: OperandCollector)
        ensures
            r.reports() == Seq::<Operand>::empty(),
    {
        let r = OperandCollector { operands: Vec::new() };
        proof {
            assert(r.operands@ =~= Seq::<Operand>::empty());
        }
        r
    }
}

impl OperandVisitor for OperandCollector {
    open spec fn reports(&self) -> Seq<Operand> {
        self.operands@
    }

    fn reg_use(&mut self, reg: Reg) {
        self.operands.push(Operand::Use { reg });
    }

    fn reg_def(&mut self, reg: Writable<Reg>) {
        self.operands.push(Operand::Def { reg: reg.reg });
    }

    fn reg_fixed_use(&mut self, vreg: Reg, preg: Reg) {
        self.operands.push(Operand::FixedUse { vreg, preg });
    }

    fn reg_fixed_def(&mut self, vreg: Writable<Reg>, preg: Reg) {
        self.operands.push(Operand::FixedDef { vreg: vreg.reg, preg });
    }

    fn any_def(&mut self, vreg: Writable<Reg>) {
        self.operands.push(Operand::AnyDef { vreg: vreg.reg });
    }

    fn reg_clobbers(&mut self, set: PRegSet) {
        self.operands.push(Operand::Clobbers { set });
    }
}

/// The register operands of an addressing mode: the base register where
/// there is one; a stack-pointer-relative mode references only the special
/// stack pointer, which is never reported.
pub open spec fn amode_operands(mem: Amode) -> Seq<Operand> {
    match mem {
        Amode::SpOffset { .. } => seq![],
        Amode::RegOffset { base, .. } => seq![Operand::Use { reg: base.reg }],
    }
}

/// The register operands feeding a branch condition.
pub open spec fn cond_operands(cond: Cond) -> Seq<Operand> {
    match cond {
        Cond::If32 { reg } => seq![Operand::Use { reg: reg.reg }],
        Cond::IfNot32 { reg } => seq![Operand::Use { reg: reg.reg }],
        Cond::IfXeq32 { src1, src2 } => seq![
            Operand::Use { reg: src1.reg },
            Operand::Use { reg: src2.reg },
        ],
        Cond::IfXneq32 { src1, src2 } => seq![
            Operand::Use { reg: src1.reg },
            Operand::Use { reg: src2.reg },
        ],
        Cond::IfXslt32 { src1, src2 } => seq![
            Operand::Use { reg: src1.reg },
            Operand::Use { reg: src2.reg },
        ],
        Cond::IfXult32 { src1, src2 } => seq![
            Operand::Use { reg: src1.reg },
            Operand::Use { reg: src2.reg },
        ],
    }
}

/// Incoming argument bindings: each is a definition fixed to its
/// ABI-mandated physical register.
pub open spec fn arg_pairs_operands(args: Seq<ArgPair>) -> Seq<Operand> {
    args.map_values(|p: ArgPair| Operand::FixedDef { vreg: p.vreg.reg, preg: p.preg })
}

/// Outgoing return bindings: each is a use fixed to its ABI-mandated
/// physical register.
pub open spec fn ret_pairs_operands(rets: Seq<RetPair>) -> Seq<Operand> {
    rets.map_values(|p: RetPair| Operand::FixedUse { vreg: p.vreg, preg: p.preg })
}

/// ABI-fixed call arguments: each is a use fixed to its physical register.
pub open spec fn call_arg_uses(uses: Seq<CallArgPair>) -> Seq<Operand> {
    uses.map_values(|p: CallArgPair| Operand::FixedUse { vreg: p.vreg, preg: p.preg })
}

/// Call return values: a definition fixed to a physical register, or an
/// allocator-chosen definition for a value returned on the stack.
pub open spec fn call_ret_defs(defs: Seq<CallRetPair>) -> Seq<Operand> {
    defs.map_values(
        |p: CallRetPair|
            match p.location {
                RetLocation::Reg { preg } => Operand::FixedDef { vreg: p.vreg.reg, preg },
                RetLocation::Stack { .. } => Operand::AnyDef { vreg: p.vreg.reg },
            },
    )
}

/// The leading integer arguments of a direct call, which may travel in any
/// allocator-chosen register: plain uses.
pub open spec fn pulley_call_args(args: Seq<crate::regs::XReg>) -> Seq<Operand> {
    args.map_values(|x: crate::regs::XReg| Operand::Use { reg: x.reg })
}

/// The register operands of one catch handler: only a dynamic-context
/// handler references a register.
pub open spec fn handler_operands(h: TryCallHandler) -> Seq<Operand> {
    match h {
        TryCallHandler::Context { reg } => seq![Operand::Use { reg }],
        TryCallHandler::Tag { .. } => seq![],
        TryCallHandler::Default { .. } => seq![],
    }
}

/// The register operands of a handler list, in order.
pub open spec fn handlers_operands(hs: Seq<TryCallHandler>) -> Seq<Operand>
    decreases hs.len(),
{
    if hs.len() == 0 {
        seq![]
    } else {
        handlers_operands(hs.drop_last()) + handler_operands(hs.last())
    }
}

/// The register operands of an optional try-call continuation.
pub open spec fn try_call_operands(tci: Option<TryCallInfo>) -> Seq<Operand> {
    match tci {
        Option::None => seq![],
        Option::Some(t) => handlers_operands(t.handlers@),
    }
}

/// The physical register return-calls pin their callee address to.
pub open spec fn return_call_dest_reg() -> Reg {
    Reg::Real { class: RegClass::Int, enc: RETURN_CALL_DEST_ENC }
}

/// The authoritative operand list of every instruction form: which registers
/// it reads and writes, with their constraints, in report order. Label
/// operands are not register operands. Special registers never appear:
/// reading one is a definition of the destination only, and
/// stack-pointer-relative addressing reports no base.
pub open spec fn inst_operands(i: Inst) -> Seq<Operand> {
    match i {
        Inst::Args { args } => arg_pairs_operands(args@),
        Inst::Rets { rets } => ret_pairs_operands(rets@),
        Inst::DummyUse { reg } => seq![Operand::Use { reg }],
        Inst::Nop => seq![],
        Inst::TrapIf { cond, .. } => cond_operands(cond),
        Inst::GetSpecial { dst, .. } => seq![Operand::Def { reg: dst.reg.reg }],
        Inst::LoadExtName { dst, .. } => seq![Operand::Def { reg: dst.reg.reg }],
        Inst::Call { info } => pulley_call_args(info.dest.args@) + call_arg_uses(info.uses@)
            + call_ret_defs(info.defs@) + seq![Operand::Clobbers { set: info.clobbers }]
            + try_call_operands(info.try_call_info),
        Inst::IndirectCall { info } => seq![Operand::Use { reg: info.dest.reg }] + call_arg_uses(
            info.uses@,
        ) + call_ret_defs(info.defs@) + seq![Operand::Clobbers { set: info.clobbers }]
            + try_call_operands(info.try_call_info),
        Inst::IndirectCallHost { info } => call_arg_uses(info.uses@) + call_ret_defs(info.defs@)
            + seq![Operand::Clobbers { set: info.clobbers }] + try_call_operands(
            info.try_call_info,
        ),
        Inst::ReturnCall { info } => call_arg_uses(info.uses@),
        Inst::ReturnIndirectCall { info } => seq![
            Operand::FixedUse { vreg: info.dest.reg, preg: return_call_dest_reg() },
        ] + call_arg_uses(info.uses@),
        Inst::Jump { .. } => seq![],
        Inst::BrIf { cond, .. } => cond_operands(cond),
        Inst::BrTable { idx, .. } => seq![Operand::Use { reg: idx.reg }],
        Inst::LoadAddr { dst, mem } => seq![Operand::Def { reg: dst.reg.reg }] + amode_operands(
            mem,
        ),
        Inst::XLoad { dst, mem, .. } => seq![Operand::Def { reg: dst.reg.reg }] + amode_operands(
            mem,
        ),
        Inst::XStore { mem, src, .. } => amode_operands(mem) + seq![
            Operand::Use { reg: src.reg },
        ],
        Inst::FLoad { dst, mem, .. } => seq![Operand::Def { reg: dst.reg.reg }] + amode_operands(
            mem,
        ),
        Inst::FStore { mem, src, .. } => amode_operands(mem) + seq![
            Operand::Use { reg: src.reg },
        ],
        Inst::VLoad { dst, mem, .. } => seq![Operand::Def { reg: dst.reg.reg }] + amode_operands(
            mem,
        ),
        Inst::VStore { mem, src, .. } => amode_operands(mem) + seq![
            Operand::Use { reg: src.reg },
        ],
        Inst::Raw { raw } => raw_inst_operands(raw),
        Inst::EmitIsland { .. } => seq![],
    }
}

/// The operand reporting of the generated table's instruction forms.
pub open spec fn raw_inst_operands(raw: RawInst) -> Seq<Operand> {
    match raw {
        RawInst::Trap { .. } => seq![],
        RawInst::Ret => seq![],
        RawInst::Xmov { dst, src } => seq![
            Operand::Def { reg: dst.reg.reg },
            Operand::Use { reg: src.reg },
        ],
        RawInst::Fmov { dst, src } => seq![
            Operand::Def { reg: dst.reg.reg },
            Operand::Use { reg: src.reg },
        ],
        RawInst::Vmov { dst, src } => seq![
            Operand::Def { reg: dst.reg.reg },
            Operand::Use { reg: src.reg },
        ],
    }
}

/// Reports the registers an addressing mode itself references.
fn collect_amode<V: OperandVisitor>(mem: &Amode, collector: &mut V)
    ensures
        final(collector).reports() == old(collector).reports() + amode_operands(*mem),
{
    let ghost base = collector.reports();
    match mem {
        Amode::SpOffset { .. } => {},
        Amode::RegOffset { base: b, .. } => {
            collector.reg_use(b.to_reg());
        },
    }
    proof {
        assert(collector.reports() =~= base + amode_operands(*mem));
    }
}

/// Reports the registers feeding a branch condition.
fn collect_cond<V: OperandVisitor>(cond: &Cond, collector: &mut V)
    ensures
        final(collector).reports() == old(collector).reports() + cond_operands(*cond),
{
    let ghost base = collector.reports();
    match cond {
        Cond::If32 { reg } => {
            collector.reg_use(reg.to_reg());
        },
        Cond::IfNot32 { reg } => {
            collector.reg_use(reg.to_reg());
        },
        Cond::IfXeq32 { src1, src2 } => {
            collector.reg_use(src1.to_reg());
            collector.reg_use(src2.to_reg());
        },
        Cond::IfXneq32 { src1, src2 } => {
            collector.reg_use(src1.to_reg());
            collector.reg_use(src2.to_reg());
        },
        Cond::IfXslt32 { src1, src2 } => {
            collector.reg_use(src1.to_reg());
            collector.reg_use(src2.to_reg());
        },
        Cond::IfXult32 { src1, src2 } => {
            collector.reg_use(src1.to_reg());
            collector.reg_use(src2.to_reg());
        },
    }
    proof {
        assert(collector.reports() =~= base + cond_operands(*cond));
    }
}

/// Reports the ABI-fixed argument constraints of a call, in order.
fn collect_call_arg_uses<V: OperandVisitor>(uses: &Vec<CallArgPair>, collector: &mut V)
    ensures
        final(collector).reports() == old(collector).reports() + call_arg_uses(uses@),
{
    let ghost base = collector.reports();
    let n = uses.len();
    let mut i: usize = 0;
    while i < n
        invariant
            i <= n,
            n == uses@.len(),
            collector.reports() == base + call_arg_uses(uses@.take(i as int)),
        decreases n - i,
    {
        let pair = uses[i];
        collector.reg_fixed_use(pair.vreg, pair.preg);
        proof {
            assert(call_arg_uses(uses@.take(i + 1 as int)) =~= call_arg_uses(
                uses@.take(i as int),
            ).push(Operand::FixedUse { vreg: pair.vreg, preg: pair.preg }));
            assert(collector.reports() =~= base + call_arg_uses(uses@.take(i + 1 as int)));
        }
        i = i + 1;
    }
    proof {
        assert(uses@.take(n as int) =~= uses@);
    }
}

/// Reports the return-value constraints of a call, in order.
fn collect_call_ret_defs<V: OperandVisitor>(defs: &Vec<CallRetPair>, collector: &mut V)
    ensures
        final(collector).reports() == old(collector).reports() + call_ret_defs(defs@),
{
    let ghost base = collector.reports();
    let n = defs.len();
    let mut i: usize = 0;
    while i < n
        invariant
            i <= n,
            n == defs@.len(),
            collector.reports() == base + call_ret_defs(defs@.take(i as int)),
        decreases n - i,
    {
        let pair = defs[i];
        match pair.location {
            RetLocation::Reg { preg } => {
                collector.reg_fixed_def(pair.vreg, preg);
            },
            RetLocation::Stack { .. } => {
                collector.any_def(pair.vreg);
            },
        }
        proof {
            let rep = match pair.location {
                RetLocation::Reg { preg } => Operand::FixedDef { vreg: pair.vreg.reg, preg },
                RetLocation::Stack { .. } => Operand::AnyDef { vreg: pair.vreg.reg },
            };
            assert(call_ret_defs(defs@.take(i + 1 as int)) =~= call_ret_defs(
                defs@.take(i as int),
            ).push(rep));
            assert(collector.reports() =~= base + call_ret_defs(defs@.take(i + 1 as int)));
        }
        i = i + 1;
    }
    proof {
        assert(defs@.take(n as int) =~= defs@);
    }
}

impl TryCallInfo {
    /// Forwards the catch handlers' register operands to the visitor: only a
    /// dynamic-context handler references a register; the catch target
    /// labels are not register operands.
    pub fn collect_operands<V: OperandVisitor>(&self, collector: &mut V)
        ensures
            final(collector).reports() == old(collector).reports() + handlers_operands(
                self.handlers@,
            ),
    {
        let ghost base = collector.reports();
        let n = self.handlers.len();
        let mut i: usize = 0;
        while i < n
            invariant
                i <= n,
                n == self.handlers@.len(),
                collector.reports() == base + handlers_operands(self.handlers@.take(i as int)),
            decreases n - i,
        {
            match &self.handlers[i] {
                TryCallHandler::Context { reg } => {
                    collector.reg_use(*reg);
                },
                TryCallHandler::Tag { .. } => {},
                TryCallHandler::Default { .. } => {},
            }
            proof {
                let hs = self.handlers@;
                assert(hs.take(i + 1 as int).drop_last() =~= hs.take(i as int));
                assert(hs.take(i + 1 as int).last() == hs[i as int]);
                assert(handlers_operands(hs.take(i + 1 as int)) == handlers_operands(
                    hs.take(i as int),
                ) + handler_operands(hs[i as int]));
                assert(collector.reports() =~= base + handlers_operands(hs.take(i + 1 as int)));
            }
            i = i + 1;
        }
        proof {
            assert(self.handlers@.take(n as int) =~= self.handlers@);
        }
    }
}

/// Reports everything an ordinary call form reports after its destination:
/// fixed argument uses, return definitions, the clobber set, and the
/// try-call continuation's operands.
fn collect_call_info_tail<V: OperandVisitor>(
    uses: &Vec<CallArgPair>,
    defs: &Vec<CallRetPair>,
    clobbers: PRegSet,
    tci: &Option<TryCallInfo>,
    collector: &mut V,
)
    ensures
        final(collector).reports() == old(collector).reports() + call_arg_uses(uses@)
            + call_ret_defs(defs@) + seq![Operand::Clobbers { set: clobbers }]
            + try_call_operands(*tci),
{
    let ghost base = collector.reports();
    collect_call_arg_uses(uses, collector);
    collect_call_ret_defs(defs, collector);
    collector.reg_clobbers(clobbers);
    match tci {
        Option::Some(t) => {
            t.collect_operands(collector);
        },
        Option::None => {},
    }
    proof {
        assert(collector.reports() =~= base + call_arg_uses(uses@) + call_ret_defs(defs@) + seq![
            Operand::Clobbers { set: clobbers },
        ] + try_call_operands(*tci));
    }
}

/// Reports every register operand of the instruction to the visitor, in the
/// authoritative order of `inst_operands`. A special-register read must
/// carry a genuinely special source: that source is never reported.
pub fn pulley_get_operands<V: OperandVisitor>(inst: &Inst, collector: &mut V)
    requires
        inst matches Inst::GetSpecial { reg, .. } ==> reg.spec_is_special(),
    ensures
        final(collector).reports() == old(collector).reports() + inst_operands(*inst),
{
    let ghost base = collector.reports();
    match inst {
        Inst::Args { args } => {
            let n = args.len();
            let mut i: usize = 0;
            while i < n
                invariant
                    i <= n,
                    n == args@.len(),
                    collector.reports() == base + arg_pairs_operands(args@.take(i as int)),
                decreases n - i,
            {
                let pair = args[i];
                collector.reg_fixed_def(pair.vreg, pair.preg);
                proof {
                    assert(arg_pairs_operands(args@.take(i + 1 as int)) =~= arg_pairs_operands(
                        args@.take(i as int),
                    ).push(Operand::FixedDef { vreg: pair.vreg.reg, preg: pair.preg }));
                    assert(collector.reports() =~= base + arg_pairs_operands(
                        args@.take(i + 1 as int),
                    ));
                }
                i = i + 1;
            }
            proof {
                assert(args@.take(n as int) =~= args@);
            }
        },
        Inst::Rets { rets } => {
            let n = rets.len();
            let mut i: usize = 0;
            while i < n
                invariant
                    i <= n,
                    n == rets@.len(),
                    collector.reports() == base + ret_pairs_operands(rets@.take(i as int)),
                decreases n - i,
            {
                let pair = rets[i];
                collector.reg_fixed_use(pair.vreg, pair.preg);
                proof {
                    assert(ret_pairs_operands(rets@.take(i + 1 as int)) =~= ret_pairs_operands(
                        rets@.take(i as int),
                    ).push(Operand::FixedUse { vreg: pair.vreg, preg: pair.preg }));
                    assert(collector.reports() =~= base + ret_pairs_operands(
                        rets@.take(i + 1 as int),
                    ));
                }
                i = i + 1;
            }
            proof {
                assert(rets@.take(n as int) =~= rets@);
            }
        },
        Inst::DummyUse { reg } => {
            collector.reg_use(*reg);
            proof {
                assert(collector.reports() =~= base + inst_operands(*inst));
            }
        },
        Inst::Nop => {
            proof {
                assert(collector.reports() =~= base + inst_operands(*inst));
            }
        },
        Inst::TrapIf { cond, .. } => {
            collect_cond(cond, collector);
        },
        Inst::GetSpecial { dst, .. } => {
            // The source is a special register that never participates in
            // allocation; only the destination is reported.
            collector.reg_def(Writable::from_reg(dst.to_reg().to_reg()));
            proof {
                assert(collector.reports() =~= base + inst_operands(*inst));
            }
        },
        Inst::LoadExtName { dst, .. } => {
            collector.reg_def(Writable::from_reg(dst.to_reg().to_reg()));
            proof {
                assert(collector.reports() =~= base + inst_operands(*inst));
            }
        },
        Inst::Call { info } => {
            // The leading integer arguments of a direct call may sit in any
            // register, so they are plain uses.
            let args = &info.dest.args;
            let n = args.len();
            let mut i: usize = 0;
            while i < n
                invariant
                    i <= n,
                    n == args@.len(),
                    collector.reports() == base + pulley_call_args(args@.take(i as int)),
                decreases n - i,
            {
                let x = args[i];
                collector.reg_use(x.to_reg());
                proof {
                    assert(pulley_call_args(args@.take(i + 1 as int)) =~= pulley_call_args(
                        args@.take(i as int),
                    ).push(Operand::Use { reg: x.reg }));
                    assert(collector.reports() =~= base + pulley_call_args(
                        args@.take(i + 1 as int),
                    ));
                }
                i = i + 1;
            }
            proof {
                assert(args@.take(n as int) =~= args@);
            }
            collect_call_info_tail(&info.uses, &info.defs, info.clobbers, &info.try_call_info, collector);
            proof {
                assert(collector.reports() =~= base + inst_operands(*inst));
            }
        },
        Inst::IndirectCall { info } => {
            collector.reg_use(info.dest.to_reg());
            collect_call_info_tail(&info.uses, &info.defs, info.clobbers, &info.try_call_info, collector);
            proof {
                assert(collector.reports() =~= base + inst_operands(*inst));
            }
        },
        Inst::IndirectCallHost { info } => {
            collect_call_info_tail(&info.uses, &info.defs, info.clobbers, &info.try_call_info, collector);
            proof {
                assert(collector.reports() =~= base + inst_operands(*inst));
            }
        },
        Inst::ReturnCall { info } => {
            collect_call_arg_uses(&info.uses, collector);
        },
        Inst::ReturnIndirectCall { info } => {
            // The callee address is pinned to the designated caller-saved
            // non-argument register: a callee-saved register would be
            // clobbered by the register restores just before the jump.
            collector.reg_fixed_use(info.dest.to_reg(), crate::regs::x15());
            collect_call_arg_uses(&info.uses, collector);
            proof {
                assert(collector.reports() =~= base + inst_operands(*inst));
            }
        },
        Inst::Jump { .. } => {
            proof {
                assert(collector.reports() =~= base + inst_operands(*inst));
            }
        },
        Inst::BrIf { cond, .. } => {
            collect_cond(cond, collector);
        },
        Inst::BrTable { idx, .. } => {
            collector.reg_use(idx.to_reg());
            proof {
                assert(collector.reports() =~= base + inst_operands(*inst));
            }
        },
        Inst::LoadAddr { dst, mem } => {
            collector.reg_def(Writable::from_reg(dst.to_reg().to_reg()));
            collect_amode(mem, collector);
            proof {
                assert(collector.reports() =~= base + inst_operands(*inst));
            }
        },
        Inst::XLoad { dst, mem, .. } => {
            collector.reg_def(Writable::from_reg(dst.to_reg().to_reg()));
            collect_amode(mem, collector);
            proof {
                assert(collector.reports() =~= base + inst_operands(*inst));
            }
        },
        Inst::XStore { mem, src, .. } => {
            collect_amode(mem, collector);
            collector.reg_use(src.to_reg());
            proof {
                assert(collector.reports() =~= base + inst_operands(*inst));
            }
        },
        Inst::FLoad { dst, mem, .. } => {
            collector.reg_def(Writable::from_reg(dst.to_reg().to_reg()));
            collect_amode(mem, collector);
            proof {
                assert(collector.reports() =~= base + inst_operands(*inst));
            }
        },
        Inst::FStore { mem, src, .. } => {
            collect_amode(mem, collector);
            collector.reg_use(src.to_reg());
            proof {
                assert(collector.reports() =~= base + inst_operands(*inst));
            }
        },
        Inst::VLoad { dst, mem, .. } => {
            collector.reg_def(Writable::from_reg(dst.to_reg().to_reg()));
            collect_amode(mem, collector);
            proof {
                assert(collector.reports() =~= base + inst_operands(*inst));
            }
        },
        Inst::VStore { mem, src, .. } => {
            collect_amode(mem, collector);
            collector.reg_use(src.to_reg());
            proof {
                assert(collector.reports() =~= base + inst_operands(*inst));
            }
        },
        Inst::Raw { raw } => {
            crate::raw::raw_get_operands(raw, collector);
        },
        Inst::EmitIsland { .. } => {
            proof {
                assert(collector.reports() =~= base + inst_operands(*inst));
            }
        },
    }
}

/// Return-call register pinning: operand collection for a tail call through
/// a register reports that register as a use fixed to the designated
/// caller-saved non-argument physical register, first, and never as a plain
/// allocator-chosen use.
pub proof fn lemma_return_call_pinning(i: Inst)
    requires
        i is ReturnIndirectCall,
    ensures
        i matches Inst::ReturnIndirectCall { info } ==> inst_operands(i).first() == (
        Operand::FixedUse { vreg: info.dest.reg, preg: return_call_dest_reg() }),
        i matches Inst::ReturnIndirectCall { info } ==> forall|j: int|
            0 <= j < inst_operands(i).len() ==> inst_operands(i)[j] != (Operand::Use {
                reg: info.dest.reg,
            }),
{
    match i {
        Inst::ReturnIndirectCall { info } => {
            let ops = inst_operands(i);
            assert(ops == seq![
                Operand::FixedUse { vreg: info.dest.reg, preg: return_call_dest_reg() },
            ] + call_arg_uses(info.uses@));
            assert forall|j: int| 0 <= j < ops.len() implies ops[j] != (Operand::Use {
                reg: info.dest.reg,
            }) by {
                if j >= 1 {
                    assert(ops[j] == call_arg_uses(info.uses@)[j - 1]);
                    assert(call_arg_uses(info.uses@)[j - 1] is FixedUse);
                }
            }
        },
        _ => {},
    }
}

} // verus!
