//! Tests for the operand-collection protocol: every instruction form
//! reports exactly the registers it touches, correctly classified.

use pulley_inst::inst::{
    Amode, ArgPair, CallArgPair, CallInfo, CallRetPair, Cond, ExternalName, Inst, MemFlags,
    PulleyCall, RawInst, RetLocation, RetPair, ReturnCallInfo, TrapCode, TryCallHandler,
    TryCallInfo,
};
use pulley_inst::labels::MachLabel;
use pulley_inst::mach::{InstAndKind, Pulley64};
use pulley_inst::operands::{pulley_get_operands, Operand, OperandCollector};
use pulley_inst::regs::{x15, FReg, PRegSet, Reg, RegClass, VReg, Writable, XReg};
use pulley_inst::types::{LaneType, Type};

fn collect(inst: &Inst) -> Vec<Operand> {
    let mut c = OperandCollector::new();
    pulley_get_operands(inst, &mut c);
    c.operands
}

fn vx(index: u32) -> Reg {
    Reg::Virtual { class: RegClass::Int, index }
}

fn px(enc: u8) -> Reg {
    Reg::Real { class: RegClass::Int, enc }
}

fn xreg(index: u32) -> XReg {
    XReg { reg: vx(index) }
}

fn label(n: u32) -> MachLabel {
    MachLabel { index: n }
}

#[test]
fn return_indirect_call_pins_callee() {
    // The callee address must be a use fixed to x15, never a plain use.
    let dest = xreg(42);
    let inst = Inst::ReturnIndirectCall {
        info: Box::new(ReturnCallInfo { dest, new_stack_arg_size: 0, uses: vec![] }),
    };
    let ops = collect(&inst);
    assert_eq!(ops, vec![Operand::FixedUse { vreg: vx(42), preg: x15() }]);
    for op in &ops {
        assert_ne!(*op, Operand::Use { reg: vx(42) });
    }
}

#[test]
fn args_report_fixed_defs() {
    let inst = Inst::Args {
        args: vec![
            ArgPair { vreg: Writable { reg: vx(1) }, preg: px(0) },
            ArgPair { vreg: Writable { reg: vx(2) }, preg: px(1) },
        ],
    };
    let ops = collect(&inst);
    assert_eq!(
        ops,
        vec![
            Operand::FixedDef { vreg: vx(1), preg: px(0) },
            Operand::FixedDef { vreg: vx(2), preg: px(1) },
        ]
    );
}

#[test]
fn rets_report_fixed_uses() {
    let inst = Inst::Rets {
        rets: vec![RetPair { vreg: vx(3), preg: px(0) }],
    };
    let ops = collect(&inst);
    assert_eq!(ops, vec![Operand::FixedUse { vreg: vx(3), preg: px(0) }]);
}

#[test]
fn get_special_reports_only_the_def() {
    // The special source register never reaches the allocator.
    let sp = pulley_inst::regs::stack_reg();
    let inst = Inst::GetSpecial { dst: Writable { reg: xreg(7) }, reg: sp };
    let ops = collect(&inst);
    assert_eq!(ops, vec![Operand::Def { reg: vx(7) }]);
}

#[test]
fn loads_report_def_then_base() {
    let ty = Type { lane: LaneType::Int32, log2_lanes: 0 };
    let inst = Inst::XLoad {
        dst: Writable { reg: xreg(1) },
        mem: Amode::RegOffset { base: xreg(2), offset: 4 },
        ty,
        flags: MemFlags::new(),
    };
    let ops = collect(&inst);
    assert_eq!(
        ops,
        vec![Operand::Def { reg: vx(1) }, Operand::Use { reg: vx(2) }]
    );
}

#[test]
fn sp_relative_load_reports_no_base() {
    let ty = Type { lane: LaneType::Int32, log2_lanes: 0 };
    let inst = Inst::XLoad {
        dst: Writable { reg: xreg(1) },
        mem: Amode::SpOffset { offset: 4 },
        ty,
        flags: MemFlags::new(),
    };
    let ops = collect(&inst);
    assert_eq!(ops, vec![Operand::Def { reg: vx(1) }]);
}

#[test]
fn stores_report_base_then_source() {
    let ty = Type { lane: LaneType::Int64, log2_lanes: 0 };
    let inst = Inst::XStore {
        mem: Amode::RegOffset { base: xreg(2), offset: 0 },
        src: xreg(9),
        ty,
        flags: MemFlags::new(),
    };
    let ops = collect(&inst);
    assert_eq!(
        ops,
        vec![Operand::Use { reg: vx(2) }, Operand::Use { reg: vx(9) }]
    );
}

#[test]
fn direct_call_reports_everything_in_order() {
    let mut clobbers = PRegSet { int_bits: 0, float_bits: 0, vector_bits: 0 };
    clobbers.insert(RegClass::Int, 15);
    let inst = Inst::Call {
        info: Box::new(CallInfo {
            dest: PulleyCall {
                name: ExternalName { namespace: 0, index: 1 },
                args: vec![xreg(10), xreg(11)],
            },
            uses: vec![CallArgPair { vreg: vx(12), preg: px(2) }],
            defs: vec![
                CallRetPair {
                    vreg: Writable { reg: vx(13) },
                    location: RetLocation::Reg { preg: px(0) },
                },
                CallRetPair {
                    vreg: Writable { reg: vx(14) },
                    location: RetLocation::Stack { offset: 8 },
                },
            ],
            clobbers,
            try_call_info: Some(TryCallInfo {
                continuation: label(1),
                handlers: vec![
                    TryCallHandler::Tag { tag: 5, label: label(2) },
                    TryCallHandler::Context { reg: vx(20) },
                    TryCallHandler::Default { label: label(3) },
                ],
            }),
        }),
    };
    let ops = collect(&inst);
    assert_eq!(
        ops,
        vec![
            Operand::Use { reg: vx(10) },
            Operand::Use { reg: vx(11) },
            Operand::FixedUse { vreg: vx(12), preg: px(2) },
            Operand::FixedDef { vreg: vx(13), preg: px(0) },
            Operand::AnyDef { vreg: vx(14) },
            Operand::Clobbers { set: clobbers },
            Operand::Use { reg: vx(20) },
        ]
    );
}

#[test]
fn indirect_call_reports_callee_first() {
    let clobbers = PRegSet { int_bits: 0, float_bits: 0, vector_bits: 0 };
    let inst = Inst::IndirectCall {
        info: Box::new(CallInfo {
            dest: xreg(5),
            uses: vec![],
            defs: vec![],
            clobbers,
            try_call_info: None,
        }),
    };
    let ops = collect(&inst);
    assert_eq!(
        ops,
        vec![Operand::Use { reg: vx(5) }, Operand::Clobbers { set: clobbers }]
    );
}

#[test]
fn br_if_reports_condition_registers() {
    let inst = Inst::BrIf {
        cond: Cond::IfXslt32 { src1: xreg(1), src2: xreg(2) },
        taken: label(0),
        not_taken: label(1),
    };
    let ops = collect(&inst);
    assert_eq!(
        ops,
        vec![Operand::Use { reg: vx(1) }, Operand::Use { reg: vx(2) }]
    );
}

#[test]
fn br_table_reports_only_the_index() {
    let inst = Inst::BrTable {
        idx: xreg(4),
        default: label(9),
        targets: vec![label(1), label(2)],
    };
    let ops = collect(&inst);
    assert_eq!(ops, vec![Operand::Use { reg: vx(4) }]);
}

fn every_variant() -> Vec<Inst> {
    let ty = Type { lane: LaneType::Int32, log2_lanes: 0 };
    let fty = Type { lane: LaneType::Float64, log2_lanes: 0 };
    let vty = Type { lane: LaneType::Int8, log2_lanes: 4 };
    let mem = Amode::RegOffset { base: xreg(1), offset: 0 };
    let flags = MemFlags::new();
    let clobbers = PRegSet { int_bits: 0, float_bits: 0, vector_bits: 0 };
    let fregv = FReg { reg: Reg::Virtual { class: RegClass::Float, index: 8 } };
    let vregv = VReg { reg: Reg::Virtual { class: RegClass::Vector, index: 9 } };
    vec![
        Inst::Args { args: vec![ArgPair { vreg: Writable { reg: vx(1) }, preg: px(0) }] },
        Inst::Rets { rets: vec![RetPair { vreg: vx(1), preg: px(0) }] },
        Inst::DummyUse { reg: vx(2) },
        Inst::Nop,
        Inst::TrapIf { cond: Cond::If32 { reg: xreg(3) }, code: TrapCode { code: 1 } },
        Inst::GetSpecial { dst: Writable { reg: xreg(4) }, reg: pulley_inst::regs::fp_reg() },
        Inst::LoadExtName {
            dst: Writable { reg: xreg(5) },
            name: ExternalName { namespace: 1, index: 2 },
            offset: -3,
        },
        Inst::Call {
            info: Box::new(CallInfo {
                dest: PulleyCall {
                    name: ExternalName { namespace: 0, index: 0 },
                    args: vec![],
                },
                uses: vec![],
                defs: vec![],
                clobbers,
                try_call_info: None,
            }),
        },
        Inst::IndirectCall {
            info: Box::new(CallInfo {
                dest: xreg(6),
                uses: vec![],
                defs: vec![],
                clobbers,
                try_call_info: None,
            }),
        },
        Inst::IndirectCallHost {
            info: Box::new(CallInfo {
                dest: ExternalName { namespace: 2, index: 0 },
                uses: vec![],
                defs: vec![],
                clobbers,
                try_call_info: None,
            }),
        },
        Inst::ReturnCall {
            info: Box::new(ReturnCallInfo {
                dest: ExternalName { namespace: 0, index: 3 },
                new_stack_arg_size: 0,
                uses: vec![],
            }),
        },
        Inst::ReturnIndirectCall {
            info: Box::new(ReturnCallInfo {
                dest: xreg(7),
                new_stack_arg_size: 16,
                uses: vec![],
            }),
        },
        Inst::Jump { label: label(0) },
        Inst::BrIf {
            cond: Cond::IfXeq32 { src1: xreg(1), src2: xreg(2) },
            taken: label(1),
            not_taken: label(2),
        },
        Inst::BrTable { idx: xreg(3), default: label(4), targets: vec![label(5)] },
        Inst::LoadAddr { dst: Writable { reg: xreg(8) }, mem },
        Inst::XLoad { dst: Writable { reg: xreg(1) }, mem, ty, flags },
        Inst::XStore { mem, src: xreg(2), ty, flags },
        Inst::FLoad { dst: Writable { reg: fregv }, mem, ty: fty, flags },
        Inst::FStore { mem, src: fregv, ty: fty, flags },
        Inst::VLoad { dst: Writable { reg: vregv }, mem, ty: vty, flags },
        Inst::VStore { mem, src: vregv, ty: vty, flags },
        Inst::Raw { raw: RawInst::Trap { code: TrapCode { code: 2 } } },
        Inst::Raw { raw: RawInst::Ret },
        Inst::Raw { raw: RawInst::Xmov { dst: Writable { reg: xreg(1) }, src: xreg(2) } },
        Inst::Raw { raw: RawInst::Fmov { dst: Writable { reg: fregv }, src: fregv } },
        Inst::Raw { raw: RawInst::Vmov { dst: Writable { reg: vregv }, src: vregv } },
        Inst::EmitIsland { space_needed: 32 },
    ]
}

#[test]
fn every_variant_collects_and_classifies() {
    // Exhaustiveness: the operand collector, the terminator classifier and
    // the printer all handle every instruction form.
    for inst in every_variant() {
        let ops = collect(&inst);
        let wrapped: InstAndKind<Pulley64> = InstAndKind::new(inst.clone());
        let _term = wrapped.is_term();
        let _safepoint = wrapped.is_safepoint();
        let text = inst.print_with_state();
        assert!(!text.is_empty());
        // Every reported operand concerns a register or a clobber set.
        drop(ops);
    }
}
