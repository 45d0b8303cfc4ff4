//! Tests for the target-width wrapper: terminator classification, safepoint
//! and move predicates, move selection and the register-class mapping.

use pulley_inst::inst::{
    CallInfo, ExternalName, Inst, PulleyCall, RawInst, TrapCode, TryCallInfo,
};
use pulley_inst::labels::MachLabel;
use pulley_inst::mach::{
    FunctionAlignment, InstAndKind, MachTerminator, Pulley32, Pulley64, PulleyTargetKind,
};
use pulley_inst::regs::{FReg, PRegSet, Reg, RegClass, VReg, Writable, XReg};
use pulley_inst::types::{CodegenError, LaneType, Type};

type I64Inst = InstAndKind<Pulley64>;

fn vx(index: u32) -> Reg {
    Reg::Virtual { class: RegClass::Int, index }
}

fn xreg(index: u32) -> XReg {
    XReg { reg: vx(index) }
}

fn direct_call(try_call_info: Option<TryCallInfo>) -> Inst {
    Inst::Call {
        info: Box::new(CallInfo {
            dest: PulleyCall {
                name: ExternalName { namespace: 0, index: 0 },
                args: vec![],
            },
            uses: vec![],
            defs: vec![],
            clobbers: PRegSet { int_bits: 0, float_bits: 0, vector_bits: 0 },
            try_call_info,
        }),
    }
}

#[test]
fn try_call_classifies_as_branch() {
    // A call whose exceptions are caught here is a real control-flow edge;
    // the same call without a continuation is ordinary fall-through.
    let with = I64Inst::new(direct_call(Some(TryCallInfo {
        continuation: MachLabel { index: 7 },
        handlers: vec![],
    })));
    assert_eq!(with.is_term(), MachTerminator::Branch);

    let without = I64Inst::new(direct_call(None));
    assert_eq!(without.is_term(), MachTerminator::Fallthrough);
}

#[test]
fn terminator_classification() {
    assert_eq!(I64Inst::new(Inst::Jump { label: MachLabel { index: 0 } }).is_term(), MachTerminator::Branch);
    assert_eq!(I64Inst::new(Inst::Raw { raw: RawInst::Ret }).is_term(), MachTerminator::Ret);
    assert_eq!(I64Inst::new(Inst::Rets { rets: vec![] }).is_term(), MachTerminator::Ret);
    assert_eq!(I64Inst::new(Inst::Nop).is_term(), MachTerminator::Fallthrough);
    let tail = Inst::ReturnIndirectCall {
        info: Box::new(pulley_inst::inst::ReturnCallInfo {
            dest: xreg(1),
            new_stack_arg_size: 0,
            uses: vec![],
        }),
    };
    assert_eq!(I64Inst::new(tail).is_term(), MachTerminator::RetCall);
}

#[test]
fn safepoints_are_traps_and_calls() {
    assert!(I64Inst::new(Inst::Raw { raw: RawInst::Trap { code: TrapCode { code: 1 } } })
        .is_safepoint());
    assert!(I64Inst::new(direct_call(None)).is_safepoint());
    assert!(!I64Inst::new(Inst::Nop).is_safepoint());
    assert!(!I64Inst::new(Inst::Jump { label: MachLabel { index: 0 } }).is_safepoint());
}

#[test]
fn move_predicate_sees_only_integer_moves() {
    let xmov = I64Inst::new(Inst::Raw {
        raw: RawInst::Xmov { dst: Writable { reg: xreg(1) }, src: xreg(2) },
    });
    assert_eq!(xmov.is_move(), Some((Writable { reg: vx(1) }, vx(2))));

    let fregv = FReg { reg: Reg::Virtual { class: RegClass::Float, index: 3 } };
    let fmov = I64Inst::new(Inst::Raw {
        raw: RawInst::Fmov { dst: Writable { reg: fregv }, src: fregv },
    });
    assert_eq!(fmov.is_move(), None);
}

#[test]
fn args_pseudo_op_is_excluded_from_clobbers() {
    let args = I64Inst::new(Inst::Args { args: vec![] });
    assert!(args.is_args());
    assert!(!args.is_included_in_clobbers());
    let nop = I64Inst::new(Inst::Nop);
    assert!(!nop.is_args());
    assert!(nop.is_included_in_clobbers());
}

#[test]
fn gen_move_selects_per_class() {
    // 32- and 64-bit integers move with the integer opcode, floats with the
    // float opcode, 128-bit vectors with the vector opcode.
    let i32t = Type { lane: LaneType::Int32, log2_lanes: 0 };
    let i64t = Type { lane: LaneType::Int64, log2_lanes: 0 };
    let got = I64Inst::gen_move(Writable { reg: vx(1) }, vx(2), i32t);
    let want = Inst::Raw {
        raw: RawInst::Xmov { dst: Writable { reg: xreg(1) }, src: xreg(2) },
    };
    assert_eq!(got.inst, want);
    let got = I64Inst::gen_move(Writable { reg: vx(1) }, vx(2), i64t);
    assert_eq!(got.inst, want);

    let fsrc = Reg::Virtual { class: RegClass::Float, index: 4 };
    let fdst = Reg::Virtual { class: RegClass::Float, index: 3 };
    for lane in [LaneType::Float32, LaneType::Float64] {
        let ty = Type { lane, log2_lanes: 0 };
        let got = I64Inst::gen_move(Writable { reg: fdst }, fsrc, ty);
        let want = Inst::Raw {
            raw: RawInst::Fmov {
                dst: Writable { reg: FReg { reg: fdst } },
                src: FReg { reg: fsrc },
            },
        };
        assert_eq!(got.inst, want);
    }

    let vsrc = Reg::Virtual { class: RegClass::Vector, index: 6 };
    let vdst = Reg::Virtual { class: RegClass::Vector, index: 5 };
    let i8x16 = Type { lane: LaneType::Int8, log2_lanes: 4 };
    let got = I64Inst::gen_move(Writable { reg: vdst }, vsrc, i8x16);
    let want = Inst::Raw {
        raw: RawInst::Vmov {
            dst: Writable { reg: VReg { reg: vdst } },
            src: VReg { reg: vsrc },
        },
    };
    assert_eq!(got.inst, want);
}

fn scalar(lane: LaneType) -> Type {
    Type { lane, log2_lanes: 0 }
}

#[test]
fn rc_for_type_covers_every_scalar() {
    for lane in [LaneType::Int8, LaneType::Int16, LaneType::Int32, LaneType::Int64] {
        let ty = scalar(lane);
        let (classes, tys) = I64Inst::rc_for_type(ty).unwrap();
        assert_eq!(classes, vec![RegClass::Int]);
        assert_eq!(tys, vec![ty]);
    }
    for lane in [LaneType::Float32, LaneType::Float64] {
        let ty = scalar(lane);
        let (classes, tys) = I64Inst::rc_for_type(ty).unwrap();
        assert_eq!(classes, vec![RegClass::Float]);
        assert_eq!(tys, vec![ty]);
    }
    // A 128-bit integer splits into two 64-bit integer slots.
    let (classes, tys) = I64Inst::rc_for_type(scalar(LaneType::Int128)).unwrap();
    assert_eq!(classes, vec![RegClass::Int, RegClass::Int]);
    assert_eq!(tys, vec![scalar(LaneType::Int64), scalar(LaneType::Int64)]);
}

#[test]
fn rc_for_type_vector_ladder() {
    // Vector byte sizes 2, 4, 8, 16, 32, 64 map to the tabulated shapes.
    let cases = [
        (Type { lane: LaneType::Int8, log2_lanes: 1 }, Type { lane: LaneType::Int8, log2_lanes: 1 }),
        (Type { lane: LaneType::Int16, log2_lanes: 1 }, Type { lane: LaneType::Int8, log2_lanes: 2 }),
        (Type { lane: LaneType::Int16, log2_lanes: 2 }, Type { lane: LaneType::Int8, log2_lanes: 3 }),
        (Type { lane: LaneType::Float32, log2_lanes: 2 }, Type { lane: LaneType::Int8, log2_lanes: 4 }),
        (Type { lane: LaneType::Int64, log2_lanes: 2 }, Type { lane: LaneType::Int16, log2_lanes: 4 }),
        (Type { lane: LaneType::Int64, log2_lanes: 3 }, Type { lane: LaneType::Int32, log2_lanes: 4 }),
    ];
    for (ty, rep) in cases {
        let (classes, tys) = I64Inst::rc_for_type(ty).unwrap();
        assert_eq!(classes, vec![RegClass::Vector]);
        assert_eq!(tys, vec![rep], "wrong representative for {:?}", ty);
        assert_eq!(tys[0].bytes(), ty.bytes());
        assert!(tys[0].lanes() <= 31);
    }
}

#[test]
fn rc_for_type_rejects_unsupported_scalars() {
    for lane in [LaneType::Float16, LaneType::Float128] {
        let ty = scalar(lane);
        let got = I64Inst::rc_for_type(ty);
        assert_eq!(got, Err(CodegenError::Unsupported(ty)));
    }
}

#[test]
fn canonical_types_per_class() {
    assert_eq!(
        I64Inst::canonical_type_for_rc(RegClass::Int),
        Type { lane: LaneType::Int64, log2_lanes: 0 }
    );
    assert_eq!(
        I64Inst::canonical_type_for_rc(RegClass::Float),
        Type { lane: LaneType::Float64, log2_lanes: 0 }
    );
    assert_eq!(
        I64Inst::canonical_type_for_rc(RegClass::Vector),
        Type { lane: LaneType::Int8, log2_lanes: 4 }
    );
}

#[test]
fn wrapper_constants() {
    assert_eq!(I64Inst::worst_case_size(), 22);
    assert_eq!(I64Inst::ref_type_regclass(), RegClass::Int);
    assert_eq!(
        I64Inst::function_alignment(),
        FunctionAlignment { minimum: 1, preferred: 1 }
    );
    assert_eq!(Pulley32::pointer_width(), 32);
    assert_eq!(Pulley64::pointer_width(), 64);
}

#[test]
fn conversions_between_wrapper_and_inst() {
    let wrapped: InstAndKind<Pulley32> = InstAndKind::from(Inst::Nop);
    assert_eq!(wrapped.inst, Inst::Nop);
    let from_raw: InstAndKind<Pulley64> = InstAndKind::from(RawInst::Ret);
    assert_eq!(from_raw.inst, Inst::Raw { raw: RawInst::Ret });
    let plain: Inst = Inst::from(RawInst::Ret);
    assert_eq!(plain, Inst::Raw { raw: RawInst::Ret });
    let dummy = InstAndKind::<Pulley64>::gen_dummy_use(vx(1));
    assert_eq!(dummy.inst, Inst::DummyUse { reg: vx(1) });
    let jump = InstAndKind::<Pulley64>::gen_jump(MachLabel { index: 3 });
    assert_eq!(jump.inst, Inst::Jump { label: MachLabel { index: 3 } });
}
