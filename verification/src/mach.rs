//! The target-width-tagged instruction wrapper and the classifiers consumed
//! by block layout and the register allocator: terminator kind, safepoints,
//! coalescable moves, and the per-type register-class mapping for spills and
//! reloads.

use core::marker::PhantomData;
use vstd::prelude::*;
use crate::inst::{Inst, RawInst};
use crate::labels::MachLabel;
use crate::regs::{FReg, Reg, RegClass, VReg, Writable, XReg};
use crate::types::{CodegenError, CodegenResult, LaneType, Type};

verus! {

/// The control-flow role of an instruction at the end of a block.
#[derive(Clone, Copy, Debug, PartialEq, Eq, Structural)]
pub enum MachTerminator {
    /// Ordinary fall-through to the next instruction.
    Fallthrough,
    /// A branch to one or more labels.
    Branch,
    /// A return to the caller.
    Ret,
    /// A tail call that never returns to this function's own code.
    RetCall,
}

/// Alignment required and preferred for function starts.
#[derive(Clone, Copy, Debug, PartialEq, Eq, Structural)]
pub struct FunctionAlignment {
    pub minimum: u32,
    pub preferred: u32,
}

/// The target width a wrapped instruction is compiled for. The two targets
/// share one instruction set; the width only selects behaviour elsewhere.
pub trait PulleyTargetKind: Sized {
    /// The pointer width of this target, in bits.
    spec fn spec_pointer_width() -> u32;

    /// The pointer width of this target, in bits.
    fn pointer_width() -> (r: u32)
        ensures
            r == Self::spec_pointer_width(),
    ;
}

/// The 32-bit target.
#[derive(Clone, Copy, Debug, PartialEq, Eq, Structural)]
pub struct Pulley32;

/// The 64-bit target.
#[derive(Clone, Copy, Debug, PartialEq, Eq, Structural)]
pub struct Pulley64;

impl PulleyTargetKind for Pulley32 {
    open spec fn spec_pointer_width() -> u32 {
        32
    }

    fn pointer_width() -> (r: u32) {
        32
    }
}

impl PulleyTargetKind for Pulley64 {
    open spec fn spec_pointer_width() -> u32 {
        64
    }

    fn pointer_width() -> (r: u32) {
        64
    }
}

/// An instruction together with a phantom marker for the target width. The
/// marker carries no data; it only selects behaviour implementations.
#[derive(Debug)]
pub struct InstAndKind<P: PulleyTargetKind> {
    pub inst: Inst,
    pub kind: PhantomData<P>,
}

/// The terminator classification of each instruction form. Returns, and the
/// wrapped return opcode, end a block with a return; jumps, conditional
/// branches and branch tables end it with a branch; tail calls end it with a
/// tail return; a call with a try-call continuation is a branch, since its
/// normal and catch continuations are real control-flow edges; everything
/// else falls through.
pub open spec fn spec_terminator(i: Inst) -> MachTerminator {
    match i {
        Inst::Args { .. } => MachTerminator::Fallthrough,
        Inst::Rets { .. } => MachTerminator::Ret,
        Inst::DummyUse { .. } => MachTerminator::Fallthrough,
        Inst::Nop => MachTerminator::Fallthrough,
        Inst::TrapIf { .. } => MachTerminator::Fallthrough,
        Inst::GetSpecial { .. } => MachTerminator::Fallthrough,
        Inst::LoadExtName { .. } => MachTerminator::Fallthrough,
        Inst::Call { info } => if info.try_call_info is Some {
            MachTerminator::Branch
        } else {
            MachTerminator::Fallthrough
        },
        Inst::IndirectCall { info } => if info.try_call_info is Some {
            MachTerminator::Branch
        } else {
            MachTerminator::Fallthrough
        },
        Inst::IndirectCallHost { info } => if info.try_call_info is Some {
            MachTerminator::Branch
        } else {
            MachTerminator::Fallthrough
        },
        Inst::ReturnCall { .. } => MachTerminator::RetCall,
        Inst::ReturnIndirectCall { .. } => MachTerminator::RetCall,
        Inst::Jump { .. } => MachTerminator::Branch,
        Inst::BrIf { .. } => MachTerminator::Branch,
        Inst::BrTable { .. } => MachTerminator::Branch,
        Inst::LoadAddr { .. } => MachTerminator::Fallthrough,
        Inst::XLoad { .. } => MachTerminator::Fallthrough,
        Inst::XStore { .. } => MachTerminator::Fallthrough,
        Inst::FLoad { .. } => MachTerminator::Fallthrough,
        Inst::FStore { .. } => MachTerminator::Fallthrough,
        Inst::VLoad { .. } => MachTerminator::Fallthrough,
        Inst::VStore { .. } => MachTerminator::Fallthrough,
        Inst::Raw { raw } => match raw {
            RawInst::Ret => MachTerminator::Ret,
            RawInst::Trap { .. } => MachTerminator::Fallthrough,
            RawInst::Xmov { .. } => MachTerminator::Fallthrough,
            RawInst::Fmov { .. } => MachTerminator::Fallthrough,
            RawInst::Vmov { .. } => MachTerminator::Fallthrough,
        },
        Inst::EmitIsland { .. } => MachTerminator::Fallthrough,
    }
}

/// Safepoints: instructions where a garbage collector may need an accurate
/// snapshot of live references — traps and the ordinary call forms.
pub open spec fn spec_is_safepoint(i: Inst) -> bool {
    match i {
        Inst::Raw { raw: RawInst::Trap { .. } } => true,
        Inst::Call { .. } => true,
        Inst::IndirectCall { .. } => true,
        Inst::IndirectCallHost { .. } => true,
        _ => false,
    }
}

/// The pure register moves eligible for coalescing: only the integer move
/// form of the generated table.
pub open spec fn spec_is_move(i: Inst) -> Option<(Writable<Reg>, Reg)> {
    match i {
        Inst::Raw { raw: RawInst::Xmov { dst, src } } => Some(
            (Writable { reg: dst.reg.reg }, src.reg),
        ),
        _ => None,
    }
}

/// Types moved by the integer move opcode.
pub open spec fn spec_is_int_move_type(ty: Type) -> bool {
    !ty.spec_is_vector() && (ty.lane == LaneType::Int8 || ty.lane == LaneType::Int16 || ty.lane
        == LaneType::Int32 || ty.lane == LaneType::Int64)
}

/// Types moved by the float move opcode.
pub open spec fn spec_is_float_move_type(ty: Type) -> bool {
    !ty.spec_is_vector() && (ty.lane == LaneType::Float32 || ty.lane == LaneType::Float64)
}

/// The preconditions of the move constructor: the type must have a move
/// opcode and both handles must be of its class. Any other type reaching a
/// move is a bug in instruction selection, fatal upstream.
pub open spec fn gen_move_ok(to_reg: Writable<Reg>, from_reg: Reg, ty: Type) -> bool {
    &&& (spec_is_int_move_type(ty) ==> to_reg.reg.spec_class() == RegClass::Int
        && from_reg.spec_class() == RegClass::Int)
    &&& (spec_is_float_move_type(ty) ==> to_reg.reg.spec_class() == RegClass::Float
        && from_reg.spec_class() == RegClass::Float)
    &&& (ty.spec_is_vector() ==> to_reg.reg.spec_class() == RegClass::Vector
        && from_reg.spec_class() == RegClass::Vector)
    &&& (spec_is_int_move_type(ty) || spec_is_float_move_type(ty) || ty.spec_is_vector())
}

/// Whether the register-class mapping supports a type: every scalar integer
/// up to 128 bits, the 32- and 64-bit floats, and every vector. The
/// remaining scalars (the 16- and 128-bit floats) have no mapping.
pub open spec fn spec_rc_supported(ty: Type) -> bool {
    ||| ty.spec_is_vector()
    ||| spec_is_int_move_type(ty)
    ||| spec_is_float_move_type(ty)
    ||| (!ty.spec_is_vector() && ty.lane == LaneType::Int128)
}

/// The ordered register classes holding a value of the type: one slot of
/// the matching class for most types, and two 64-bit integer slots (low,
/// high) for a 128-bit integer.
pub open spec fn spec_rc_classes(ty: Type) -> Seq<RegClass>
    recommends
        spec_rc_supported(ty),
{
    if ty.spec_is_vector() {
        seq![RegClass::Vector]
    } else if ty.lane == LaneType::Int128 {
        seq![RegClass::Int, RegClass::Int]
    } else if ty.lane.spec_is_int() {
        seq![RegClass::Int]
    } else {
        seq![RegClass::Float]
    }
}

/// The canonical representative types for each slot: the type itself for
/// scalars, two 64-bit integers for a 128-bit integer, and for a vector the
/// smallest tabulated vector shape of the same byte size — preferring shapes
/// with at most 31 lanes, so that the lane count fits the small immediate
/// field of vector setup instructions.
pub open spec fn spec_rc_types(ty: Type) -> Seq<Type>
    recommends
        spec_rc_supported(ty),
        ty.spec_is_vector() ==> ty.spec_bytes() <= 64,
{
    if ty.spec_is_vector() {
        let b = ty.spec_bytes();
        if b == 2 {
            seq![Type { lane: LaneType::Int8, log2_lanes: 1 }]
        } else if b == 4 {
            seq![Type { lane: LaneType::Int8, log2_lanes: 2 }]
        } else if b == 8 {
            seq![Type { lane: LaneType::Int8, log2_lanes: 3 }]
        } else if b == 16 {
            seq![Type { lane: LaneType::Int8, log2_lanes: 4 }]
        } else if b == 32 {
            seq![Type { lane: LaneType::Int16, log2_lanes: 4 }]
        } else {
            seq![Type { lane: LaneType::Int32, log2_lanes: 4 }]
        }
    } else if ty.lane == LaneType::Int128 {
        seq![
            Type { lane: LaneType::Int64, log2_lanes: 0 },
            Type { lane: LaneType::Int64, log2_lanes: 0 },
        ]
    } else {
        seq![ty]
    }
}

/// A well-formed vector of at most 64 bytes has one of the tabulated byte
/// sizes.
pub proof fn lemma_vector_bytes_ladder(ty: Type)
    requires
        ty.wf(),
        ty.spec_is_vector(),
        ty.spec_bytes() <= 64,
    ensures
        ty.spec_bytes() == 2 || ty.spec_bytes() == 4 || ty.spec_bytes() == 8 || ty.spec_bytes()
            == 16 || ty.spec_bytes() == 32 || ty.spec_bytes() == 64,
{
    let k = ty.log2_lanes;
    let lanes = 1u32 << (k as u32);
    assert(1 <= k <= 8 ==> (1u32 << (k as u32)) == 2 || (1u32 << (k as u32)) == 4 || (1u32 << (
    k as u32)) == 8 || (1u32 << (k as u32)) == 16 || (1u32 << (k as u32)) == 32 || (1u32 << (
    k as u32)) == 64 || (1u32 << (k as u32)) == 128 || (1u32 << (k as u32)) == 256)
        by (bit_vector);
    let lb = ty.lane.spec_bytes();
    assert(lb == 1 || lb == 2 || lb == 4 || lb == 8 || lb == 16);
}

impl<P: PulleyTargetKind> InstAndKind<P> {
    /// Wraps a bare instruction for this target width.
    pub fn new(inst: Inst) -> (r: Self)
        ensures
            r.inst == inst,
    {
        InstAndKind { inst, kind: PhantomData }
    }

    /// An instruction keeping the given register artificially live.
    pub fn gen_dummy_use(reg: Reg) -> (r: Self)
        ensures
            r.inst == (Inst::DummyUse { reg }),
    {
        Self::new(Inst::DummyUse { reg })
    }

    /// An unconditional jump to the given label.
    pub fn gen_jump(label: MachLabel) -> (r: Self)
        ensures
            r.inst == (Inst::Jump { label }),
    {
        Self::new(Inst::Jump { label })
    }

    /// The canonical type used to spill and reload one slot of each register
    /// class.
    pub fn canonical_type_for_rc(rc: RegClass) -> (r: Type)
        ensures
            rc == RegClass::Int ==> r == (Type { lane: LaneType::Int64, log2_lanes: 0 }),
            rc == RegClass::Float ==> r == (Type { lane: LaneType::Float64, log2_lanes: 0 }),
            rc == RegClass::Vector ==> r == (Type { lane: LaneType::Int8, log2_lanes: 4 }),
    {
        match rc {
            RegClass::Int => Type::scalar(LaneType::Int64),
            RegClass::Float => Type::scalar(LaneType::Float64),
            RegClass::Vector => Type::vector(LaneType::Int8, 4),
        }
    }

    /// Whether this instruction is a safepoint: a trap or an ordinary call.
    pub fn is_safepoint(&self) -> (r: bool)
        ensures
            r == spec_is_safepoint(self.inst),
    {
        match &self.inst {
            Inst::Raw { raw: RawInst::Trap { .. } } => true,
            Inst::Call { .. } => true,
            Inst::IndirectCall { .. } => true,
            Inst::IndirectCallHost { .. } => true,
            _ => false,
        }
    }

    /// The pure register move this instruction performs, if any: only the
    /// integer move form coalesces.
    pub fn is_move(&self) -> (r: Option<(Writable<Reg>, Reg)>)
        ensures
            r == spec_is_move(self.inst),
    {
        match &self.inst {
            Inst::Raw { raw: RawInst::Xmov { dst, src } } => Some(
                (Writable::from_reg(dst.reg.reg), src.reg),
            ),
            _ => None,
        }
    }

    /// Whether this instruction participates in clobber computation. Only
    /// the argument-binding pseudo-op is excluded: it exists to seed the
    /// allocator and must never appear in the final clobber set.
    pub fn is_included_in_clobbers(&self) -> (r: bool)
        ensures
            r == !(self.inst is Args),
    {
        !self.is_args()
    }

    /// Whether this instruction is an unconditional trap.
    pub fn is_trap(&self) -> (r: bool)
        ensures
            r == (self.inst matches Inst::Raw { raw: RawInst::Trap { .. } }),
    {
        match &self.inst {
            Inst::Raw { raw: RawInst::Trap { .. } } => true,
            _ => false,
        }
    }

    /// Whether this instruction is the argument-binding pseudo-op.
    pub fn is_args(&self) -> (r: bool)
        ensures
            r == (self.inst is Args),
    {
        match &self.inst {
            Inst::Args { .. } => true,
            _ => false,
        }
    }

    /// The terminator classification of this instruction, exhaustive over
    /// every instruction form.
    pub fn is_term(&self) -> (r: MachTerminator)
        ensures
            r == spec_terminator(self.inst),
    {
        match &self.inst {
            Inst::Args { .. } => MachTerminator::Fallthrough,
            Inst::Rets { .. } => MachTerminator::Ret,
            Inst::DummyUse { .. } => MachTerminator::Fallthrough,
            Inst::Nop => MachTerminator::Fallthrough,
            Inst::TrapIf { .. } => MachTerminator::Fallthrough,
            Inst::GetSpecial { .. } => MachTerminator::Fallthrough,
            Inst::LoadExtName { .. } => MachTerminator::Fallthrough,
            Inst::Call { info } => if info.try_call_info.is_some() {
                MachTerminator::Branch
            } else {
                MachTerminator::Fallthrough
            },
            Inst::IndirectCall { info } => if info.try_call_info.is_some() {
                MachTerminator::Branch
            } else {
                MachTerminator::Fallthrough
            },
            Inst::IndirectCallHost { info } => if info.try_call_info.is_some() {
                MachTerminator::Branch
            } else {
                MachTerminator::Fallthrough
            },
            Inst::ReturnCall { .. } => MachTerminator::RetCall,
            Inst::ReturnIndirectCall { .. } => MachTerminator::RetCall,
            Inst::Jump { .. } => MachTerminator::Branch,
            Inst::BrIf { .. } => MachTerminator::Branch,
            Inst::BrTable { .. } => MachTerminator::Branch,
            Inst::LoadAddr { .. } => MachTerminator::Fallthrough,
            Inst::XLoad { .. } => MachTerminator::Fallthrough,
            Inst::XStore { .. } => MachTerminator::Fallthrough,
            Inst::FLoad { .. } => MachTerminator::Fallthrough,
            Inst::FStore { .. } => MachTerminator::Fallthrough,
            Inst::VLoad { .. } => MachTerminator::Fallthrough,
            Inst::VStore { .. } => MachTerminator::Fallthrough,
            Inst::Raw { raw } => match raw {
                RawInst::Ret => MachTerminator::Ret,
                RawInst::Trap { .. } => MachTerminator::Fallthrough,
                RawInst::Xmov { .. } => MachTerminator::Fallthrough,
                RawInst::Fmov { .. } => MachTerminator::Fallthrough,
                RawInst::Vmov { .. } => MachTerminator::Fallthrough,
            },
            Inst::EmitIsland { .. } => MachTerminator::Fallthrough,
        }
    }

    /// Type-directed move constructor: selects the integer, float or vector
    /// move opcode of the generated table.
    pub fn gen_move(to_reg: Writable<Reg>, from_reg: Reg, ty: Type) -> (r: Self)
        requires
            gen_move_ok(to_reg, from_reg, ty),
        ensures
            spec_is_int_move_type(ty) ==> r.inst == (Inst::Raw {
                raw: RawInst::Xmov {
                    dst: Writable { reg: XReg { reg: to_reg.reg } },
                    src: XReg { reg: from_reg },
                },
            }),
            spec_is_float_move_type(ty) ==> r.inst == (Inst::Raw {
                raw: RawInst::Fmov {
                    dst: Writable { reg: FReg { reg: to_reg.reg } },
                    src: FReg { reg: from_reg },
                },
            }),
            ty.spec_is_vector() ==> r.inst == (Inst::Raw {
                raw: RawInst::Vmov {
                    dst: Writable { reg: VReg { reg: to_reg.reg } },
                    src: VReg { reg: from_reg },
                },
            }),
    {
        if ty.is_vector() {
            let dst = VReg::new(to_reg.to_reg()).unwrap();
            let src = VReg::new(from_reg).unwrap();
            Self::new(Inst::Raw { raw: RawInst::Vmov { dst: Writable::from_reg(dst), src } })
        } else {
            match ty.lane {
                LaneType::Int8 | LaneType::Int16 | LaneType::Int32 | LaneType::Int64 => {
                    let dst = XReg::new(to_reg.to_reg()).unwrap();
                    let src = XReg::new(from_reg).unwrap();
                    Self::new(
                        Inst::Raw { raw: RawInst::Xmov { dst: Writable::from_reg(dst), src } },
                    )
                },
                _ => {
                    let dst = FReg::new(to_reg.to_reg()).unwrap();
                    let src = FReg::new(from_reg).unwrap();
                    Self::new(
                        Inst::Raw { raw: RawInst::Fmov { dst: Writable::from_reg(dst), src } },
                    )
                },
            }
        }
    }

    /// The register classes and canonical representative types needed to
    /// hold a value of the given type, for spills and reloads. Returns the
    /// unsupported-type error, carrying the type, exactly for the scalars
    /// that have no mapping.
    pub fn rc_for_type(ty: Type) -> (r: CodegenResult<(Vec<RegClass>, Vec<Type>)>)
        requires
            ty.wf(),
            ty.spec_is_vector() ==> ty.spec_bytes() <= 64,
        ensures
            r is Ok <==> spec_rc_supported(ty),
            r matches Ok(p) ==> p.0@ == spec_rc_classes(ty) && p.1@ == spec_rc_types(ty),
            r is Err ==> r == CodegenResult::<(Vec<RegClass>, Vec<Type>)>::Err(
                CodegenError::Unsupported(ty),
            ),
    {
        if ty.is_vector() {
            proof {
                lemma_vector_bytes_ladder(ty);
            }
            let b = ty.bytes();
            let rep: Type = if b == 2 {
                Type::vector(LaneType::Int8, 1)
            } else if b == 4 {
                Type::vector(LaneType::Int8, 2)
            } else if b == 8 {
                Type::vector(LaneType::Int8, 3)
            } else if b == 16 {
                Type::vector(LaneType::Int8, 4)
            } else if b == 32 {
                Type::vector(LaneType::Int16, 4)
            } else {
                Type::vector(LaneType::Int32, 4)
            };
            let classes: Vec<RegClass> = vec![RegClass::Vector];
            let tys: Vec<Type> = vec![rep];
            proof {
                assert(classes@ =~= spec_rc_classes(ty));
                assert(tys@ =~= spec_rc_types(ty));
            }
            Ok((classes, tys))
        } else {
            match ty.lane {
                LaneType::Int8 | LaneType::Int16 | LaneType::Int32 | LaneType::Int64 => {
                    let classes: Vec<RegClass> = vec![RegClass::Int];
                    let tys: Vec<Type> = vec![ty];
                    proof {
                        assert(classes@ =~= spec_rc_classes(ty));
                        assert(tys@ =~= spec_rc_types(ty));
                    }
                    Ok((classes, tys))
                },
                LaneType::Float32 | LaneType::Float64 => {
                    let classes: Vec<RegClass> = vec![RegClass::Float];
                    let tys: Vec<Type> = vec![ty];
                    proof {
                        assert(classes@ =~= spec_rc_classes(ty));
                        assert(tys@ =~= spec_rc_types(ty));
                    }
                    Ok((classes, tys))
                },
                LaneType::Int128 => {
                    let classes: Vec<RegClass> = vec![RegClass::Int, RegClass::Int];
                    let tys: Vec<Type> = vec![
                        Type::scalar(LaneType::Int64),
                        Type::scalar(LaneType::Int64),
                    ];
                    proof {
                        assert(classes@ =~= spec_rc_classes(ty));
                        assert(tys@ =~= spec_rc_types(ty));
                    }
                    Ok((classes, tys))
                },
                LaneType::Float16 | LaneType::Float128 => Err(CodegenError::Unsupported(ty)),
            }
        }
    }

    /// Reports every register operand of the wrapped instruction to the
    /// visitor, in the authoritative order of `inst_operands`.
    pub fn get_operands<V: crate::operands::OperandVisitor>(&self, collector: &mut V)
        requires
            self.inst matches Inst::GetSpecial { reg, .. } ==> reg.spec_is_special(),
        ensures
            final(collector).reports() == old(collector).reports()
                + crate::operands::inst_operands(self.inst),
    {
        crate::operands::pulley_get_operands(&self.inst, collector)
    }

    /// The worst-case encoded size of one instruction: the vector shuffle
    /// form, a 3-byte opcode, three register bytes and a 16-byte immediate.
    pub fn worst_case_size() -> (r: u32)
        ensures
            r == 22,
    {
        22
    }

    /// The register class holding GC reference values on this target.
    pub fn ref_type_regclass() -> (r: RegClass)
        ensures
            r == RegClass::Int,
    {
        RegClass::Int
    }

    /// Function alignment: this ISA has no instruction-alignment
    /// requirement.
    pub fn function_alignment() -> (r: FunctionAlignment)
        ensures
            r == (FunctionAlignment { minimum: 1, preferred: 1 }),
    {
        FunctionAlignment { minimum: 1, preferred: 1 }
    }
}

impl From<RawInst> for Inst {
    /// Wraps a generated-table instruction in the escape arm.
    fn from(raw: RawInst) -> (r: Inst) {
        Inst::Raw { raw }
    }
}

impl vstd::std_specs::convert::FromSpecImpl<RawInst> for Inst {
    open spec fn obeys_from_spec() -> bool {
        true
    }

    open spec fn from_spec(raw: RawInst) -> Inst {
        Inst::Raw { raw }
    }
}

impl<P: PulleyTargetKind> From<Inst> for InstAndKind<P> {
    /// Tags a bare instruction with the target width.
    fn from(inst: Inst) -> (r: Self) {
        InstAndKind { inst, kind: PhantomData }
    }
}

impl<P: PulleyTargetKind> vstd::std_specs::convert::FromSpecImpl<Inst> for InstAndKind<P> {
    open spec fn obeys_from_spec() -> bool {
        true
    }

    open spec fn from_spec(inst: Inst) -> InstAndKind<P> {
        InstAndKind { inst, kind: PhantomData }
    }
}

impl<P: PulleyTargetKind> From<InstAndKind<P>> for Inst {
    /// Unwraps the bare instruction.
    fn from(wrapped: InstAndKind<P>) -> (r: Inst) {
        wrapped.inst
    }
}

impl<P: PulleyTargetKind> vstd::std_specs::convert::FromSpecImpl<InstAndKind<P>> for Inst {
    open spec fn obeys_from_spec() -> bool {
        true
    }

    open spec fn from_spec(wrapped: InstAndKind<P>) -> Inst {
        wrapped.inst
    }
}

impl<P: PulleyTargetKind> From<RawInst> for InstAndKind<P> {
    /// Tags a generated-table instruction with the target width.
    fn from(raw: RawInst) -> (r: Self) {
        InstAndKind { inst: Inst::Raw { raw }, kind: PhantomData }
    }
}

impl<P: PulleyTargetKind> vstd::std_specs::convert::FromSpecImpl<RawInst> for InstAndKind<P> {
    open spec fn obeys_from_spec() -> bool {
        true
    }

    open spec fn from_spec(raw: RawInst) -> InstAndKind<P> {
        InstAndKind { inst: Inst::Raw { raw }, kind: PhantomData }
    }
}

} // verus!
