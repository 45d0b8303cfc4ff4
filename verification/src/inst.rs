//! The instruction representation: a closed tagged union of instruction
//! forms, the call-information payloads, generic load/store/move
//! constructors, and the per-type register-class mapping used for spills and
//! reloads.

use vstd::prelude::*;
use crate::labels::MachLabel;
use crate::regs::{FReg, PRegSet, Reg, RegClass, VReg, Writable, XReg};
use crate::types::{CodegenError, CodegenResult, LaneType, Type};

verus! {

/// Flags attached to a memory access.
#[derive(Clone, Copy, Debug, PartialEq, Eq, Structural)]
pub struct MemFlags {
    /// The access is known to be aligned.
    pub aligned: bool,
    /// The access is known not to trap.
    pub notrap: bool,
}

impl MemFlags {
    /// Flags making no promise about the access.
    pub fn new() -> (r: MemFlags)
        ensures
            r == (MemFlags { aligned: false, notrap: false }),
    {
        MemFlags { aligned: false, notrap: false }
    }

    /// Flags for an access known to be aligned and non-trapping.
    pub fn trusted() -> (r: MemFlags)
        ensures
            r == (MemFlags { aligned: true, notrap: true }),
    {
        MemFlags { aligned: true, notrap: true }
    }
}

/// An addressing mode: a byte offset from either the stack pointer or a base
/// register.
#[derive(Clone, Copy, Debug, PartialEq, Eq, Structural)]
pub enum Amode {
    /// An offset from the stack pointer.
    SpOffset { offset: i32 },
    /// An offset from a base register.
    RegOffset { base: XReg, offset: i32 },
}

/// A branch condition: a register test or a register-pair comparison.
#[derive(Clone, Copy, Debug, PartialEq, Eq, Structural)]
pub enum Cond {
    /// Branch if the low 32 bits are non-zero.
    If32 { reg: XReg },
    /// Branch if the low 32 bits are zero.
    IfNot32 { reg: XReg },
    /// Branch if the low 32 bits are equal.
    IfXeq32 { src1: XReg, src2: XReg },
    /// Branch if the low 32 bits are unequal.
    IfXneq32 { src1: XReg, src2: XReg },
    /// Branch if signed less-than on the low 32 bits.
    IfXslt32 { src1: XReg, src2: XReg },
    /// Branch if unsigned less-than on the low 32 bits.
    IfXult32 { src1: XReg, src2: XReg },
}

/// The tag describing why a trapping instruction traps.
#[derive(Clone, Copy, Debug, PartialEq, Eq, Structural)]
pub struct TrapCode {
    pub code: u8,
}

/// The name of an external symbol: a namespace and an index within it.
#[derive(Clone, Copy, Debug, PartialEq, Eq, Structural)]
pub struct ExternalName {
    pub namespace: u32,
    pub index: u32,
}

/// An incoming argument binding: at function entry the ABI-mandated physical
/// register holds the value of the virtual register.
#[derive(Clone, Copy, Debug, PartialEq, Eq, Structural)]
pub struct ArgPair {
    pub vreg: Writable<Reg>,
    pub preg: Reg,
}

/// An outgoing return binding: at function exit the virtual register's value
/// must sit in the ABI-mandated physical register.
#[derive(Clone, Copy, Debug, PartialEq, Eq, Structural)]
pub struct RetPair {
    pub vreg: Reg,
    pub preg: Reg,
}

/// A call argument constraint: the virtual register must be placed in the
/// given physical register at the call.
#[derive(Clone, Copy, Debug, PartialEq, Eq, Structural)]
pub struct CallArgPair {
    pub vreg: Reg,
    pub preg: Reg,
}

/// Where a call leaves one return value.
#[derive(Clone, Copy, Debug, PartialEq, Eq, Structural)]
pub enum RetLocation {
    /// In a fixed physical register.
    Reg { preg: Reg },
    /// In a stack slot at the given offset.
    Stack { offset: i64 },
}

/// A call return constraint: the virtual register receives the value from
/// the given location.
#[derive(Clone, Copy, Debug, PartialEq, Eq, Structural)]
pub struct CallRetPair {
    pub vreg: Writable<Reg>,
    pub location: RetLocation,
}

/// One catch target of a try-call continuation.
#[derive(Clone, Copy, Debug, PartialEq, Eq, Structural)]
pub enum TryCallHandler {
    /// Jump to the label when the raised exception carries the tag.
    Tag { tag: u32, label: MachLabel },
    /// Jump to the label whatever the exception.
    Default { label: MachLabel },
    /// A dynamic-context register consulted while matching handlers.
    Context { reg: Reg },
}

/// The continuation attached to a call that can raise an exception the
/// current function must handle: the normal-path label and the ordered catch
/// handlers.
#[derive(Clone, Debug, PartialEq, Eq)]
pub struct TryCallInfo {
    pub continuation: MachLabel,
    pub handlers: Vec<TryCallHandler>,
}

/// The destination of a direct call: the callee symbol plus the leading
/// integer arguments that may travel in any allocator-chosen register.
#[derive(Clone, Debug, PartialEq, Eq)]
pub struct PulleyCall {
    pub name: ExternalName,
    pub args: Vec<XReg>,
}

/// Out-of-line data shared by the ordinary call forms.
#[derive(Clone, Debug, PartialEq, Eq)]
pub struct CallInfo<T> {
    /// Where the call goes.
    pub dest: T,
    /// ABI-fixed argument constraints.
    pub uses: Vec<CallArgPair>,
    /// Return-value constraints.
    pub defs: Vec<CallRetPair>,
    /// Physical registers the callee may destroy.
    pub clobbers: PRegSet,
    /// The try-call continuation, when the call's exceptions are caught here.
    pub try_call_info: Option<TryCallInfo>,
}

/// Out-of-line data for return-calls, kept separate to keep the size of
/// `Inst` down.
#[derive(Clone, Debug, PartialEq, Eq)]
pub struct ReturnCallInfo<T> {
    /// Where this call is going.
    pub dest: T,
    /// The size of the argument area for this return-call, potentially
    /// smaller than that of the caller, but never larger.
    pub new_stack_arg_size: u32,
    /// The in-register arguments and their constraints.
    pub uses: Vec<CallArgPair>,
}

/// An instruction from the separately generated, opcode-table-driven
/// encoder. Only the forms this layer itself creates or inspects are named
/// here; the table defines many more.
#[derive(Clone, Copy, Debug, PartialEq, Eq, Structural)]
pub enum RawInst {
    /// Unconditional trap.
    Trap { code: TrapCode },
    /// Return to the caller.
    Ret,
    /// Integer register move.
    Xmov { dst: Writable<XReg>, src: XReg },
    /// Float register move.
    Fmov { dst: Writable<FReg>, src: FReg },
    /// Vector register move.
    Vmov { dst: Writable<VReg>, src: VReg },
}

/// The instruction representation: a closed tagged union with one arm per
/// hand-written instruction form and an escape arm wrapping the generated
/// opcode table's instructions.
#[derive(Clone, Debug, PartialEq, Eq)]
pub enum Inst {
    /// Declares the incoming fixed-register argument bindings.
    Args { args: Vec<ArgPair> },
    /// Declares the outgoing fixed-register return bindings.
    Rets { rets: Vec<RetPair> },
    /// Keeps a register artificially live.
    DummyUse { reg: Reg },
    /// Does nothing.
    Nop,
    /// Traps when the condition holds.
    TrapIf { cond: Cond, code: TrapCode },
    /// Reads a special (non-allocatable) register into a normal one.
    GetSpecial { dst: Writable<XReg>, reg: Reg },
    /// Materializes the address of an external symbol.
    LoadExtName { dst: Writable<XReg>, name: ExternalName, offset: i64 },
    /// Direct call to a statically known callee.
    Call { info: Box<CallInfo<PulleyCall>> },
    /// Call through a register-held callee address.
    IndirectCall { info: Box<CallInfo<XReg>> },
    /// Call out to a non-bytecode host function.
    IndirectCallHost { info: Box<CallInfo<ExternalName>> },
    /// Tail call to a statically known callee, reusing the caller's frame.
    ReturnCall { info: Box<ReturnCallInfo<ExternalName>> },
    /// Tail call through a register-held callee address.
    ReturnIndirectCall { info: Box<ReturnCallInfo<XReg>> },
    /// Unconditional jump to a label.
    Jump { label: MachLabel },
    /// Conditional branch: a condition, the taken label, the not-taken label.
    BrIf { cond: Cond, taken: MachLabel, not_taken: MachLabel },
    /// Branch table: an index register, a default label, the ordered targets.
    BrTable { idx: XReg, default: MachLabel, targets: Vec<MachLabel> },
    /// Computes an effective address without dereferencing it.
    LoadAddr { dst: Writable<XReg>, mem: Amode },
    /// Integer load, widths up to 64 bits.
    XLoad { dst: Writable<XReg>, mem: Amode, ty: Type, flags: MemFlags },
    /// Integer store.
    XStore { mem: Amode, src: XReg, ty: Type, flags: MemFlags },
    /// Float load.
    FLoad { dst: Writable<FReg>, mem: Amode, ty: Type, flags: MemFlags },
    /// Float store.
    FStore { mem: Amode, src: FReg, ty: Type, flags: MemFlags },
    /// Vector load, 128-bit only.
    VLoad { dst: Writable<VReg>, mem: Amode, ty: Type, flags: MemFlags },
    /// Vector store, 128-bit only.
    VStore { mem: Amode, src: VReg, ty: Type, flags: MemFlags },
    /// An instruction of the generated opcode table.
    Raw { raw: RawInst },
    /// Reserves space for out-of-line pool data.
    EmitIsland { space_needed: u32 },
}

impl Inst {
    /// Preconditions of the generic load constructor: a vector type must be
    /// exactly 128 bits, an integer type at most 64, and the destination's
    /// class must match the type's family. Violations are selection bugs.
    pub open spec fn gen_load_ok(dst: Writable<Reg>, ty: Type) -> bool {
        &&& ty.wf()
        &&& (ty.spec_is_vector() ==> ty.spec_bytes() == 16 && dst.reg.spec_class()
            == RegClass::Vector)
        &&& (ty.spec_is_int() ==> ty.spec_bytes() <= 8 && dst.reg.spec_class() == RegClass::Int)
        &&& (ty.spec_is_float() ==> dst.reg.spec_class() == RegClass::Float)
    }

    /// Generic constructor for a load: selects the typed variant from the
    /// value type (vector, integer, or else float).
    pub fn gen_load(dst: Writable<Reg>, mem: Amode, ty: Type, flags: MemFlags) -> (r: Inst)
        requires
            Inst::gen_load_ok(dst, ty),
        ensures
            ty.spec_is_vector() ==> r == (Inst::VLoad {
                dst: Writable { reg: VReg { reg: dst.reg } },
                mem,
                ty,
                flags,
            }),
            ty.spec_is_int() ==> r == (Inst::XLoad {
                dst: Writable { reg: XReg { reg: dst.reg } },
                mem,
                ty,
                flags,
            }),
            ty.spec_is_float() ==> r == (Inst::FLoad {
                dst: Writable { reg: FReg { reg: dst.reg } },
                mem,
                ty,
                flags,
            }),
    {
        if ty.is_vector() {
            let dst = VReg::new(dst.to_reg()).unwrap();
            Inst::VLoad { dst: Writable::from_reg(dst), mem, ty, flags }
        } else if ty.is_int() {
            let dst = XReg::new(dst.to_reg()).unwrap();
            Inst::XLoad { dst: Writable::from_reg(dst), mem, ty, flags }
        } else {
            let dst = FReg::new(dst.to_reg()).unwrap();
            Inst::FLoad { dst: Writable::from_reg(dst), mem, ty, flags }
        }
    }

    /// Preconditions of the generic store constructor, mirroring the load's.
    pub open spec fn gen_store_ok(from_reg: Reg, ty: Type) -> bool {
        &&& ty.wf()
        &&& (ty.spec_is_vector() ==> ty.spec_bytes() == 16 && from_reg.spec_class()
            == RegClass::Vector)
        &&& (ty.spec_is_int() ==> ty.spec_bytes() <= 8 && from_reg.spec_class() == RegClass::Int)
        &&& (ty.spec_is_float() ==> from_reg.spec_class() == RegClass::Float)
    }

    /// Generic constructor for a store: selects the typed variant from the
    /// value type (vector, integer, or else float).
    pub fn gen_store(mem: Amode, from_reg: Reg, ty: Type, flags: MemFlags) -> (r: Inst)
        requires
            Inst::gen_store_ok(from_reg, ty),
        ensures
            ty.spec_is_vector() ==> r == (Inst::VStore {
                mem,
                src: VReg { reg: from_reg },
                ty,
                flags,
            }),
            ty.spec_is_int() ==> r == (Inst::XStore {
                mem,
                src: XReg { reg: from_reg },
                ty,
                flags,
            }),
            ty.spec_is_float() ==> r == (Inst::FStore {
                mem,
                src: FReg { reg: from_reg },
                ty,
                flags,
            }),
    {
        if ty.is_vector() {
            Inst::VStore { mem, src: VReg::new(from_reg).unwrap(), ty, flags }
        } else if ty.is_int() {
            Inst::XStore { mem, src: XReg::new(from_reg).unwrap(), ty, flags }
        } else {
            Inst::FStore { mem, src: FReg::new(from_reg).unwrap(), ty, flags }
        }
    }
}

/// The opcode-table tag byte that introduces an extended operation.
pub const EXTENDED_OP_TAG: u8 = 0x20;

/// The extended-operation code for an unconditional trap.
pub const TRAP_EXTENDED_CODE: u16 = 0;

/// The fixed byte encoding of a trap: the extended-operation tag byte
/// followed by the little-endian 16-bit trap code.
pub open spec fn trap_opcode_spec() -> Seq<u8> {
    seq![
        EXTENDED_OP_TAG,
        (TRAP_EXTENDED_CODE & 0xff) as u8,
        ((TRAP_EXTENDED_CODE >> 8) & 0xff) as u8,
    ]
}

/// The standalone trap-opcode constant, as bytes.
pub fn trap_opcode() -> (r: Vec<u8>)
    ensures
        r@ == trap_opcode_spec(),
{
    let mut r: Vec<u8> = Vec::new();
    r.push(EXTENDED_OP_TAG);
    r.push((TRAP_EXTENDED_CODE & 0xff) as u8);
    r.push(((TRAP_EXTENDED_CODE >> 8) & 0xff) as u8);
    proof {
        assert(r@ =~= trap_opcode_spec());
    }
    r
}

/// The canonical encoder's trap emission: appends the extended-operation
/// tag byte and the little-endian 16-bit trap code to the sink. Encoding a
/// trap always produces exactly the standalone trap-opcode constant.
pub fn encode_trap(sink: &mut Vec<u8>)
    ensures
        final(sink)@ == old(sink)@ + trap_opcode_spec(),
{
    sink.push(EXTENDED_OP_TAG);
    sink.push((TRAP_EXTENDED_CODE & 0xff) as u8);
    sink.push(((TRAP_EXTENDED_CODE >> 8) & 0xff) as u8);
    proof {
        assert(sink@ =~= old(sink)@ + trap_opcode_spec());
    }
}

} // verus!
