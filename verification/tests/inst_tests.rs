//! Tests for the trap encoding and the generic load/store constructors.

use pulley_inst::inst::{
    encode_trap, trap_opcode, Amode, Inst, MemFlags, EXTENDED_OP_TAG,
};
use pulley_inst::regs::{FReg, Reg, RegClass, VReg, Writable, XReg};
use pulley_inst::types::{LaneType, Type};

#[test]
fn test_trap_encoding() {
    let mut dst: Vec<u8> = Vec::new();
    encode_trap(&mut dst);
    assert_eq!(dst, trap_opcode());
}

#[test]
fn trap_opcode_bytes() {
    // The extended-operation tag byte followed by the little-endian 16-bit
    // trap code.
    assert_eq!(trap_opcode(), vec![EXTENDED_OP_TAG, 0, 0]);
}

fn xr(index: u32) -> Reg {
    Reg::Virtual { class: RegClass::Int, index }
}

fn fr(index: u32) -> Reg {
    Reg::Virtual { class: RegClass::Float, index }
}

fn vr(index: u32) -> Reg {
    Reg::Virtual { class: RegClass::Vector, index }
}

#[test]
fn gen_load_selects_by_type() {
    let mem = Amode::SpOffset { offset: 8 };
    let flags = MemFlags::new();

    let i64t = Type { lane: LaneType::Int64, log2_lanes: 0 };
    let got = Inst::gen_load(Writable { reg: xr(1) }, mem, i64t, flags);
    let want = Inst::XLoad {
        dst: Writable { reg: XReg { reg: xr(1) } },
        mem,
        ty: i64t,
        flags,
    };
    assert_eq!(got, want);

    let f64t = Type { lane: LaneType::Float64, log2_lanes: 0 };
    let got = Inst::gen_load(Writable { reg: fr(2) }, mem, f64t, flags);
    let want = Inst::FLoad {
        dst: Writable { reg: FReg { reg: fr(2) } },
        mem,
        ty: f64t,
        flags,
    };
    assert_eq!(got, want);

    let i8x16 = Type { lane: LaneType::Int8, log2_lanes: 4 };
    let got = Inst::gen_load(Writable { reg: vr(3) }, mem, i8x16, flags);
    let want = Inst::VLoad {
        dst: Writable { reg: VReg { reg: vr(3) } },
        mem,
        ty: i8x16,
        flags,
    };
    assert_eq!(got, want);
}

#[test]
fn gen_store_selects_by_type() {
    let mem = Amode::SpOffset { offset: -16 };
    let flags = MemFlags::trusted();

    let i16t = Type { lane: LaneType::Int16, log2_lanes: 0 };
    let got = Inst::gen_store(mem, xr(4), i16t, flags);
    let want = Inst::XStore { mem, src: XReg { reg: xr(4) }, ty: i16t, flags };
    assert_eq!(got, want);

    let f32t = Type { lane: LaneType::Float32, log2_lanes: 0 };
    let got = Inst::gen_store(mem, fr(5), f32t, flags);
    let want = Inst::FStore { mem, src: FReg { reg: fr(5) }, ty: f32t, flags };
    assert_eq!(got, want);

    let f32x4 = Type { lane: LaneType::Float32, log2_lanes: 2 };
    let got = Inst::gen_store(mem, vr(6), f32x4, flags);
    let want = Inst::VStore { mem, src: VReg { reg: vr(6) }, ty: f32x4, flags };
    assert_eq!(got, want);
}

#[test]
fn type_sizes() {
    let i8t = Type { lane: LaneType::Int8, log2_lanes: 0 };
    assert_eq!(i8t.bytes(), 1);
    assert_eq!(i8t.bits(), 8);
    assert!(i8t.is_int());
    assert!(!i8t.is_vector());

    let i8x16 = Type { lane: LaneType::Int8, log2_lanes: 4 };
    assert_eq!(i8x16.bytes(), 16);
    assert_eq!(i8x16.bits(), 128);
    assert!(!i8x16.is_int());
    assert!(i8x16.is_vector());

    let i128t = Type { lane: LaneType::Int128, log2_lanes: 0 };
    assert_eq!(i128t.bytes(), 16);
    assert!(i128t.is_int());
}
