//! Tests for the pretty-printer and the register/number renderings.

use pulley_inst::inst::{Amode, Cond, Inst, MemFlags, TryCallHandler, TryCallInfo};
use pulley_inst::labels::MachLabel;
use pulley_inst::print::{pretty_print_try_call, reg_name, u64_to_string};
use pulley_inst::regs::{fp_reg, link_reg, stack_reg, Reg, RegClass, Writable, XReg};
use pulley_inst::types::{LaneType, Type};

#[test]
fn numbers_render_in_decimal() {
    assert_eq!(u64_to_string(0), "0");
    assert_eq!(u64_to_string(9), "9");
    assert_eq!(u64_to_string(10), "10");
    assert_eq!(u64_to_string(12345), "12345");
    assert_eq!(u64_to_string(u64::MAX), "18446744073709551615");
}

#[test]
fn special_registers_render_by_role() {
    assert_eq!(reg_name(stack_reg()), "sp");
    assert_eq!(reg_name(link_reg()), "lr");
    assert_eq!(reg_name(fp_reg()), "fp");
    assert_eq!(reg_name(Reg::Real { class: RegClass::Int, enc: 60 }), "tmp0");
    assert_eq!(reg_name(Reg::Real { class: RegClass::Int, enc: 59 }), "tmp1");
}

#[test]
fn ordinary_registers_render_by_class() {
    assert_eq!(reg_name(Reg::Real { class: RegClass::Int, enc: 5 }), "x5");
    assert_eq!(reg_name(Reg::Real { class: RegClass::Float, enc: 3 }), "f3");
    assert_eq!(reg_name(Reg::Real { class: RegClass::Vector, enc: 9 }), "v9");
    assert_eq!(reg_name(Reg::Virtual { class: RegClass::Int, index: 12 }), "%x12");
    assert_eq!(reg_name(Reg::Virtual { class: RegClass::Float, index: 0 }), "%f0");
}

fn xreg(enc: u8) -> XReg {
    XReg { reg: Reg::Real { class: RegClass::Int, enc } }
}

#[test]
fn instructions_render_one_line() {
    assert_eq!(Inst::Nop.print_with_state(), "nop");
    assert_eq!(
        Inst::Jump { label: MachLabel { index: 3 } }.print_with_state(),
        "jump label3"
    );
    assert_eq!(
        Inst::DummyUse { reg: Reg::Real { class: RegClass::Int, enc: 1 } }.print_with_state(),
        "dummy_use x1"
    );
    let br = Inst::BrIf {
        cond: Cond::IfXeq32 { src1: xreg(1), src2: xreg(2) },
        taken: MachLabel { index: 4 },
        not_taken: MachLabel { index: 5 },
    };
    assert_eq!(br.print_with_state(), "br_if_xeq32 x1, x2, label4; jump label5");
    let load = Inst::XLoad {
        dst: Writable { reg: xreg(3) },
        mem: Amode::SpOffset { offset: -8 },
        ty: Type { lane: LaneType::Int32, log2_lanes: 0 },
        flags: MemFlags::new(),
    };
    assert_eq!(load.print_with_state(), "x3 = xload32 sp+-8 // flags =");
    let island = Inst::EmitIsland { space_needed: 32 };
    assert_eq!(island.print_with_state(), "emit_island 32");
}

#[test]
fn try_call_renders_catch_targets() {
    let tci = TryCallInfo {
        continuation: MachLabel { index: 1 },
        handlers: vec![
            TryCallHandler::Tag { tag: 5, label: MachLabel { index: 2 } },
            TryCallHandler::Default { label: MachLabel { index: 3 } },
        ],
    };
    assert_eq!(
        pretty_print_try_call(&tci),
        "; jump label1; catch [tag5: label2, default: label3]"
    );
}
