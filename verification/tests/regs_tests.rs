//! Tests for register handles, class wrappers and the clobber bitset.

use pulley_inst::regs::{
    fp_reg, link_reg, stack_reg, x15, FReg, PRegSet, Reg, RegClass, VReg, XReg,
};

#[test]
fn class_wrappers_check_the_class() {
    let xi = Reg::Virtual { class: RegClass::Int, index: 3 };
    let xf = Reg::Virtual { class: RegClass::Float, index: 3 };
    let xv = Reg::Virtual { class: RegClass::Vector, index: 3 };
    assert_eq!(XReg::new(xi), Some(XReg { reg: xi }));
    assert_eq!(XReg::new(xf), None);
    assert_eq!(FReg::new(xf), Some(FReg { reg: xf }));
    assert_eq!(FReg::new(xv), None);
    assert_eq!(VReg::new(xv), Some(VReg { reg: xv }));
    assert_eq!(VReg::new(xi), None);
}

#[test]
fn special_registers() {
    assert!(stack_reg().is_special());
    assert!(link_reg().is_special());
    assert!(fp_reg().is_special());
    assert!(Reg::Real { class: RegClass::Int, enc: 59 }.is_special());
    assert!(!Reg::Real { class: RegClass::Int, enc: 58 }.is_special());
    // Special encodings are special only in the integer class.
    assert!(!Reg::Real { class: RegClass::Float, enc: 63 }.is_special());
    assert!(!x15().is_special());
    assert!(x15().is_real());
    assert_eq!(x15().class(), RegClass::Int);
    assert!(!Reg::Virtual { class: RegClass::Int, index: 63 }.is_special());
}

#[test]
fn clobber_set_tracks_bits() {
    let mut set = PRegSet::empty();
    assert!(!set.contains(RegClass::Int, 15));
    set.insert(RegClass::Int, 15);
    assert!(set.contains(RegClass::Int, 15));
    assert!(!set.contains(RegClass::Float, 15));
    assert!(!set.contains(RegClass::Int, 14));
    set.insert(RegClass::Float, 0);
    set.insert(RegClass::Vector, 63);
    assert!(set.contains(RegClass::Float, 0));
    assert!(set.contains(RegClass::Vector, 63));
    assert!(set.contains(RegClass::Int, 15));
}
