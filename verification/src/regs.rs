//! Register handles: virtual and physical registers partitioned by class,
//! writable wrappers marking definition sites, and the physical-register
//! bitset used for call clobber sets.
//!
//! Special registers (stack pointer, link register, frame pointer and the
//! reserved temporaries) are physical integer registers with the highest
//! hardware encodings; they never participate in register allocation.

use vstd::prelude::*;

verus! {

/// The three register classes of the target.
#[derive(Clone, Copy, Debug, PartialEq, Eq, Structural)]
pub enum RegClass {
    Int,
    Float,
    Vector,
}

/// Number of hardware registers in each class.
pub const NUM_REGS_PER_CLASS: u8 = 64;

/// Hardware encoding of the stack pointer (integer class).
pub const ENC_SP: u8 = 63;
/// Hardware encoding of the link register (integer class).
pub const ENC_LR: u8 = 62;
/// Hardware encoding of the frame pointer (integer class).
pub const ENC_FP: u8 = 61;
/// Hardware encoding of the first reserved temporary (integer class).
pub const ENC_TMP0: u8 = 60;
/// Hardware encoding of the second reserved temporary (integer class).
pub const ENC_TMP1: u8 = 59;

/// A register handle: either a virtual register awaiting allocation or a
/// physical (real) hardware register, in both cases tagged with its class.
#[derive(Clone, Copy, Debug, PartialEq, Eq, Structural)]
pub enum Reg {
    /// A virtual register, to be replaced by the allocator.
    Virtual { class: RegClass, index: u32 },
    /// A physical hardware register with its encoding.
    Real { class: RegClass, enc: u8 },
}

impl Reg {
    /// The class of this register, whether virtual or physical.
    pub open spec fn spec_class(self) -> RegClass {
        match self {
            Reg::Virtual { class, .. } => class,
            Reg::Real { class, .. } => class,
        }
    }

    /// A register handle is well formed when a physical encoding stays below
    /// the hardware register count.
    pub open spec fn wf(self) -> bool {
        match self {
            Reg::Virtual { .. } => true,
            Reg::Real { enc, .. } => enc < NUM_REGS_PER_CLASS,
        }
    }

    /// True of the special physical integer registers (stack pointer, link
    /// register, frame pointer, reserved temporaries), which are never
    /// handed to the allocator.
    pub open spec fn spec_is_special(self) -> bool {
        match self {
            Reg::Real { class, enc } => class == RegClass::Int && enc >= ENC_TMP1,
            Reg::Virtual { .. } => false,
        }
    }

    /// The class of this register.
    pub fn class(&self) -> (r: RegClass)
        ensures
            r == self.spec_class(),
    {
        match self {
            Reg::Virtual { class, .. } => *class,
            Reg::Real { class, .. } => *class,
        }
    }

    /// True of a physical register.
    pub fn is_real(&self) -> (r: bool)
        ensures
            r == (self is Real),
    {
        match self {
            Reg::Real { .. } => true,
            Reg::Virtual { .. } => false,
        }
    }

    /// True of the special (non-allocatable) physical integer registers.
    pub fn is_special(&self) -> (r: bool)
        ensures
            r == self.spec_is_special(),
    {
        match self {
            Reg::Real { class, enc } => *class == RegClass::Int && *enc >= ENC_TMP1,
            Reg::Virtual { .. } => false,
        }
    }
}

/// The designated caller-saved, non-argument integer register that
/// return-calls pin their callee address to. It is the sole caller-saved
/// register outside the argument set, so it cannot collide with any argument
/// register and is dead across the restore-then-jump sequence of a tail call.
pub const RETURN_CALL_DEST_ENC: u8 = 15;

/// The physical integer register `x15`, used to pin return-call destinations.
pub fn x15() -> (r: Reg)
    ensures
        r == (Reg::Real { class: RegClass::Int, enc: RETURN_CALL_DEST_ENC }),
        r.wf(),
        !r.spec_is_special(),
{
    Reg::Real { class: RegClass::Int, enc: RETURN_CALL_DEST_ENC }
}

/// The stack pointer.
pub fn stack_reg() -> (r: Reg)
    ensures
        r == (Reg::Real { class: RegClass::Int, enc: ENC_SP }),
        r.wf(),
        r.spec_is_special(),
{
    Reg::Real { class: RegClass::Int, enc: ENC_SP }
}

/// The link register.
pub fn link_reg() -> (r: Reg)
    ensures
        r == (Reg::Real { class: RegClass::Int, enc: ENC_LR }),
        r.wf(),
        r.spec_is_special(),
{
    Reg::Real { class: RegClass::Int, enc: ENC_LR }
}

/// The frame pointer.
pub fn fp_reg() -> (r: Reg)
    ensures
        r == (Reg::Real { class: RegClass::Int, enc: ENC_FP }),
        r.wf(),
        r.spec_is_special(),
{
    Reg::Real { class: RegClass::Int, enc: ENC_FP }
}

/// An integer-class register handle.
#[derive(Clone, Copy, Debug, PartialEq, Eq, Structural)]
pub struct XReg {
    pub reg: Reg,
}

/// A float-class register handle.
#[derive(Clone, Copy, Debug, PartialEq, Eq, Structural)]
pub struct FReg {
    pub reg: Reg,
}

/// A vector-class register handle.
#[derive(Clone, Copy, Debug, PartialEq, Eq, Structural)]
pub struct VReg {
    pub reg: Reg,
}

impl XReg {
    /// An integer-class handle is well formed when the underlying register
    /// really is of integer class.
    pub open spec fn wf(self) -> bool {
        self.reg.spec_class() == RegClass::Int && self.reg.wf()
    }

    /// Wraps a register of integer class; any other class is refused.
    pub fn new(reg: Reg) -> (r: Option<XReg>)
        ensures
            r is Some <==> reg.spec_class() == RegClass::Int,
            r is Some ==> r->0.reg == reg,
    {
        if reg.class() == RegClass::Int {
            Some(XReg { reg })
        } else {
            None
        }
    }

    /// The underlying register handle.
    pub fn to_reg(&self) -> (r: Reg)
        ensures
            r == self.reg,
    {
        self.reg
    }
}

impl FReg {
    /// A float-class handle is well formed when the underlying register
    /// really is of float class.
    pub open spec fn wf(self) -> bool {
        self.reg.spec_class() == RegClass::Float && self.reg.wf()
    }

    /// Wraps a register of float class; any other class is refused.
    pub fn new(reg: Reg) -> (r: Option<FReg>)
        ensures
            r is Some <==> reg.spec_class() == RegClass::Float,
            r is Some ==> r->0.reg == reg,
    {
        if reg.class() == RegClass::Float {
            Some(FReg { reg })
        } else {
            None
        }
    }

    /// The underlying register handle.
    pub fn to_reg(&self) -> (r: Reg)
        ensures
            r == self.reg,
    {
        self.reg
    }
}

impl VReg {
    /// A vector-class handle is well formed when the underlying register
    /// really is of vector class.
    pub open spec fn wf(self) -> bool {
        self.reg.spec_class() == RegClass::Vector && self.reg.wf()
    }

    /// Wraps a register of vector class; any other class is refused.
    pub fn new(reg: Reg) -> (r: Option<VReg>)
        ensures
            r is Some <==> reg.spec_class() == RegClass::Vector,
            r is Some ==> r->0.reg == reg,
    {
        if reg.class() == RegClass::Vector {
            Some(VReg { reg })
        } else {
            None
        }
    }

    /// The underlying register handle.
    pub fn to_reg(&self) -> (r: Reg)
        ensures
            r == self.reg,
    {
        self.reg
    }
}

/// Marks a register handle as a definition site.
#[derive(Clone, Copy, Debug, PartialEq, Eq, Structural)]
pub struct Writable<T> {
    pub reg: T,
}

impl<T: Copy> Writable<T> {
    /// Wraps a handle as a definition site.
    pub fn from_reg(reg: T) -> (r: Writable<T>)
        ensures
            r.reg == reg,
    {
        Writable { reg }
    }

    /// The wrapped handle.
    pub fn to_reg(&self) -> (r: T)
        ensures
            r == self.reg,
    {
        self.reg
    }
}

/// Setting one bit of a word leaves every other bit as it was.
proof fn lemma_set_bit(w: u64, e0: u8, e: u8)
    requires
        e0 < 64,
        e < 64,
    ensures
        (w | (1u64 << (e0 as u64))) & (1u64 << (e0 as u64)) != 0,
        e != e0 ==> ((w | (1u64 << (e0 as u64))) & (1u64 << (e as u64)) != 0) == (w & (1u64 << (
        e as u64)) != 0),
{
    assert(e0 < 64 ==> (w | (1u64 << (e0 as u64))) & (1u64 << (e0 as u64)) != 0) by (bit_vector);
    assert(e != e0 && e < 64 && e0 < 64 ==> ((w | (1u64 << (e0 as u64))) & (1u64 << (e as u64))
        != 0) == (w & (1u64 << (e as u64)) != 0)) by (bit_vector);
}

/// A set of physical registers, one presence bit per hardware encoding and
/// class. Calls carry one as their clobber set.
#[derive(Clone, Copy, Debug, PartialEq, Eq, Structural)]
pub struct PRegSet {
    pub int_bits: u64,
    pub float_bits: u64,
    pub vector_bits: u64,
}

impl PRegSet {
    /// The bit word of this set covering the given class.
    pub open spec fn spec_bits_for(self, class: RegClass) -> u64 {
        match class {
            RegClass::Int => self.int_bits,
            RegClass::Float => self.float_bits,
            RegClass::Vector => self.vector_bits,
        }
    }

    /// Whether the physical register with the given class and encoding is in
    /// the set.
    pub open spec fn spec_contains(self, class: RegClass, enc: u8) -> bool {
        self.spec_bits_for(class) & (1u64 << (enc as u64)) != 0
    }

    /// The empty set.
    pub fn empty() -> (r: PRegSet)
        ensures
            forall|class: RegClass, enc: u8| enc < 64 ==> !r.spec_contains(class, enc),
    {
        let r = PRegSet { int_bits: 0, float_bits: 0, vector_bits: 0 };
        proof {
            assert forall|class: RegClass, enc: u8| enc < 64 implies !r.spec_contains(
                class,
                enc,
            ) by {
                assert(0u64 & (1u64 << (enc as u64)) == 0) by (bit_vector);
            }
        }
        r
    }

    /// Whether the given physical register is in the set.
    pub fn contains(&self, class: RegClass, enc: u8) -> (r: bool)
        requires
            enc < 64,
        ensures
            r == self.spec_contains(class, enc),
    {
        let bits: u64 = match class {
            RegClass::Int => self.int_bits,
            RegClass::Float => self.float_bits,
            RegClass::Vector => self.vector_bits,
        };
        bits & (1u64 << (enc as u64)) != 0
    }

    /// Adds the given physical register to the set.
    pub fn insert(&mut self, class: RegClass, enc: u8)
        requires
            enc < 64,
        ensures
            final(self).spec_contains(class, enc),
            forall|c: RegClass, e: u8|
                e < 64 && !(c == class && e == enc) ==> final(self).spec_contains(c, e)
                    == old(self).spec_contains(c, e),
    {
        let ghost before = *self;
        let bit: u64 = 1u64 << (enc as u64);
        match class {
            RegClass::Int => {
                self.int_bits = self.int_bits | bit;
            },
            RegClass::Float => {
                self.float_bits = self.float_bits | bit;
            },
            RegClass::Vector => {
                self.vector_bits = self.vector_bits | bit;
            },
        }
        proof {
            assert(self.spec_bits_for(class) == before.spec_bits_for(class) | bit);
            lemma_set_bit(before.spec_bits_for(class), enc, enc);
            assert(self.spec_contains(class, enc));
            assert forall|c: RegClass, e: u8|
                e < 64 && !(c == class && e == enc) implies self.spec_contains(c, e)
                == before.spec_contains(c, e) by {
                if c == class {
                    lemma_set_bit(before.spec_bits_for(c), enc, e);
                }
            }
        }
    }
}

} // verus!
