//! Pretty-printing: a one-line textual rendering of registers and
//! instructions for debug dumps and golden tests. The text is not a stable
//! format and not a machine-readable contract; register names, labels and
//! numbers render exactly as specified, and every instruction renders to a
//! non-empty line.

use vstd::prelude::*;
use vstd::string::StringExecFns;
use crate::inst::{
    Amode, Cond, ExternalName, Inst, MemFlags, RawInst, TryCallHandler, TryCallInfo,
};
use crate::labels::MachLabel;
use crate::regs::{Reg, RegClass, ENC_FP, ENC_LR, ENC_SP, ENC_TMP0, ENC_TMP1};

verus! {

/// The character of a single decimal digit.
pub open spec fn digit_char(d: nat) -> char {
    if d == 0 {
        '0'
    } else if d == 1 {
        '1'
    } else if d == 2 {
        '2'
    } else if d == 3 {
        '3'
    } else if d == 4 {
        '4'
    } else if d == 5 {
        '5'
    } else if d == 6 {
        '6'
    } else if d == 7 {
        '7'
    } else if d == 8 {
        '8'
    } else {
        '9'
    }
}

/// The decimal rendering of a number, most significant digit first.
pub open spec fn dec_digits(n: nat) -> Seq<char>
    decreases n,
{
    if n < 10 {
        seq![digit_char(n)]
    } else {
        dec_digits(n / 10).push(digit_char(n % 10))
    }
}

/// The decimal rendering of a signed number: a leading minus sign when
/// negative.
pub open spec fn signed_digits(n: int) -> Seq<char> {
    if n < 0 {
        seq!['-'] + dec_digits((-n) as nat)
    } else {
        dec_digits(n as nat)
    }
}

/// The class letter of a register name.
pub open spec fn class_char(class: RegClass) -> char {
    match class {
        RegClass::Int => 'x',
        RegClass::Float => 'f',
        RegClass::Vector => 'v',
    }
}

/// The printed name of a register: the special integer registers by their
/// role, other physical registers as a class letter and encoding, virtual
/// registers with a leading percent sign.
pub open spec fn spec_reg_name(reg: Reg) -> Seq<char> {
    match reg {
        Reg::Real { class, enc } => {
            if class == RegClass::Int && enc == ENC_SP {
                seq!['s', 'p']
            } else if class == RegClass::Int && enc == ENC_LR {
                seq!['l', 'r']
            } else if class == RegClass::Int && enc == ENC_FP {
                seq!['f', 'p']
            } else if class == RegClass::Int && enc == ENC_TMP0 {
                seq!['t', 'm', 'p', '0']
            } else if class == RegClass::Int && enc == ENC_TMP1 {
                seq!['t', 'm', 'p', '1']
            } else {
                seq![class_char(class)] + dec_digits(enc as nat)
            }
        },
        Reg::Virtual { class, index } => seq!['%', class_char(class)] + dec_digits(index as nat),
    }
}

/// The printed name of a label.
pub open spec fn spec_label_name(label: MachLabel) -> Seq<char> {
    seq!['l', 'a', 'b', 'e', 'l'] + dec_digits(label.index as nat)
}

/// Appends one decimal digit.
fn append_digit(s: &mut String, d: u64)
    requires
        d < 10,
    ensures
        final(s)@ == old(s)@ + seq![digit_char(d as nat)],
{
    if d == 0 {
        s.append("0");
        proof {
            reveal_strlit("0");
            assert(s@ =~= old(s)@ + seq![digit_char(d as nat)]);
        }
    } else if d == 1 {
        s.append("1");
        proof {
            reveal_strlit("1");
            assert(s@ =~= old(s)@ + seq![digit_char(d as nat)]);
        }
    } else if d == 2 {
        s.append("2");
        proof {
            reveal_strlit("2");
            assert(s@ =~= old(s)@ + seq![digit_char(d as nat)]);
        }
    } else if d == 3 {
        s.append("3");
        proof {
            reveal_strlit("3");
            assert(s@ =~= old(s)@ + seq![digit_char(d as nat)]);
        }
    } else if d == 4 {
        s.append("4");
        proof {
            reveal_strlit("4");
            assert(s@ =~= old(s)@ + seq![digit_char(d as nat)]);
        }
    } else if d == 5 {
        s.append("5");
        proof {
            reveal_strlit("5");
            assert(s@ =~= old(s)@ + seq![digit_char(d as nat)]);
        }
    } else if d == 6 {
        s.append("6");
        proof {
            reveal_strlit("6");
            assert(s@ =~= old(s)@ + seq![digit_char(d as nat)]);
        }
    } else if d == 7 {
        s.append("7");
        proof {
            reveal_strlit("7");
            assert(s@ =~= old(s)@ + seq![digit_char(d as nat)]);
        }
    } else if d == 8 {
        s.append("8");
        proof {
            reveal_strlit("8");
            assert(s@ =~= old(s)@ + seq![digit_char(d as nat)]);
        }
    } else {
        s.append("9");
        proof {
            reveal_strlit("9");
            assert(s@ =~= old(s)@ + seq![digit_char(d as nat)]);
        }
    }
}

/// Appends the decimal rendering of a number.
fn append_u64(s: &mut String, n: u64)
    ensures
        final(s)@ == old(s)@ + dec_digits(n as nat),
    decreases n,
{
    if n < 10 {
        append_digit(s, n);
    } else {
        append_u64(s, n / 10);
        append_digit(s, n % 10);
        proof {
            assert(s@ =~= old(s)@ + dec_digits(n as nat));
        }
    }
}

/// Appends the decimal rendering of a signed number.
fn append_i64(s: &mut String, n: i64)
    ensures
        final(s)@ == old(s)@ + signed_digits(n as int),
{
    if n >= 0 {
        append_u64(s, n as u64);
    } else {
        s.append("-");
        let magnitude: u64 = ((-(n + 1)) as u64) + 1;
        assert(magnitude == -(n as int));
        append_u64(s, magnitude);
        proof {
            reveal_strlit("-");
            assert(s@ =~= old(s)@ + signed_digits(n as int));
        }
    }
}

/// The decimal rendering of a number, as a string.
pub fn u64_to_string(n: u64) -> (r: String)
    ensures
        r@ == dec_digits(n as nat),
{
    let mut s = String::new();
    append_u64(&mut s, n);
    proof {
        assert(s@ =~= dec_digits(n as nat));
    }
    s
}

/// Appends a register's printed name.
fn append_reg(s: &mut String, reg: Reg)
    ensures
        final(s)@ == old(s)@ + spec_reg_name(reg),
{
    match reg {
        Reg::Real { class, enc } => {
            if class == RegClass::Int && enc == ENC_SP {
                s.append("sp");
                proof {
                    reveal_strlit("sp");
                    assert(s@ =~= old(s)@ + spec_reg_name(reg));
                }
            } else if class == RegClass::Int && enc == ENC_LR {
                s.append("lr");
                proof {
                    reveal_strlit("lr");
                    assert(s@ =~= old(s)@ + spec_reg_name(reg));
                }
            } else if class == RegClass::Int && enc == ENC_FP {
                s.append("fp");
                proof {
                    reveal_strlit("fp");
                    assert(s@ =~= old(s)@ + spec_reg_name(reg));
                }
            } else if class == RegClass::Int && enc == ENC_TMP0 {
                s.append("tmp0");
                proof {
                    reveal_strlit("tmp0");
                    assert(s@ =~= old(s)@ + spec_reg_name(reg));
                }
            } else if class == RegClass::Int && enc == ENC_TMP1 {
                s.append("tmp1");
                proof {
                    reveal_strlit("tmp1");
                    assert(s@ =~= old(s)@ + spec_reg_name(reg));
                }
            } else {
                append_class_char(s, class);
                append_u64(s, enc as u64);
                proof {
                    assert(s@ =~= old(s)@ + spec_reg_name(reg));
                }
            }
        },
        Reg::Virtual { class, index } => {
            s.append("%");
            append_class_char(s, class);
            append_u64(s, index as u64);
            proof {
                reveal_strlit("%");
                assert(s@ =~= old(s)@ + spec_reg_name(reg));
            }
        },
    }
}

/// Appends the class letter of a register name.
fn append_class_char(s: &mut String, class: RegClass)
    ensures
        final(s)@ == old(s)@ + seq![class_char(class)],
{
    match class {
        RegClass::Int => {
            s.append("x");
            proof {
                reveal_strlit("x");
                assert(s@ =~= old(s)@ + seq![class_char(class)]);
            }
        },
        RegClass::Float => {
            s.append("f");
            proof {
                reveal_strlit("f");
                assert(s@ =~= old(s)@ + seq![class_char(class)]);
            }
        },
        RegClass::Vector => {
            s.append("v");
            proof {
                reveal_strlit("v");
                assert(s@ =~= old(s)@ + seq![class_char(class)]);
            }
        },
    }
}

/// The printed name of a register. The special registers print by their
/// role; other physical registers as a class letter and hardware encoding;
/// virtual registers with a leading percent sign.
pub fn reg_name(reg: Reg) -> (r: String)
    ensures
        r@ == spec_reg_name(reg),
{
    let mut s = String::new();
    append_reg(&mut s, reg);
    proof {
        assert(s@ =~= spec_reg_name(reg));
    }
    s
}

/// Appends a label's printed name.
fn append_label(s: &mut String, label: MachLabel)
    ensures
        final(s)@ == old(s)@ + spec_label_name(label),
{
    s.append("label");
    append_u64(s, label.index as u64);
    proof {
        reveal_strlit("label");
        assert(s@ =~= old(s)@ + spec_label_name(label));
    }
}

/// Appends an external symbol's printed name.
fn append_ext_name(s: &mut String, name: ExternalName)
    ensures
        final(s)@.len() > old(s)@.len(),
{
    s.append("u");
    append_u64(s, name.namespace as u64);
    s.append(":");
    append_u64(s, name.index as u64);
    proof {
        reveal_strlit("u");
        reveal_strlit(":");
        lemma_dec_digits_len(name.namespace as nat);
        lemma_dec_digits_len(name.index as nat);
    }
}

/// A decimal rendering is never empty.
proof fn lemma_dec_digits_len(n: nat)
    ensures
        dec_digits(n).len() >= 1,
    decreases n,
{
    if n >= 10 {
        lemma_dec_digits_len(n / 10);
    }
}

/// Appends an addressing mode.
fn append_amode(s: &mut String, mem: &Amode)
    ensures
        final(s)@.len() >= old(s)@.len(),
{
    match mem {
        Amode::SpOffset { offset } => {
            s.append("sp");
            append_offset(s, *offset);
        },
        Amode::RegOffset { base, offset } => {
            append_reg(s, base.to_reg());
            append_offset(s, *offset);
        },
    }
}

/// Appends a byte offset with an explicit sign.
fn append_offset(s: &mut String, offset: i32)
    ensures
        final(s)@.len() >= old(s)@.len(),
{
    s.append("+");
    append_i64(s, offset as i64);
}

/// Appends a branch condition.
fn append_cond(s: &mut String, cond: &Cond)
    ensures
        final(s)@.len() >= old(s)@.len(),
{
    match cond {
        Cond::If32 { reg } => {
            s.append("if32 ");
            append_reg(s, reg.to_reg());
        },
        Cond::IfNot32 { reg } => {
            s.append("if_not32 ");
            append_reg(s, reg.to_reg());
        },
        Cond::IfXeq32 { src1, src2 } => {
            s.append("if_xeq32 ");
            append_reg(s, src1.to_reg());
            s.append(", ");
            append_reg(s, src2.to_reg());
        },
        Cond::IfXneq32 { src1, src2 } => {
            s.append("if_xneq32 ");
            append_reg(s, src1.to_reg());
            s.append(", ");
            append_reg(s, src2.to_reg());
        },
        Cond::IfXslt32 { src1, src2 } => {
            s.append("if_xslt32 ");
            append_reg(s, src1.to_reg());
            s.append(", ");
            append_reg(s, src2.to_reg());
        },
        Cond::IfXult32 { src1, src2 } => {
            s.append("if_xult32 ");
            append_reg(s, src1.to_reg());
            s.append(", ");
            append_reg(s, src2.to_reg());
        },
    }
}

/// Appends the flag annotation of a memory access.
fn append_flags(s: &mut String, flags: MemFlags)
    ensures
        final(s)@.len() >= old(s)@.len(),
{
    s.append(" // flags =");
    if flags.aligned {
        s.append(" aligned");
    }
    if flags.notrap {
        s.append(" notrap");
    }
}

/// The rendering of a try-call continuation: the normal-path jump and the
/// catch targets.
pub fn pretty_print_try_call(info: &TryCallInfo) -> (r: String)
    ensures
        r@.len() > 0,
{
    let mut s = String::from_str("; jump ");
    proof {
        reveal_strlit("; jump ");
    }
    append_label(&mut s, info.continuation);
    s.append("; catch [");
    let n = info.handlers.len();
    let mut i: usize = 0;
    while i < n
        invariant
            i <= n,
            n == info.handlers@.len(),
            s@.len() > 0,
        decreases n - i,
    {
        if i > 0 {
            s.append(", ");
        }
        match &info.handlers[i] {
            TryCallHandler::Tag { tag, label } => {
                s.append("tag");
                append_u64(&mut s, *tag as u64);
                s.append(": ");
                append_label(&mut s, *label);
            },
            TryCallHandler::Default { label } => {
                s.append("default: ");
                append_label(&mut s, *label);
            },
            TryCallHandler::Context { reg } => {
                s.append("context ");
                append_reg(&mut s, *reg);
            },
        }
        i = i + 1;
    }
    s.append("]");
    s
}

/// A register name is never empty.
proof fn lemma_reg_name_len(reg: Reg)
    ensures
        spec_reg_name(reg).len() >= 1,
{
    match reg {
        Reg::Real { class, enc } => {
            lemma_dec_digits_len(enc as nat);
        },
        Reg::Virtual { class, index } => {
            lemma_dec_digits_len(index as nat);
        },
    }
}

impl Inst {
    /// Renders the instruction as one human-readable line, for debug dumps
    /// and golden tests. The text is not a stable format; only register
    /// names, labels and numbers have a pinned rendering, and every
    /// instruction renders to a non-empty line.
    pub fn print_with_state(&self) -> (r: String)
        ensures
            r@.len() > 0,
    {
        proof {
            reveal_strlit("args");
            reveal_strlit("rets");
            reveal_strlit("dummy_use ");
            reveal_strlit("nop");
            reveal_strlit("trap_");
            reveal_strlit("xmov ");
            reveal_strlit("call ");
            reveal_strlit("indirect_call ");
            reveal_strlit("indirect_call_host ");
            reveal_strlit("return_call ");
            reveal_strlit("return_indirect_call ");
            reveal_strlit("jump ");
            reveal_strlit("br_");
            reveal_strlit("br_table ");
            reveal_strlit("emit_island ");
            reveal_strlit("trap");
            reveal_strlit("ret");
        }
        match self {
            Inst::Args { args } => {
                let mut s = String::from_str("args");
                let n = args.len();
                let mut i: usize = 0;
                while i < n
                    invariant
                        i <= n,
                        n == args@.len(),
                        s@.len() > 0,
                    decreases n - i,
                {
                    s.append(" ");
                    append_reg(&mut s, args[i].vreg.reg);
                    s.append("=");
                    append_reg(&mut s, args[i].preg);
                    i = i + 1;
                }
                s
            },
            Inst::Rets { rets } => {
                let mut s = String::from_str("rets");
                let n = rets.len();
                let mut i: usize = 0;
                while i < n
                    invariant
                        i <= n,
                        n == rets@.len(),
                        s@.len() > 0,
                    decreases n - i,
                {
                    s.append(" ");
                    append_reg(&mut s, rets[i].vreg);
                    s.append("=");
                    append_reg(&mut s, rets[i].preg);
                    i = i + 1;
                }
                s
            },
            Inst::DummyUse { reg } => {
                let mut s = String::from_str("dummy_use ");
                append_reg(&mut s, *reg);
                s
            },
            Inst::Nop => String::from_str("nop"),
            Inst::TrapIf { cond, code } => {
                let mut s = String::from_str("trap_");
                append_cond(&mut s, cond);
                s.append(" // code = ");
                append_u64(&mut s, code.code as u64);
                s
            },
            Inst::GetSpecial { dst, reg } => {
                let mut s = String::from_str("xmov ");
                append_reg(&mut s, dst.to_reg().to_reg());
                s.append(", ");
                append_reg(&mut s, *reg);
                s
            },
            Inst::LoadExtName { dst, name, offset } => {
                let mut s = String::new();
                append_reg(&mut s, dst.to_reg().to_reg());
                s.append(" = load_ext_name ");
                append_ext_name(&mut s, *name);
                s.append(", ");
                append_i64(&mut s, *offset);
                proof {
                    reveal_strlit(" = load_ext_name ");
                    lemma_reg_name_len(dst.reg.reg);
                }
                s
            },
            Inst::Call { info } => {
                let mut s = String::from_str("call ");
                append_ext_name(&mut s, info.dest.name);
                s.append("(");
                let n = info.dest.args.len();
                let mut i: usize = 0;
                while i < n
                    invariant
                        i <= n,
                        n == info.dest.args@.len(),
                        s@.len() > 0,
                    decreases n - i,
                {
                    if i > 0 {
                        s.append(", ");
                    }
                    append_reg(&mut s, info.dest.args[i].to_reg());
                    i = i + 1;
                }
                s.append(")");
                match &info.try_call_info {
                    Option::Some(tci) => {
                        let t = pretty_print_try_call(tci);
                        s.append(t.as_str());
                    },
                    Option::None => {},
                }
                s
            },
            Inst::IndirectCall { info } => {
                let mut s = String::from_str("indirect_call ");
                append_reg(&mut s, info.dest.to_reg());
                match &info.try_call_info {
                    Option::Some(tci) => {
                        let t = pretty_print_try_call(tci);
                        s.append(t.as_str());
                    },
                    Option::None => {},
                }
                s
            },
            Inst::IndirectCallHost { info } => {
                let mut s = String::from_str("indirect_call_host ");
                append_ext_name(&mut s, info.dest);
                match &info.try_call_info {
                    Option::Some(tci) => {
                        let t = pretty_print_try_call(tci);
                        s.append(t.as_str());
                    },
                    Option::None => {},
                }
                s
            },
            Inst::ReturnCall { info } => {
                let mut s = String::from_str("return_call ");
                append_ext_name(&mut s, info.dest);
                s
            },
            Inst::ReturnIndirectCall { info } => {
                let mut s = String::from_str("return_indirect_call ");
                append_reg(&mut s, info.dest.to_reg());
                s
            },
            Inst::Jump { label } => {
                let mut s = String::from_str("jump ");
                append_label(&mut s, *label);
                s
            },
            Inst::BrIf { cond, taken, not_taken } => {
                let mut s = String::from_str("br_");
                append_cond(&mut s, cond);
                s.append(", ");
                append_label(&mut s, *taken);
                s.append("; jump ");
                append_label(&mut s, *not_taken);
                s
            },
            Inst::BrTable { idx, default, targets } => {
                let mut s = String::from_str("br_table ");
                append_reg(&mut s, idx.to_reg());
                s.append(" ");
                append_label(&mut s, *default);
                s.append(" [");
                let n = targets.len();
                let mut i: usize = 0;
                while i < n
                    invariant
                        i <= n,
                        n == targets@.len(),
                        s@.len() > 0,
                    decreases n - i,
                {
                    if i > 0 {
                        s.append(", ");
                    }
                    append_label(&mut s, targets[i]);
                    i = i + 1;
                }
                s.append("]");
                s
            },
            Inst::LoadAddr { dst, mem } => {
                let mut s = String::new();
                append_reg(&mut s, dst.to_reg().to_reg());
                s.append(" = load_addr ");
                append_amode(&mut s, mem);
                proof {
                    reveal_strlit(" = load_addr ");
                    lemma_reg_name_len(dst.reg.reg);
                }
                s
            },
            Inst::XLoad { dst, mem, ty, flags } => {
                let mut s = String::new();
                proof {
                    reveal_strlit(" = xload");
                    lemma_reg_name_len(dst.reg.reg);
                }
                append_reg(&mut s, dst.to_reg().to_reg());
                s.append(" = xload");
                append_u64(&mut s, ty.bits_or_zero() as u64);
                s.append(" ");
                append_amode(&mut s, mem);
                append_flags(&mut s, *flags);
                s
            },
            Inst::XStore { mem, src, ty, flags } => {
                let mut s = String::from_str("xstore");
                proof {
                    reveal_strlit("xstore");
                }
                append_u64(&mut s, ty.bits_or_zero() as u64);
                s.append(" ");
                append_amode(&mut s, mem);
                s.append(", ");
                append_reg(&mut s, src.to_reg());
                append_flags(&mut s, *flags);
                s
            },
            Inst::FLoad { dst, mem, ty, flags } => {
                let mut s = String::new();
                proof {
                    reveal_strlit(" = fload");
                    lemma_reg_name_len(dst.reg.reg);
                }
                append_reg(&mut s, dst.to_reg().to_reg());
                s.append(" = fload");
                append_u64(&mut s, ty.bits_or_zero() as u64);
                s.append(" ");
                append_amode(&mut s, mem);
                append_flags(&mut s, *flags);
                s
            },
            Inst::FStore { mem, src, ty, flags } => {
                let mut s = String::from_str("fstore");
                proof {
                    reveal_strlit("fstore");
                }
                append_u64(&mut s, ty.bits_or_zero() as u64);
                s.append(" ");
                append_amode(&mut s, mem);
                s.append(", ");
                append_reg(&mut s, src.to_reg());
                append_flags(&mut s, *flags);
                s
            },
            Inst::VLoad { dst, mem, ty, flags } => {
                let mut s = String::new();
                proof {
                    reveal_strlit(" = vload");
                    lemma_reg_name_len(dst.reg.reg);
                }
                append_reg(&mut s, dst.to_reg().to_reg());
                s.append(" = vload");
                append_u64(&mut s, ty.bits_or_zero() as u64);
                s.append(" ");
                append_amode(&mut s, mem);
                append_flags(&mut s, *flags);
                s
            },
            Inst::VStore { mem, src, ty, flags } => {
                let mut s = String::from_str("vstore");
                proof {
                    reveal_strlit("vstore");
                }
                append_u64(&mut s, ty.bits_or_zero() as u64);
                s.append(" ");
                append_amode(&mut s, mem);
                s.append(", ");
                append_reg(&mut s, src.to_reg());
                append_flags(&mut s, *flags);
                s
            },
            Inst::Raw { raw } => raw_print(raw),
            Inst::EmitIsland { space_needed } => {
                let mut s = String::from_str("emit_island ");
                append_u64(&mut s, *space_needed as u64);
                s
            },
        }
    }
}

/// Renders a generated-table instruction.
fn raw_print(raw: &RawInst) -> (r: String)
    ensures
        r@.len() > 0,
{
    proof {
        reveal_strlit("trap // code = ");
        reveal_strlit("ret");
        reveal_strlit("xmov ");
        reveal_strlit("fmov ");
        reveal_strlit("vmov ");
    }
    match raw {
        RawInst::Trap { code } => {
            let mut s = String::from_str("trap // code = ");
            append_u64(&mut s, code.code as u64);
            s
        },
        RawInst::Ret => String::from_str("ret"),
        RawInst::Xmov { dst, src } => {
            let mut s = String::from_str("xmov ");
            append_reg(&mut s, dst.to_reg().to_reg());
            s.append(", ");
            append_reg(&mut s, src.to_reg());
            s
        },
        RawInst::Fmov { dst, src } => {
            let mut s = String::from_str("fmov ");
            append_reg(&mut s, dst.to_reg().to_reg());
            s.append(", ");
            append_reg(&mut s, src.to_reg());
            s
        },
        RawInst::Vmov { dst, src } => {
            let mut s = String::from_str("vmov ");
            append_reg(&mut s, dst.to_reg().to_reg());
            s.append(", ");
            append_reg(&mut s, src.to_reg());
            s
        },
    }
}

} // verus!
