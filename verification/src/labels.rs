//! Label references and the final patch pass.
//!
//! A label use records a buffer location that refers to a not-yet-resolved
//! label. Once block layout fixes every label's byte offset, each use is
//! patched: the signed distance from the use to the label is narrowed to 32
//! bits, the use kind's addend is added with wraparound, and the result is
//! written little-endian into the 4-byte patch window.

use vstd::prelude::*;
use crate::types::int_fits_i32;

verus! {

/// A symbolic branch target, resolved to a byte offset once layout is fixed.
#[derive(Clone, Copy, Debug, PartialEq, Eq, Structural)]
pub struct MachLabel {
    pub index: u32,
}

impl MachLabel {
    /// The label with the given index.
    pub fn from_index(index: u32) -> (r: MachLabel)
        ensures
            r.index == index,
    {
        MachLabel { index }
    }
}

/// The relocation kinds an external producer may hand to this layer. Only
/// one of them — a PC-relative 4-byte call reference with a negative addend —
/// can be represented as a label use here.
#[derive(Clone, Copy, Debug, PartialEq, Eq, Structural)]
pub enum Reloc {
    /// Absolute 4-byte reference.
    Abs4,
    /// Absolute 8-byte reference.
    Abs8,
    /// PC-relative 4-byte reference.
    X86PCRel4,
    /// PC-relative 4-byte reference to a call target.
    X86CallPCRel4,
    /// Arm64 call target.
    Arm64Call,
    /// RISC-V call target through a PLT.
    RiscvCallPlt,
}

/// The forms of label reference of this target. Only one exists: a
/// PC-relative 4-byte offset stored little-endian, used by jumps, calls and
/// branch tables. The payload is an addend describing the positive offset
/// from the start of the instruction to the patched location, needed because
/// some references originate from a relocation that points partway into an
/// instruction rather than at its start.
#[derive(Clone, Copy, Debug, PartialEq, Eq, Structural)]
pub enum LabelUse {
    Jump(u32),
}

/// Alignment for branch-shortening filler: this target has no instruction
/// alignment requirement.
pub const LABEL_USE_ALIGN: u32 = 1;

/// The value a patch writes: the signed 32-bit distance from the use to the
/// label, reinterpreted as unsigned, plus the addend with wraparound.
pub open spec fn patched_value(use_offset: u32, label_offset: u32, addend: u32) -> u32
    recommends
        int_fits_i32(label_offset - use_offset),
{
    let rel = label_offset - use_offset;
    let pc_rel: u32 = if rel >= 0 {
        rel as u32
    } else {
        (rel + 0x1_0000_0000) as u32
    };
    vstd::wrapping::u32_specs::wrapping_add(pc_rel, addend)
}

impl LabelUse {
    /// The addend carried by this use kind.
    pub open spec fn spec_addend(self) -> u32 {
        match self {
            LabelUse::Jump(addend) => addend,
        }
    }

    /// Maximum positive PC-relative range, inclusive.
    pub open spec fn spec_max_pos_range(self) -> u32 {
        match self {
            LabelUse::Jump(_) => 0x7fff_ffff,
        }
    }

    /// Maximum negative PC-relative range.
    pub open spec fn spec_max_neg_range(self) -> u32 {
        match self {
            LabelUse::Jump(_) => 0x8000_0000,
        }
    }

    /// Size of the window into the code buffer needed for the patch.
    pub open spec fn spec_patch_size(self) -> u32 {
        match self {
            LabelUse::Jump(_) => 4,
        }
    }

    /// Whether the distance from the use to the label lies within this use
    /// kind's declared range.
    pub open spec fn spec_in_range(self, use_offset: u32, label_offset: u32) -> bool {
        -(self.spec_max_neg_range() as int) <= label_offset - use_offset
            <= self.spec_max_pos_range() as int
    }

    /// Maximum positive PC-relative range, inclusive.
    pub fn max_pos_range(self) -> (r: u32)
        ensures
            r == self.spec_max_pos_range(),
    {
        match self {
            LabelUse::Jump(_) => 0x7fff_ffff,
        }
    }

    /// Maximum negative PC-relative range.
    pub fn max_neg_range(self) -> (r: u32)
        ensures
            r == self.spec_max_neg_range(),
    {
        match self {
            LabelUse::Jump(_) => 0x8000_0000,
        }
    }

    /// Size of the patch window in bytes.
    pub fn patch_size(self) -> (r: u32)
        ensures
            r == self.spec_patch_size(),
    {
        match self {
            LabelUse::Jump(_) => 4,
        }
    }

    /// Checks that the distance from the use to the label lies within this
    /// use kind's declared range. Patching demands it; a distance outside
    /// the range is a layout bug, never silently truncated.
    pub fn in_range(self, use_offset: u32, label_offset: u32) -> (r: bool)
        ensures
            r == self.spec_in_range(use_offset, label_offset),
    {
        let rel: i64 = (label_offset as i64) - (use_offset as i64);
        let neg: i64 = -(self.max_neg_range() as i64);
        let pos: i64 = self.max_pos_range() as i64;
        neg <= rel && rel <= pos
    }

    /// Performs the patch: writes the PC-relative distance plus the addend,
    /// little-endian, into the 4-byte window.
    pub fn patch(self, buffer: &mut Vec<u8>, use_offset: u32, label_offset: u32)
        requires
            old(buffer).len() == self.spec_patch_size(),
            self.spec_in_range(use_offset, label_offset),
        ensures
            final(buffer)@ == vstd::bytes::spec_u32_to_le_bytes(
                patched_value(use_offset, label_offset, self.spec_addend()),
            ),
    {
        let pc_rel: u32 = if label_offset >= use_offset {
            label_offset - use_offset
        } else {
            let distance: u64 = (use_offset - label_offset) as u64;
            (0x1_0000_0000u64 - distance) as u32
        };
        match self {
            LabelUse::Jump(addend) => {
                let value = pc_rel.wrapping_add(addend);
                let bytes = vstd::bytes::u32_to_le_bytes(value);
                buffer[0] = bytes[0];
                buffer[1] = bytes[1];
                buffer[2] = bytes[2];
                buffer[3] = bytes[3];
                proof {
                    assert(buffer@ =~= bytes@);
                }
            },
        }
    }

    /// Whether a veneer is supported for this use kind. It never is: the
    /// PC-relative range already covers the full address space, so veneers
    /// are not required.
    pub fn supports_veneer(self) -> (r: bool)
        ensures
            !r,
    {
        match self {
            LabelUse::Jump(_) => false,
        }
    }

    /// Size of a veneer, were one supported.
    pub fn veneer_size(self) -> (r: u32)
        ensures
            r == 0,
    {
        match self {
            LabelUse::Jump(_) => 0,
        }
    }

    /// Worst-case veneer size over all use kinds.
    pub fn worst_case_veneer_size() -> (r: u32)
        ensures
            r == 0,
    {
        0
    }

    /// Veneer generation. No use kind of this target supports a veneer, so
    /// no veneer is ever produced.
    pub fn generate_veneer(self, _veneer_offset: u32) -> (r: Option<(u32, LabelUse)>)
        ensures
            r is None,
    {
        match self {
            LabelUse::Jump(_) => None,
        }
    }

    /// Converts an externally supplied relocation into a label use. Only a
    /// PC-relative 4-byte call reference with a negative addend has a
    /// representation here: the stored addend is the negation of the
    /// relocation's, compensating for this target's convention of measuring
    /// from the start of the instruction rather than from the relocation
    /// site. Every other relocation kind has no mapping.
    pub fn from_reloc(reloc: Reloc, addend: i64) -> (r: Option<LabelUse>)
        requires
            reloc == Reloc::X86CallPCRel4 && addend < 0 ==> -addend <= 0x7fff_ffff,
        ensures
            reloc == Reloc::X86CallPCRel4 && addend < 0 ==> r == Some(
                LabelUse::Jump((-addend) as u32),
            ),
            !(reloc == Reloc::X86CallPCRel4 && addend < 0) ==> r is None,
    {
        match reloc {
            Reloc::X86CallPCRel4 => {
                if addend < 0 {
                    let neg: i64 = -addend;
                    Some(LabelUse::Jump(neg as u32))
                } else {
                    None
                }
            },
            _ => None,
        }
    }
}

/// Round trip of a patch: reading the patched 4-byte window back as a
/// little-endian 32-bit value yields exactly the signed distance from the
/// use to the label, reinterpreted as unsigned, plus the addend with
/// wraparound — for every in-range use offset, label offset and addend.
pub proof fn lemma_patch_round_trip(lu: LabelUse, use_offset: u32, label_offset: u32)
    requires
        lu.spec_in_range(use_offset, label_offset),
    ensures
        vstd::bytes::spec_u32_from_le_bytes(
            vstd::bytes::spec_u32_to_le_bytes(
                patched_value(use_offset, label_offset, lu.spec_addend()),
            ),
        ) == patched_value(use_offset, label_offset, lu.spec_addend()),
{
    let v = patched_value(use_offset, label_offset, lu.spec_addend());
    vstd::bytes::lemma_auto_spec_u32_to_from_le_bytes();
    assert(vstd::bytes::spec_u32_to_le_bytes(v).len() == 4);
    assert(vstd::bytes::spec_u32_from_le_bytes(vstd::bytes::spec_u32_to_le_bytes(v)) == v);
}

/// The patched value equals the label-to-use distance plus the addend,
/// reduced modulo 2^32.
pub proof fn lemma_patched_value_mod(use_offset: u32, label_offset: u32, addend: u32)
    requires
        int_fits_i32(label_offset - use_offset),
    ensures
        patched_value(use_offset, label_offset, addend) == (label_offset - use_offset + addend) % 0x1_0000_0000,
{
    let rel = label_offset - use_offset;
    let pc_rel: u32 = if rel >= 0 {
        rel as u32
    } else {
        (rel + 0x1_0000_0000) as u32
    };
    let v: int = vstd::wrapping::u32_specs::wrapping_add(pc_rel, addend) as int;
    assert(pc_rel == rel || pc_rel == rel + 0x1_0000_0000);
    assert(v == pc_rel + addend || v == pc_rel + addend - 0x1_0000_0000);
    let total = rel + addend;
    assert(v % 0x1_0000_0000 == total % 0x1_0000_0000) by {
        if v == total {
        } else if v == total + 0x1_0000_0000 {
            lemma_mod_shift(total);
        } else {
            assert(v == total - 0x1_0000_0000);
            lemma_mod_shift(total - 0x1_0000_0000);
        }
    }
    assert(v % 0x1_0000_0000 == v) by {
        vstd::arithmetic::div_mod::lemma_small_mod(v as nat, 0x1_0000_0000nat);
    }
}

/// Adding one full period does not change a value modulo 2^32.
proof fn lemma_mod_shift(x: int)
    ensures
        (x + 0x1_0000_0000) % 0x1_0000_0000 == x % 0x1_0000_0000,
{
    vstd::arithmetic::div_mod::lemma_mod_add_multiples_vanish(x, 0x1_0000_0000);
}

/// Relocation round trip: the one accepted relocation kind with a negative
/// addend becomes a label use whose stored addend is the negation of the
/// relocation's; every other relocation kind has no mapping.
pub proof fn lemma_reloc_round_trip(reloc: Reloc, addend: i64, r: Option<LabelUse>)
    requires
        reloc == Reloc::X86CallPCRel4 && addend < 0 ==> -addend <= 0x7fff_ffff,
        reloc == Reloc::X86CallPCRel4 && addend < 0 ==> r == Some(
            LabelUse::Jump((-addend) as u32),
        ),
        !(reloc == Reloc::X86CallPCRel4 && addend < 0) ==> r is None,
    ensures
        reloc == Reloc::X86CallPCRel4 && addend < 0 ==> (r matches Some(lu) && lu.spec_addend()
            == -addend),
        reloc != Reloc::X86CallPCRel4 ==> r is None,
{
}

} // verus!
