//! The value types this layer can place in registers: scalar integers and
//! floats, and vectors of them, described by a lane type and a power-of-two
//! lane count.

use vstd::prelude::*;

verus! {

/// The type of a single lane.
#[derive(Clone, Copy, Debug, PartialEq, Eq, Structural)]
pub enum LaneType {
    Int8,
    Int16,
    Int32,
    Int64,
    Int128,
    Float16,
    Float32,
    Float64,
    Float128,
}

impl LaneType {
    /// Size of one lane in bytes.
    pub open spec fn spec_bytes(self) -> u32 {
        match self {
            LaneType::Int8 => 1,
            LaneType::Int16 => 2,
            LaneType::Int32 => 4,
            LaneType::Int64 => 8,
            LaneType::Int128 => 16,
            LaneType::Float16 => 2,
            LaneType::Float32 => 4,
            LaneType::Float64 => 8,
            LaneType::Float128 => 16,
        }
    }

    /// Whether the lane is an integer lane.
    pub open spec fn spec_is_int(self) -> bool {
        match self {
            LaneType::Int8 | LaneType::Int16 | LaneType::Int32 | LaneType::Int64
            | LaneType::Int128 => true,
            _ => false,
        }
    }
}

/// A value type: a lane type and a lane count, the count stored as its
/// base-two logarithm. A lane count of one is a scalar; more lanes make a
/// vector.
#[derive(Clone, Copy, Debug, PartialEq, Eq, Structural)]
pub struct Type {
    pub lane: LaneType,
    pub log2_lanes: u8,
}

/// Largest supported base-two logarithm of a lane count.
pub const MAX_LOG2_LANES: u8 = 8;

impl Type {
    /// A type is well formed when its lane count stays in the supported
    /// range.
    pub open spec fn wf(self) -> bool {
        self.log2_lanes <= MAX_LOG2_LANES
    }

    /// The lane count.
    pub open spec fn spec_lanes(self) -> u32 {
        1u32 << (self.log2_lanes as u32)
    }

    /// Total size in bytes.
    pub open spec fn spec_bytes(self) -> int {
        self.lane.spec_bytes() * self.spec_lanes()
    }

    /// Total size in bits.
    pub open spec fn spec_bits(self) -> int {
        self.spec_bytes() * 8
    }

    /// A type with more than one lane is a vector.
    pub open spec fn spec_is_vector(self) -> bool {
        self.log2_lanes > 0
    }

    /// A scalar integer type.
    pub open spec fn spec_is_int(self) -> bool {
        !self.spec_is_vector() && self.lane.spec_is_int()
    }

    /// A scalar floating-point type.
    pub open spec fn spec_is_float(self) -> bool {
        !self.spec_is_vector() && !self.lane.spec_is_int()
    }

    /// A scalar of the given lane type.
    pub fn scalar(lane: LaneType) -> (r: Type)
        ensures
            r == (Type { lane, log2_lanes: 0 }),
            r.wf(),
    {
        Type { lane, log2_lanes: 0 }
    }

    /// A vector of `2^log2_lanes` lanes of the given lane type.
    pub fn vector(lane: LaneType, log2_lanes: u8) -> (r: Type)
        requires
            0 < log2_lanes <= MAX_LOG2_LANES,
        ensures
            r == (Type { lane, log2_lanes }),
            r.wf(),
            r.spec_is_vector(),
    {
        Type { lane, log2_lanes }
    }

    /// The lane count.
    pub fn lanes(&self) -> (r: u32)
        requires
            self.wf(),
        ensures
            r == self.spec_lanes(),
    {
        1u32 << (self.log2_lanes as u32)
    }

    /// Total size in bytes.
    pub fn bytes(&self) -> (r: u32)
        requires
            self.wf(),
        ensures
            r == self.spec_bytes(),
    {
        proof {
            lemma_lanes_bound(self.log2_lanes);
        }
        let lane_bytes: u32 = match self.lane {
            LaneType::Int8 => 1,
            LaneType::Int16 => 2,
            LaneType::Int32 => 4,
            LaneType::Int64 => 8,
            LaneType::Int128 => 16,
            LaneType::Float16 => 2,
            LaneType::Float32 => 4,
            LaneType::Float64 => 8,
            LaneType::Float128 => 16,
        };
        lane_bytes * self.lanes()
    }

    /// Total size in bits.
    pub fn bits(&self) -> (r: u32)
        requires
            self.wf(),
        ensures
            r == self.spec_bits(),
    {
        proof {
            lemma_type_size_bounds(*self);
        }
        self.bytes() * 8
    }

    /// Total size in bits of a well-formed type, and zero otherwise; for
    /// renderings, which may meet any value.
    pub fn bits_or_zero(&self) -> (r: u32)
        ensures
            self.wf() ==> r == self.spec_bits(),
            !self.wf() ==> r == 0,
    {
        if self.log2_lanes <= MAX_LOG2_LANES {
            self.bits()
        } else {
            0
        }
    }

    /// Whether this type is a vector.
    pub fn is_vector(&self) -> (r: bool)
        ensures
            r == self.spec_is_vector(),
    {
        self.log2_lanes > 0
    }

    /// Whether this type is a scalar integer.
    pub fn is_int(&self) -> (r: bool)
        ensures
            r == self.spec_is_int(),
    {
        if self.log2_lanes > 0 {
            false
        } else {
            match self.lane {
                LaneType::Int8 | LaneType::Int16 | LaneType::Int32 | LaneType::Int64
                | LaneType::Int128 => true,
                _ => false,
            }
        }
    }
}

/// A well-formed lane count is at most 256, so total sizes fit comfortably
/// in 32 bits.
proof fn lemma_lanes_bound(log2_lanes: u8)
    requires
        log2_lanes <= MAX_LOG2_LANES,
    ensures
        0 < (1u32 << (log2_lanes as u32)) <= 256,
{
    let l = log2_lanes;
    assert(l <= 8 ==> 0 < (1u32 << (l as u32)) <= 256) by (bit_vector);
}

/// Well-formed lane counts are positive and bounded; exported for callers
/// reasoning about type sizes.
pub proof fn lemma_type_size_bounds(ty: Type)
    requires
        ty.wf(),
    ensures
        0 < ty.spec_lanes() <= 256,
        0 < ty.spec_bytes() <= 4096,
        0 < ty.spec_bits() <= 32768,
{
    lemma_lanes_bound(ty.log2_lanes);
    assert(0 < ty.lane.spec_bytes() <= 16);
    assert(ty.lane.spec_bytes() * ty.spec_lanes() <= 16 * 256) by (nonlinear_arith)
        requires
            0 < ty.lane.spec_bytes() <= 16,
            0 < ty.spec_lanes() <= 256,
    ;
    assert(0 < ty.lane.spec_bytes() * ty.spec_lanes()) by (nonlinear_arith)
        requires
            0 < ty.lane.spec_bytes(),
            0 < ty.spec_lanes(),
    ;
}

/// Whether a mathematical integer is representable as a signed 32-bit value.
pub open spec fn int_fits_i32(x: int) -> bool {
    -0x8000_0000 <= x <= 0x7fff_ffff
}

/// The recoverable error of this layer: a value type this target cannot
/// represent, carrying the offending type.
#[derive(Clone, Copy, Debug, PartialEq, Eq, Structural)]
pub enum CodegenError {
    Unsupported(Type),
}

/// Result type for the fallible operations of this layer.
pub type CodegenResult<T> = Result<T, CodegenError>;

} // verus!
