//! Fixed-point gradient elements of three widths, and the tag that tells the
//! widths apart at run time.

use vstd::prelude::*;
use crate::outside::{
    fixed16_vdaf_accepts,
    fixed32_vdaf_accepts,
    fixed64_vdaf_accepts,
    fixed_point_vdaf_accepted,
};

verus! {

/// Names the width of the fixed-point numbers that a task aggregates.
#[derive(Clone, Copy, Debug, PartialEq, Eq, Structural, Hash)]
pub enum FixedTypeTag {
    FixedType16Bit,
    FixedType32Bit,
    FixedType64Bit,
}

impl FixedTypeTag {
    /// The number of bits of one element: one sign bit, the rest fractional.
    pub open spec fn bits(self) -> nat {
        match self {
            FixedTypeTag::FixedType16Bit => 16,
            FixedTypeTag::FixedType32Bit => 32,
            FixedTypeTag::FixedType64Bit => 64,
        }
    }

    /// The number of bits of one element.
    pub fn bit_size(&self) -> (n: u32)
        ensures
            n == self.bits(),
    {
        match self {
            FixedTypeTag::FixedType16Bit => 16,
            FixedTypeTag::FixedType32Bit => 32,
            FixedTypeTag::FixedType64Bit => 64,
        }
    }

    /// Whether vectors of `entries` elements of the tagged width can be
    /// summed by `num_aggregators` aggregators.
    pub fn vdaf_accepts(&self, num_aggregators: u8, entries: usize) -> (accepted: bool)
        ensures
            accepted == vdaf_available(*self, num_aggregators, entries as nat),
    {
        match self {
            FixedTypeTag::FixedType16Bit => Fixed16::vdaf_accepts(num_aggregators, entries),
            FixedTypeTag::FixedType32Bit => Fixed32::vdaf_accepts(num_aggregators, entries),
            FixedTypeTag::FixedType64Bit => Fixed64::vdaf_accepts(num_aggregators, entries),
        }
    }
}

/// A number in `[-1, 1)` with 15 fractional bits, held as its bit pattern.
#[derive(Clone, Copy, Debug, PartialEq, Eq, Structural, Hash)]
pub struct Fixed16(pub i16);

/// A number in `[-1, 1)` with 31 fractional bits, held as its bit pattern.
#[derive(Clone, Copy, Debug, PartialEq, Eq, Structural, Hash)]
pub struct Fixed32(pub i32);

/// A number in `[-1, 1)` with 63 fractional bits, held as its bit pattern.
#[derive(Clone, Copy, Debug, PartialEq, Eq, Structural, Hash)]
pub struct Fixed64(pub i64);

/// Whether vectors of `entries` elements of the width `tag` can be summed
/// by `num_aggregators` aggregators: the aggregation function must take
/// them, and its own arithmetic on `entries` must stay within `usize`.
pub open spec fn vdaf_available(tag: FixedTypeTag, num_aggregators: u8, entries: nat) -> bool {
    &&& entries <= usize::MAX / 128
    &&& fixed_point_vdaf_accepted(tag.bits(), num_aggregators, entries)
}

/// With two aggregators, vectors of elements of 16 or 32 bits can be
/// summed whatever their length, up to the bound that keeps the arithmetic
/// within `usize`; vectors of elements of 64 bits only if they have no more
/// than three elements.
pub proof fn lemma_vdaf_available(tag: FixedTypeTag, entries: nat)
    ensures
        tag != FixedTypeTag::FixedType64Bit ==> (vdaf_available(tag, 2, entries) <==> entries
            <= usize::MAX / 128),
        tag == FixedTypeTag::FixedType64Bit ==> (vdaf_available(tag, 2, entries) <==> entries
            <= 3),
{
    assert(usize::MAX / 128 <= 0x1ff_ffff_ffff_ffff);
    assert(3 <= usize::MAX / 128);
}

/// An element type that knows its own width tag and its own aggregation
/// function.
pub trait IsTagInstance {
    /// The tag of this element type.
    spec fn tag() -> FixedTypeTag;

    /// The tag of this element type.
    fn get_tag() -> (t: FixedTypeTag)
        ensures
            t == Self::tag(),
    ;

    /// Whether vectors of `entries` elements of this type can be summed by
    /// `num_aggregators` aggregators.
    fn vdaf_accepts(num_aggregators: u8, entries: usize) -> (accepted: bool)
        ensures
            accepted == vdaf_available(Self::tag(), num_aggregators, entries as nat),
    ;
}

impl IsTagInstance for Fixed16 {
    open spec fn tag() -> FixedTypeTag {
        FixedTypeTag::FixedType16Bit
    }

    fn get_tag() -> (t: FixedTypeTag) {
        FixedTypeTag::FixedType16Bit
    }

    fn vdaf_accepts(num_aggregators: u8, entries: usize) -> (accepted: bool) {
        entries <= usize::MAX / 128 && fixed16_vdaf_accepts(num_aggregators, entries)
    }
}

impl IsTagInstance for Fixed32 {
    open spec fn tag() -> FixedTypeTag {
        FixedTypeTag::FixedType32Bit
    }

    fn get_tag() -> (t: FixedTypeTag) {
        FixedTypeTag::FixedType32Bit
    }

    fn vdaf_accepts(num_aggregators: u8, entries: usize) -> (accepted: bool) {
        entries <= usize::MAX / 128 && fixed32_vdaf_accepts(num_aggregators, entries)
    }
}

impl IsTagInstance for Fixed64 {
    open spec fn tag() -> FixedTypeTag {
        FixedTypeTag::FixedType64Bit
    }

    fn get_tag() -> (t: FixedTypeTag) {
        FixedTypeTag::FixedType64Bit
    }

    fn vdaf_accepts(num_aggregators: u8, entries: usize) -> (accepted: bool) {
        entries <= usize::MAX / 128 && fixed64_vdaf_accepts(num_aggregators, entries)
    }
}

/// One fixed-point number of any of the three widths.
#[derive(Clone, Copy, Debug, PartialEq, Eq, Structural)]
pub enum FixedAny {
    Fixed16(Fixed16),
    Fixed32(Fixed32),
    Fixed64(Fixed64),
}

impl FixedAny {
    /// The width tag of the variant.
    pub open spec fn tag(self) -> FixedTypeTag {
        match self {
            FixedAny::Fixed16(_) => FixedTypeTag::FixedType16Bit,
            FixedAny::Fixed32(_) => FixedTypeTag::FixedType32Bit,
            FixedAny::Fixed64(_) => FixedTypeTag::FixedType64Bit,
        }
    }

    /// The width tag of the variant.
    pub fn get_tag(&self) -> (t: FixedTypeTag)
        ensures
            t == self.tag(),
    {
        match self {
            FixedAny::Fixed16(_) => FixedTypeTag::FixedType16Bit,
            FixedAny::Fixed32(_) => FixedTypeTag::FixedType32Bit,
            FixedAny::Fixed64(_) => FixedTypeTag::FixedType64Bit,
        }
    }
}

/// A gradient vector whose element width is known only at run time.
#[derive(Debug)]
pub enum VecFixedAny {
    VecFixed16(Vec<Fixed16>),
    VecFixed32(Vec<Fixed32>),
    VecFixed64(Vec<Fixed64>),
}

/// What a [`VecFixedAny`] holds.
pub enum VecFixedAnyView {
    VecFixed16(Seq<Fixed16>),
    VecFixed32(Seq<Fixed32>),
    VecFixed64(Seq<Fixed64>),
}

impl View for VecFixedAny {
    type V = VecFixedAnyView;

    open spec fn view(&self) -> VecFixedAnyView {
        match self {
            VecFixedAny::VecFixed16(v) => VecFixedAnyView::VecFixed16(v@),
            VecFixedAny::VecFixed32(v) => VecFixedAnyView::VecFixed32(v@),
            VecFixedAny::VecFixed64(v) => VecFixedAnyView::VecFixed64(v@),
        }
    }
}

impl Clone for VecFixedAny {
    fn clone(&self) -> (copy: VecFixedAny)
        ensures
            copy@ == self@,
    {
        match self {
            VecFixedAny::VecFixed16(v) => {
                let copy = v.clone();
                assert(copy@ =~= v@);
                VecFixedAny::VecFixed16(copy)
            },
            VecFixedAny::VecFixed32(v) => {
                let copy = v.clone();
                assert(copy@ =~= v@);
                VecFixedAny::VecFixed32(copy)
            },
            VecFixedAny::VecFixed64(v) => {
                let copy = v.clone();
                assert(copy@ =~= v@);
                VecFixedAny::VecFixed64(copy)
            },
        }
    }
}

impl VecFixedAny {
    /// The width tag of the variant.
    pub open spec fn tag(self) -> FixedTypeTag {
        match self {
            VecFixedAny::VecFixed16(_) => FixedTypeTag::FixedType16Bit,
            VecFixedAny::VecFixed32(_) => FixedTypeTag::FixedType32Bit,
            VecFixedAny::VecFixed64(_) => FixedTypeTag::FixedType64Bit,
        }
    }

    /// The number of elements.
    pub open spec fn spec_len(self) -> nat {
        match self {
            VecFixedAny::VecFixed16(v) => v@.len(),
            VecFixedAny::VecFixed32(v) => v@.len(),
            VecFixedAny::VecFixed64(v) => v@.len(),
        }
    }

    /// The width tag of the variant.
    pub fn get_tag(&self) -> (t: FixedTypeTag)
        ensures
            t == self.tag(),
    {
        match self {
            VecFixedAny::VecFixed16(_) => FixedTypeTag::FixedType16Bit,
            VecFixedAny::VecFixed32(_) => FixedTypeTag::FixedType32Bit,
            VecFixedAny::VecFixed64(_) => FixedTypeTag::FixedType64Bit,
        }
    }

    /// The number of elements.
    pub fn len(&self) -> (n: usize)
        ensures
            n == self.spec_len(),
    {
        match self {
            VecFixedAny::VecFixed16(v) => v.len(),
            VecFixedAny::VecFixed32(v) => v.len(),
            VecFixedAny::VecFixed64(v) => v.len(),
        }
    }
}

} // verus!
