//! The remainder classifier and the validity gate.
//!
//! The total width of a record is classified by its remainder modulo eight
//! into one of eight remainder classes, each represented by a marker type of
//! its own. The byte-alignment capability, expressed by the trait
//! [`TotalSizeIsMultipleOfEightBits`], is implemented for the residue-zero
//! marker and for no other: holding the capability is the pass signal of the
//! whole validation.

use vstd::prelude::*;

verus! {

/// Marker for totals with residue 0 modulo eight: byte-aligned totals.
#[derive(Clone, Copy, Debug, PartialEq, Eq, Structural)]
pub enum ZeroMod8 {
    /// The marker's only value.
    ZeroMod8,
}

/// Marker for totals with residue 1 modulo eight.
#[derive(Clone, Copy, Debug, PartialEq, Eq, Structural)]
pub enum OneMod8 {
    /// The marker's only value.
    OneMod8,
}

/// Marker for totals with residue 2 modulo eight.
#[derive(Clone, Copy, Debug, PartialEq, Eq, Structural)]
pub enum TwoMod8 {
    /// The marker's only value.
    TwoMod8,
}

/// Marker for totals with residue 3 modulo eight.
#[derive(Clone, Copy, Debug, PartialEq, Eq, Structural)]
pub enum ThreeMod8 {
    /// The marker's only value.
    ThreeMod8,
}

/// Marker for totals with residue 4 modulo eight.
#[derive(Clone, Copy, Debug, PartialEq, Eq, Structural)]
pub enum FourMod8 {
    /// The marker's only value.
    FourMod8,
}

/// Marker for totals with residue 5 modulo eight.
#[derive(Clone, Copy, Debug, PartialEq, Eq, Structural)]
pub enum FiveMod8 {
    /// The marker's only value.
    FiveMod8,
}

/// Marker for totals with residue 6 modulo eight.
#[derive(Clone, Copy, Debug, PartialEq, Eq, Structural)]
pub enum SixMod8 {
    /// The marker's only value.
    SixMod8,
}

/// Marker for totals with residue 7 modulo eight.
#[derive(Clone, Copy, Debug, PartialEq, Eq, Structural)]
pub enum SevenMod8 {
    /// The marker's only value.
    SevenMod8,
}

/// One of the eight remainder classes, carrying the marker type of that
/// class. The classifier produces exactly one of these for every total.
#[derive(Clone, Copy, Debug, PartialEq, Eq, Structural)]
pub enum RemainderMarker {
    /// Residue 0: the total is a whole number of bytes.
    Zero(ZeroMod8),
    /// Residue 1.
    One(OneMod8),
    /// Residue 2.
    Two(TwoMod8),
    /// Residue 3.
    Three(ThreeMod8),
    /// Residue 4.
    Four(FourMod8),
    /// Residue 5.
    Five(FiveMod8),
    /// Residue 6.
    Six(SixMod8),
    /// Residue 7.
    Seven(SevenMod8),
}

impl RemainderMarker {
    /// The residue class this marker stands for, in `0..8`.
    pub open spec fn residue(self) -> int {
        match self {
            RemainderMarker::Zero(_) => 0,
            RemainderMarker::One(_) => 1,
            RemainderMarker::Two(_) => 2,
            RemainderMarker::Three(_) => 3,
            RemainderMarker::Four(_) => 4,
            RemainderMarker::Five(_) => 5,
            RemainderMarker::Six(_) => 6,
            RemainderMarker::Seven(_) => 7,
        }
    }

    /// Whether this marker holds the byte-alignment capability.
    pub open spec fn byte_aligned(self) -> bool {
        self is Zero
    }

    /// The residue class, as a run-time value.
    pub fn residue_value(&self) -> (r: u64)
        ensures
            r as int == self.residue(),
    {
        match self {
            RemainderMarker::Zero(_) => 0,
            RemainderMarker::One(_) => 1,
            RemainderMarker::Two(_) => 2,
            RemainderMarker::Three(_) => 3,
            RemainderMarker::Four(_) => 4,
            RemainderMarker::Five(_) => 5,
            RemainderMarker::Six(_) => 6,
            RemainderMarker::Seven(_) => 7,
        }
    }
}

/// The remainder classifier as a pure function: every total maps to the
/// marker of its residue class modulo eight.
pub open spec fn spec_classify(total: nat) -> RemainderMarker {
    if total % 8 == 0 {
        RemainderMarker::Zero(ZeroMod8::ZeroMod8)
    } else if total % 8 == 1 {
        RemainderMarker::One(OneMod8::OneMod8)
    } else if total % 8 == 2 {
        RemainderMarker::Two(TwoMod8::TwoMod8)
    } else if total % 8 == 3 {
        RemainderMarker::Three(ThreeMod8::ThreeMod8)
    } else if total % 8 == 4 {
        RemainderMarker::Four(FourMod8::FourMod8)
    } else if total % 8 == 5 {
        RemainderMarker::Five(FiveMod8::FiveMod8)
    } else if total % 8 == 6 {
        RemainderMarker::Six(SixMod8::SixMod8)
    } else {
        RemainderMarker::Seven(SevenMod8::SevenMod8)
    }
}

/// The remainder classifier: map a total bit-width to the marker of its
/// residue class modulo eight.
pub fn classify(total: u64) -> (m: RemainderMarker)
    ensures
        m == spec_classify(total as nat),
        m.residue() == total as int % 8,
{
    let r: u64 = total % 8;
    if r == 0 {
        RemainderMarker::Zero(ZeroMod8::ZeroMod8)
    } else if r == 1 {
        RemainderMarker::One(OneMod8::OneMod8)
    } else if r == 2 {
        RemainderMarker::Two(TwoMod8::TwoMod8)
    } else if r == 3 {
        RemainderMarker::Three(ThreeMod8::ThreeMod8)
    } else if r == 4 {
        RemainderMarker::Four(FourMod8::FourMod8)
    } else if r == 5 {
        RemainderMarker::Five(FiveMod8::FiveMod8)
    } else if r == 6 {
        RemainderMarker::Six(SixMod8::SixMod8)
    } else {
        RemainderMarker::Seven(SevenMod8::SevenMod8)
    }
}

/// The validity gate capability: a marker type holds it exactly when the
/// totals it classifies are byte-aligned. Among the eight remainder marker
/// types it is implemented for [`ZeroMod8`] and for no other.
pub trait TotalSizeIsMultipleOfEightBits {
    /// The residue class of the marker type.
    spec fn marker_residue(&self) -> int;

    /// Holding the capability proves byte alignment: the residue is zero.
    proof fn capability_residue_zero(&self)
        ensures
            self.marker_residue() == 0,
    ;
}

impl TotalSizeIsMultipleOfEightBits for ZeroMod8 {
    open spec fn marker_residue(&self) -> int {
        0
    }

    proof fn capability_residue_zero(&self) {
    }
}

/// The validity gate, applied to a classified total: whether the marker
/// holds the byte-alignment capability.
pub fn has_capability(m: &RemainderMarker) -> (b: bool)
    ensures
        b == m.byte_aligned(),
{
    matches!(m, RemainderMarker::Zero(_))
}

/// Law: the byte-alignment capability is held by the residue-zero class
/// and by no other, over all eight remainder classes.
pub proof fn lemma_capability_exactly_residue_zero()
    ensures
        forall|m: RemainderMarker| #[trigger] m.byte_aligned() <==> m.residue() == 0,
{
}

/// Law: classification is total into the eight classes — the residue of the
/// produced marker is the total modulo eight — and periodic with period
/// eight.
pub proof fn lemma_classify_periodic(total: nat)
    ensures
        spec_classify(total).residue() == total % 8,
        spec_classify(total + 8) == spec_classify(total),
{
    assert((total + 8) % 8 == total % 8) by (nonlinear_arith);
}

} // verus!
