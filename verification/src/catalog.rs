//! The width catalog: the closed set of legal field bit-widths.
//!
//! A field of a bit-packed record may only declare a width that the catalog
//! holds, namely the integers `0..=64`. Each legal width is represented by a
//! [`WidthMarker`], and the only way to obtain a marker is to resolve a
//! declared width through [`WidthMarker::lookup`], so no marker for a width
//! outside the catalog can ever exist.

use vstd::prelude::*;

verus! {

/// The largest bit-width the catalog holds.
pub const MAX_WIDTH: u64 = 64;

/// A type that declares a fixed bit-width for use inside a packed record.
pub trait Field {
    /// The declared width, as a mathematical value.
    spec fn spec_bits(&self) -> int;

    /// The declared width, as a run-time value.
    fn bits(&self) -> (b: u64)
        ensures
            b as int == self.spec_bits(),
    ;
}

/// One entry of the width catalog: a marker for a single bit-width in
/// `0..=64`. Markers carry no other state, and two markers for the same
/// width are equal.
#[derive(Clone, Copy, Debug, PartialEq, Eq, Structural)]
pub struct WidthMarker {
    bits: u8,
}

impl Field for WidthMarker {
    closed spec fn spec_bits(&self) -> int {
        self.bits as int
    }

    fn bits(&self) -> (b: u64) {
        self.bits as u64
    }
}

impl WidthMarker {
    /// A marker is well formed when its width lies inside the catalog.
    /// Every marker that `lookup` or `catalog` hands out is well formed.
    pub open spec fn wf(&self) -> bool {
        0 <= self.spec_bits() <= 64
    }

    /// Resolve a declared width against the catalog: the marker for
    /// `width` when the catalog holds one, and nothing otherwise.
    pub fn lookup(width: u64) -> (r: Option<WidthMarker>)
        ensures
            r is Some <==> width <= 64,
            r matches Some(m) ==> m.wf() && m.spec_bits() == width,
    {
        if width <= MAX_WIDTH {
            Some(WidthMarker { bits: width as u8 })
        } else {
            None
        }
    }
}

/// The full catalog, in ascending width order: exactly one marker for each
/// width `0..=64`, sixty-five entries in all.
pub fn catalog() -> (c: Vec<WidthMarker>)
    ensures
        c@.len() == 65,
        forall|i: int| 0 <= i < 65 ==> (#[trigger] c@[i]).wf() && c@[i].spec_bits() == i,
{
    let mut c: Vec<WidthMarker> = Vec::new();
    let mut w: u64 = 0;
    while w <= MAX_WIDTH
        invariant
            w <= 65,
            c@.len() == w,
            forall|i: int| 0 <= i < w ==> (#[trigger] c@[i]).wf() && c@[i].spec_bits() == i,
        decreases 65 - w,
    {
        c.push(WidthMarker { bits: w as u8 });
        w = w + 1;
    }
    c
}

/// A marker is determined by its width: markers of equal width are equal.
pub proof fn lemma_marker_unique(a: WidthMarker, b: WidthMarker)
    requires
        a.spec_bits() == b.spec_bits(),
    ensures
        a == b,
{
}

/// Law: a sequence with one entry per width, such as the one `catalog`
/// returns, holds no duplicate entries.
pub proof fn lemma_catalog_no_duplicates(c: Seq<WidthMarker>)
    requires
        c.len() == 65,
        forall|i: int| 0 <= i < 65 ==> (#[trigger] c[i]).spec_bits() == i,
    ensures
        forall|i: int, j: int| 0 <= i < 65 && 0 <= j < 65 && i != j ==> c[i] != c[j],
{
    assert forall|i: int, j: int| 0 <= i < 65 && 0 <= j < 65 && i != j implies c[i] != c[j] by {
        assert(c[i].spec_bits() == i);
        assert(c[j].spec_bits() == j);
    }
}

} // verus!
