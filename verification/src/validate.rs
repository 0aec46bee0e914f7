//! The validation entry point and its two backend strategies.
//!
//! A record definition hands the validator an ordered list of
//! [`FieldDeclaration`]s. The field extractor resolves every declared width
//! through the catalog, the accumulator sums the resolved widths, the
//! classifier places the total in its remainder class, and the validity gate
//! turns the class into the pass-fail outcome: a record is accepted exactly when every
//! width is in the catalog and the total is a multiple of eight bits.
//!
//! Two backend strategies decide alignment. The index-trick backend probes a
//! one-slot buffer at index `total % 8`, so only the aligned case is an
//! in-bounds access and a misaligned total surfaces as the generic verdict of
//! a failed bounds check. The capability-gate backend asks whether the
//! remainder class holds the byte-alignment capability, the more principled
//! phrasing. Both are proved to return the same verdict on every input, so
//! the choice only affects which mechanism a diagnostic points at.

use vstd::prelude::*;

use crate::catalog::Field;
use crate::catalog::WidthMarker;
use crate::classify::RemainderMarker;
use crate::classify::TotalSizeIsMultipleOfEightBits;
use crate::classify::classify;

verus! {

/// A field of a record definition: its name and the bit-width its type
/// declares. Declaration order is kept, though the verdict does not depend
/// on it.
#[derive(Debug)]
pub struct FieldDeclaration {
    /// The field's name. Kept for traceability; no semantic weight.
    pub name: String,
    /// The bit-width the field's type declares. Legal exactly when the
    /// catalog holds it, i.e. when it lies in `0..=64`.
    pub width: u64,
}

/// Why a record definition was rejected.
#[derive(Clone, Copy, Debug, PartialEq, Eq, Structural)]
pub enum LayoutError {
    /// Some field declares a width the catalog does not hold. Fatal and
    /// independent of divisibility.
    UnknownFieldWidth,
    /// Every width is legal, but the total is not a multiple of eight bits;
    /// carries the offending residue, in `1..8`.
    MisalignedTotal {
        /// The total width modulo eight.
        residue: u64,
    },
}

impl LayoutError {
    /// A diagnostic line for the rejection. A nicety layered on top of the
    /// error value itself: the variant, not this text, is the error.
    pub fn message(&self) -> (m: &'static str)
        ensures
            self is UnknownFieldWidth ==> m@ == "field type does not declare a bit-width in the catalog"@,
            self is MisalignedTotal ==> m@ == "total bit-width is not a multiple of eight"@,
    {
        match self {
            LayoutError::UnknownFieldWidth => "field type does not declare a bit-width in the catalog",
            LayoutError::MisalignedTotal { .. } => "total bit-width is not a multiple of eight",
        }
    }
}

/// The verdict of validating one record definition.
#[derive(Clone, Copy, Debug, PartialEq, Eq, Structural)]
pub enum ValidationOutcome {
    /// The layout is well formed: the record occupies a whole number of
    /// bytes.
    Accepted,
    /// The layout is malformed; no partial success exists.
    Rejected(LayoutError),
}

/// Which backend strategy decides alignment. Both return the same verdict
/// on every input.
#[derive(Clone, Copy, Debug, PartialEq, Eq, Structural)]
pub enum Backend {
    /// Probe a one-slot buffer at index `total % 8`: in bounds only for
    /// residue zero. The rejection is the generic verdict of a bounds
    /// check, with no residue-specific wording.
    IndexTrick,
    /// Ask whether the remainder class holds the byte-alignment
    /// capability.
    CapabilityGate,
}

/// Whether every declared width of the record is one the catalog holds.
pub open spec fn all_widths_known(fields: Seq<FieldDeclaration>) -> bool {
    forall|i: int| 0 <= i < fields.len() ==> (#[trigger] fields[i]).width <= 64
}

/// The sum of a sequence of widths.
pub open spec fn spec_sum(ws: Seq<u64>) -> int
    decreases ws.len(),
{
    if ws.len() == 0 {
        0
    } else {
        spec_sum(ws.drop_last()) + ws.last()
    }
}

/// The widths a record's fields declare, in declaration order.
pub open spec fn declared_widths(fields: Seq<FieldDeclaration>) -> Seq<u64> {
    fields.map_values(|f: FieldDeclaration| f.width)
}

/// The total bit-width of a record definition.
pub open spec fn spec_total_width(fields: Seq<FieldDeclaration>) -> int {
    spec_sum(declared_widths(fields))
}

/// A sum of unsigned widths is never negative.
pub proof fn lemma_sum_nonneg(ws: Seq<u64>)
    ensures
        spec_sum(ws) >= 0,
    decreases ws.len(),
{
    if ws.len() > 0 {
        lemma_sum_nonneg(ws.drop_last());
    }
}

/// Removing one element takes exactly its value out of the sum.
proof fn lemma_sum_remove(ws: Seq<u64>, i: int)
    requires
        0 <= i < ws.len(),
    ensures
        spec_sum(ws) == spec_sum(ws.remove(i)) + ws[i],
    decreases ws.len(),
{
    if i == ws.len() - 1 {
        assert(ws.remove(i) =~= ws.drop_last());
    } else {
        lemma_sum_remove(ws.drop_last(), i);
        assert(ws.remove(i).drop_last() =~= ws.drop_last().remove(i));
        assert(ws.remove(i).last() == ws.last());
    }
}

/// Law: the accumulated total does not depend on the order of the widths —
/// two width sequences that hold the same widths equally often sum to the
/// same total.
pub proof fn lemma_sum_order_independent(a: Seq<u64>, b: Seq<u64>)
    requires
        a.to_multiset() == b.to_multiset(),
    ensures
        spec_sum(a) == spec_sum(b),
    decreases a.len(),
{
    broadcast use vstd::seq_lib::group_to_multiset_ensures;

    if a.len() == 0 {
        assert(a.to_multiset().len() == 0);
        assert(b.to_multiset().len() == b.len());
    } else {
        let x = a.last();
        assert(a.contains(x)) by {
            assert(a[a.len() - 1] == x);
        }
        assert(a.to_multiset().count(x) > 0);
        assert(b.to_multiset().count(x) > 0);
        assert(b.contains(x));
        let i = choose|i: int| 0 <= i < b.len() && b[i] == x;
        lemma_sum_remove(a, a.len() - 1);
        lemma_sum_remove(b, i);
        assert(a.remove(a.len() - 1) =~= a.drop_last());
        assert(a.drop_last().to_multiset() =~= b.remove(i).to_multiset()) by {
            assert(a.remove(a.len() - 1).to_multiset() =~= a.to_multiset().remove(x));
            assert(b.remove(i).to_multiset() =~= b.to_multiset().remove(x));
        }
        lemma_sum_order_independent(a.drop_last(), b.remove(i));
    }
}

/// The verdict on an already-accumulated total: accepted exactly when the
/// total is a multiple of eight bits.
pub open spec fn spec_align_outcome(total: nat) -> ValidationOutcome {
    if total % 8 == 0 {
        ValidationOutcome::Accepted
    } else {
        ValidationOutcome::Rejected(LayoutError::MisalignedTotal { residue: (total % 8) as u64 })
    }
}

/// The verdict on a record definition: a pure function of its field list
/// alone, independent of the backend strategy.
pub open spec fn spec_validate(fields: Seq<FieldDeclaration>) -> ValidationOutcome {
    if !all_widths_known(fields) {
        ValidationOutcome::Rejected(LayoutError::UnknownFieldWidth)
    } else {
        spec_align_outcome(spec_total_width(fields) as nat)
    }
}

/// The field extractor: resolve each field's declared width through the
/// catalog, preserving declaration order. Fails, with the catalog's own
/// error, exactly when some field declares a width outside the catalog.
pub fn extract_widths(fields: &Vec<FieldDeclaration>) -> (r: Result<Vec<u64>, LayoutError>)
    ensures
        r is Ok <==> all_widths_known(fields@),
        r matches Ok(ws) ==> ws@ == declared_widths(fields@),
        r is Err ==> r == Err::<Vec<u64>, LayoutError>(LayoutError::UnknownFieldWidth),
{
    let mut ws: Vec<u64> = Vec::new();
    let mut i: usize = 0;
    while i < fields.len()
        invariant
            i <= fields@.len(),
            ws@.len() == i,
            forall|j: int| 0 <= j < i ==> ws@[j] == (#[trigger] fields@[j]).width && fields@[j].width <= 64,
        decreases fields@.len() - i,
    {
        match WidthMarker::lookup(fields[i].width) {
            Some(m) => {
                ws.push(m.bits());
            },
            None => {
                assert(fields@[i as int].width > 64);
                return Err(LayoutError::UnknownFieldWidth);
            },
        }
        i = i + 1;
    }
    assert(ws@ =~= declared_widths(fields@));
    Ok(ws)
}

/// The width accumulator: the arithmetic sum of the resolved widths. The
/// result does not depend on the order of the widths, only on how often
/// each occurs; the bound on the length only keeps the machine total from
/// overflowing.
pub fn total_width(widths: &Vec<u64>) -> (t: u64)
    requires
        forall|i: int| 0 <= i < widths@.len() ==> (#[trigger] widths@[i]) <= 64,
        64 * widths@.len() <= u64::MAX,
    ensures
        t as int == spec_sum(widths@),
{
    let mut t: u64 = 0;
    let mut i: usize = 0;
    while i < widths.len()
        invariant
            i <= widths@.len(),
            forall|j: int| 0 <= j < widths@.len() ==> (#[trigger] widths@[j]) <= 64,
            64 * widths@.len() <= u64::MAX,
            t <= 64 * i,
            t as int == spec_sum(widths@.take(i as int)),
        decreases widths@.len() - i,
    {
        assert(widths@.take(i + 1).drop_last() =~= widths@.take(i as int));
        assert(widths@.take(i + 1).last() == widths@[i as int]);
        t = t + widths[i];
        i = i + 1;
    }
    assert(widths@.take(widths@.len() as int) =~= widths@);
    t
}

/// The index-trick backend: probe a one-slot buffer at index `total % 8`.
/// Residue zero is the only in-bounds index, so the probe succeeds exactly
/// for byte-aligned totals; any other residue fails the bounds check and is
/// reported with the generic misalignment verdict.
pub fn backend_index_trick(total: u64) -> (o: ValidationOutcome)
    ensures
        o == spec_align_outcome(total as nat),
{
    let slot: [u8; 1] = [0u8];
    let idx: u64 = total % 8;
    if (idx as usize) < slot.len() {
        let _probe: u8 = slot[idx as usize];
        ValidationOutcome::Accepted
    } else {
        ValidationOutcome::Rejected(LayoutError::MisalignedTotal { residue: idx })
    }
}

/// The capability-gate backend: classify the total and accept exactly when
/// its remainder class holds the byte-alignment capability.
pub fn backend_capability_gate(total: u64) -> (o: ValidationOutcome)
    ensures
        o == spec_align_outcome(total as nat),
{
    let marker: RemainderMarker = classify(total);
    match marker {
        RemainderMarker::Zero(z) => {
            proof {
                // The capability of the residue-zero marker is what licenses
                // acceptance here.
                z.capability_residue_zero();
                assert(marker.residue() == z.marker_residue());
            }
            ValidationOutcome::Accepted
        },
        _ => ValidationOutcome::Rejected(
            LayoutError::MisalignedTotal { residue: marker.residue_value() },
        ),
    }
}

/// The validation entry point: extract the field widths, accumulate the
/// total, classify its remainder, and gate on byte alignment with the chosen
/// backend. The verdict is a pure function of the field list alone — both
/// backends return `spec_validate` of the fields on every input.
pub fn validate_record(fields: &Vec<FieldDeclaration>, backend: Backend) -> (o: ValidationOutcome)
    requires
        64 * fields@.len() <= u64::MAX,
    ensures
        o == spec_validate(fields@),
{
    let ws: Vec<u64> = match extract_widths(fields) {
        Ok(ws) => ws,
        Err(e) => {
            return ValidationOutcome::Rejected(e);
        },
    };
    let total: u64 = total_width(&ws);
    match backend {
        Backend::IndexTrick => backend_index_trick(total),
        Backend::CapabilityGate => backend_capability_gate(total),
    }
}

/// Law: every record whose widths are all legal and whose total is a
/// multiple of eight is accepted — by both backend strategies, since
/// `validate_record` returns `spec_validate` of its fields whatever the
/// backend.
pub proof fn lemma_aligned_accepted(fields: Seq<FieldDeclaration>)
    requires
        all_widths_known(fields),
        spec_total_width(fields) % 8 == 0,
    ensures
        spec_validate(fields) == ValidationOutcome::Accepted,
{
    lemma_sum_nonneg(declared_widths(fields));
}

/// Law: every record whose widths are all legal and whose total is not a
/// multiple of eight is rejected as misaligned, with the total's residue —
/// by both backend strategies, since `validate_record` returns
/// `spec_validate` of its fields whatever the backend.
pub proof fn lemma_misaligned_rejected(fields: Seq<FieldDeclaration>)
    requires
        all_widths_known(fields),
        spec_total_width(fields) % 8 != 0,
    ensures
        spec_validate(fields) == ValidationOutcome::Rejected(
            LayoutError::MisalignedTotal {
                residue: (spec_total_width(fields) % 8) as u64,
            },
        ),
{
    lemma_sum_nonneg(declared_widths(fields));
}

/// Law: a record with a declared width outside the catalog is rejected with
/// the catalog's error, whatever its other fields declare.
pub proof fn lemma_unknown_width_rejected(fields: Seq<FieldDeclaration>, i: int)
    requires
        0 <= i < fields.len(),
        fields[i].width > 64,
    ensures
        spec_validate(fields) == ValidationOutcome::Rejected(LayoutError::UnknownFieldWidth),
{
}

} // verus!
