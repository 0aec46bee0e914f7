use bitfield::validate::Backend;
use bitfield::validate::FieldDeclaration;
use bitfield::validate::LayoutError;
use bitfield::validate::ValidationOutcome;
use bitfield::validate::backend_capability_gate;
use bitfield::validate::backend_index_trick;
use bitfield::validate::extract_widths;
use bitfield::validate::total_width;
use bitfield::validate::validate_record;

fn fields(widths: &[u64]) -> Vec<FieldDeclaration> {
    let mut v = Vec::new();
    for (i, w) in widths.iter().enumerate() {
        v.push(FieldDeclaration { name: format!("f{}", i), width: *w });
    }
    v
}

const BOTH: [Backend; 2] = [Backend::IndexTrick, Backend::CapabilityGate];

#[test]
fn widths_3_5_accepted() {
    let v = fields(&[3, 5]);
    for b in BOTH {
        assert_eq!(validate_record(&v, b), ValidationOutcome::Accepted);
    }
}

#[test]
fn widths_1_1_1_rejected_misaligned() {
    let v = fields(&[1, 1, 1]);
    for b in BOTH {
        assert_eq!(
            validate_record(&v, b),
            ValidationOutcome::Rejected(LayoutError::MisalignedTotal { residue: 3 })
        );
    }
}

#[test]
fn widths_8_8_8_accepted() {
    let v = fields(&[8, 8, 8]);
    for b in BOTH {
        assert_eq!(validate_record(&v, b), ValidationOutcome::Accepted);
    }
}

#[test]
fn no_fields_accepted() {
    let v = fields(&[]);
    for b in BOTH {
        assert_eq!(validate_record(&v, b), ValidationOutcome::Accepted);
    }
}

#[test]
fn widths_64_1_rejected_residue_1() {
    let v = fields(&[64, 1]);
    for b in BOTH {
        assert_eq!(
            validate_record(&v, b),
            ValidationOutcome::Rejected(LayoutError::MisalignedTotal { residue: 1 })
        );
    }
}

#[test]
fn width_65_rejected_unknown() {
    // An out-of-catalog width is fatal whatever the other fields declare,
    // even when the total would otherwise be a multiple of eight.
    let v = fields(&[65, 7]);
    for b in BOTH {
        assert_eq!(
            validate_record(&v, b),
            ValidationOutcome::Rejected(LayoutError::UnknownFieldWidth)
        );
    }
}

#[test]
fn extractor_preserves_order() {
    let v = fields(&[8, 0, 64, 3]);
    assert_eq!(extract_widths(&v), Ok(vec![8, 0, 64, 3]));
}

#[test]
fn extractor_fails_on_unknown_width() {
    let v = fields(&[8, 65, 3]);
    assert_eq!(extract_widths(&v), Err(LayoutError::UnknownFieldWidth));
}

#[test]
fn accumulator_sums_exactly() {
    assert_eq!(total_width(&vec![3, 5, 16]), 24);
    assert_eq!(total_width(&vec![]), 0);
    assert_eq!(total_width(&vec![64; 65]), 4160);
}

#[test]
fn accumulator_is_order_independent() {
    assert_eq!(total_width(&vec![1, 2, 61]), total_width(&vec![61, 1, 2]));
}

#[test]
fn backends_agree_on_every_residue() {
    for total in 0..32u64 {
        assert_eq!(backend_index_trick(total), backend_capability_gate(total));
    }
}

#[test]
fn backend_verdicts_by_residue() {
    for total in 0..32u64 {
        let expected = if total % 8 == 0 {
            ValidationOutcome::Accepted
        } else {
            ValidationOutcome::Rejected(LayoutError::MisalignedTotal { residue: total % 8 })
        };
        assert_eq!(backend_index_trick(total), expected);
        assert_eq!(backend_capability_gate(total), expected);
    }
}

#[test]
fn diagnostic_messages_by_variant() {
    assert_eq!(
        LayoutError::UnknownFieldWidth.message(),
        "field type does not declare a bit-width in the catalog"
    );
    assert_eq!(
        LayoutError::MisalignedTotal { residue: 3 }.message(),
        "total bit-width is not a multiple of eight"
    );
}
