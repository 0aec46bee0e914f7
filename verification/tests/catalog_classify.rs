use bitfield::catalog::Field;
use bitfield::catalog::WidthMarker;
use bitfield::catalog::catalog;
use bitfield::classify::RemainderMarker;
use bitfield::classify::classify;
use bitfield::classify::has_capability;

#[test]
fn catalog_has_65_entries_in_order() {
    let c = catalog();
    assert_eq!(c.len(), 65);
    for (i, m) in c.iter().enumerate() {
        assert_eq!(m.bits(), i as u64);
    }
}

#[test]
fn catalog_has_no_duplicates() {
    let c = catalog();
    for i in 0..c.len() {
        for j in 0..c.len() {
            if i != j {
                assert_ne!(c[i], c[j]);
            }
        }
    }
}

#[test]
fn lookup_covers_exactly_the_catalog() {
    for w in 0..=64u64 {
        let m = WidthMarker::lookup(w).unwrap();
        assert_eq!(m.bits(), w);
    }
    assert_eq!(WidthMarker::lookup(65), None);
    assert_eq!(WidthMarker::lookup(u64::MAX), None);
}

#[test]
fn equal_widths_give_equal_markers() {
    let a = WidthMarker::lookup(17).unwrap();
    let b = WidthMarker::lookup(17).unwrap();
    assert_eq!(a, b);
}

#[test]
fn classifier_maps_each_residue() {
    for total in 0..64u64 {
        let m = classify(total);
        assert_eq!(m.residue_value(), total % 8);
    }
}

#[test]
fn classifier_is_periodic() {
    for total in 0..64u64 {
        assert_eq!(classify(total), classify(total + 8));
    }
}

#[test]
fn capability_only_for_residue_zero() {
    for residue in 0..8u64 {
        let m = classify(residue);
        assert_eq!(has_capability(&m), residue == 0);
    }
}

#[test]
fn classifier_hits_all_eight_classes() {
    let classes: Vec<RemainderMarker> = (0..8u64).map(|t| classify(t)).collect();
    for i in 0..classes.len() {
        for j in 0..classes.len() {
            if i != j {
                assert_ne!(classes[i], classes[j]);
            }
        }
    }
}
