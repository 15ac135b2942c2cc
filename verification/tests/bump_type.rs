use std::collections::HashSet;
use unduler::BumpType;

#[test]
fn test_bump_type_display_major() {
    assert_eq!(BumpType::Major.to_string(), "major");
}

#[test]
fn test_bump_type_display_minor() {
    assert_eq!(BumpType::Minor.to_string(), "minor");
}

#[test]
fn test_bump_type_display_patch() {
    assert_eq!(BumpType::Patch.to_string(), "patch");
}

#[test]
fn test_bump_type_display_none() {
    assert_eq!(BumpType::NoBump.to_string(), "none");
}

#[test]
fn test_is_greater_than_major() {
    assert!(BumpType::Major.is_greater_than(BumpType::Minor));
    assert!(BumpType::Major.is_greater_than(BumpType::Patch));
    assert!(BumpType::Major.is_greater_than(BumpType::NoBump));
    assert!(!BumpType::Major.is_greater_than(BumpType::Major));
}

#[test]
fn test_is_greater_than_minor() {
    assert!(!BumpType::Minor.is_greater_than(BumpType::Major));
    assert!(BumpType::Minor.is_greater_than(BumpType::Patch));
    assert!(BumpType::Minor.is_greater_than(BumpType::NoBump));
    assert!(!BumpType::Minor.is_greater_than(BumpType::Minor));
}

#[test]
fn test_is_greater_than_patch() {
    assert!(!BumpType::Patch.is_greater_than(BumpType::Major));
    assert!(!BumpType::Patch.is_greater_than(BumpType::Minor));
    assert!(BumpType::Patch.is_greater_than(BumpType::NoBump));
    assert!(!BumpType::Patch.is_greater_than(BumpType::Patch));
}

#[test]
fn test_is_greater_than_none() {
    assert!(!BumpType::NoBump.is_greater_than(BumpType::Major));
    assert!(!BumpType::NoBump.is_greater_than(BumpType::Minor));
    assert!(!BumpType::NoBump.is_greater_than(BumpType::Patch));
    assert!(!BumpType::NoBump.is_greater_than(BumpType::NoBump));
}

#[test]
fn test_max_major_wins() {
    assert_eq!(BumpType::Major.max(BumpType::Minor), BumpType::Major);
    assert_eq!(BumpType::Major.max(BumpType::Patch), BumpType::Major);
    assert_eq!(BumpType::Major.max(BumpType::NoBump), BumpType::Major);
    assert_eq!(BumpType::Minor.max(BumpType::Major), BumpType::Major);
}

#[test]
fn test_max_minor_wins() {
    assert_eq!(BumpType::Minor.max(BumpType::Patch), BumpType::Minor);
    assert_eq!(BumpType::Minor.max(BumpType::NoBump), BumpType::Minor);
    assert_eq!(BumpType::Patch.max(BumpType::Minor), BumpType::Minor);
}

#[test]
fn test_max_patch_wins() {
    assert_eq!(BumpType::Patch.max(BumpType::NoBump), BumpType::Patch);
    assert_eq!(BumpType::NoBump.max(BumpType::Patch), BumpType::Patch);
}

#[test]
fn test_max_same() {
    assert_eq!(BumpType::Major.max(BumpType::Major), BumpType::Major);
    assert_eq!(BumpType::Minor.max(BumpType::Minor), BumpType::Minor);
    assert_eq!(BumpType::Patch.max(BumpType::Patch), BumpType::Patch);
    assert_eq!(BumpType::NoBump.max(BumpType::NoBump), BumpType::NoBump);
}

#[test]
fn bumper_test_clone() {
    let bump = BumpType::Major;
    let cloned = bump;
    assert_eq!(bump, cloned);
}

#[test]
fn bumper_test_debug() {
    let debug = format!("{:?}", BumpType::Major);
    assert!(debug.contains("Major"));
}

#[test]
fn bumper_test_eq() {
    assert_eq!(BumpType::Major, BumpType::Major);
    assert_ne!(BumpType::Major, BumpType::Minor);
}

#[test]
fn test_hash() {
    let mut set = HashSet::new();
    set.insert(BumpType::Major);
    set.insert(BumpType::Minor);
    assert!(set.contains(&BumpType::Major));
    assert!(set.contains(&BumpType::Minor));
    assert!(!set.contains(&BumpType::Patch));
}

#[test]
fn test_max_is_the_greater_in_the_total_order() {
    let all = [
        BumpType::NoBump,
        BumpType::Patch,
        BumpType::Minor,
        BumpType::Major,
    ];
    for (i, a) in all.iter().enumerate() {
        for (j, b) in all.iter().enumerate() {
            assert_eq!(a.is_greater_than(*b), i > j);
            assert_eq!(a.max(*b), all[i.max(j)]);
        }
    }
}
