use wheel_bridge::delta::{compare_byte_arrays, has_changed, try_compare_byte_arrays};

#[test]
fn identical_reports_differ_nowhere() {
    let a = [7u8; 29];
    assert_eq!(compare_byte_arrays(&a, &a), Vec::<usize>::new());
    assert!(!has_changed(&a, &a));
}

#[test]
fn differing_offsets_are_listed_in_ascending_order() {
    let a = [0u8, 1, 2, 3, 4, 5];
    let b = [0u8, 9, 2, 3, 8, 7];
    assert_eq!(compare_byte_arrays(&a, &b), vec![1, 4, 5]);
    assert!(has_changed(&a, &b));
}

#[test]
fn comparison_is_symmetric() {
    let mut a = [0u8; 29];
    let mut b = [0u8; 29];
    a[3] = 127;
    b[3] = 130;
    a[17] = 50;
    b[18] = 100;
    a[28] = 1;
    assert_eq!(compare_byte_arrays(&a, &b), compare_byte_arrays(&b, &a));
    assert_eq!(compare_byte_arrays(&a, &b), vec![3, 17, 18, 28]);
}

#[test]
fn empty_reports_differ_nowhere() {
    let a: [u8; 0] = [];
    assert_eq!(compare_byte_arrays(&a, &a), Vec::<usize>::new());
    assert!(!has_changed(&a, &a));
}

#[test]
fn unequal_lengths_cannot_be_compared() {
    let a = [1u8, 2, 3];
    let b = [1u8, 2];
    assert_eq!(try_compare_byte_arrays(&a, &b), None);
    assert_eq!(try_compare_byte_arrays(&b, &a), None);
    assert_eq!(try_compare_byte_arrays(&a, &[]), None);
}

#[test]
fn equal_lengths_compare_as_the_unchecked_form_does() {
    let a = [1u8, 2, 3];
    let b = [1u8, 0, 3];
    assert_eq!(try_compare_byte_arrays(&a, &b), Some(vec![1]));
    assert_eq!(try_compare_byte_arrays(&a, &a), Some(vec![]));
}

#[test]
fn unequal_lengths_count_as_changed() {
    assert!(has_changed(&[1u8, 2, 3], &[1u8, 2]));
    assert!(has_changed(&[], &[0u8]));
}

#[test]
fn a_change_in_the_last_byte_is_seen() {
    let a = [0u8; 29];
    let mut b = [0u8; 29];
    b[28] = 255;
    assert!(has_changed(&a, &b));
    assert_eq!(compare_byte_arrays(&a, &b), vec![28]);
}
