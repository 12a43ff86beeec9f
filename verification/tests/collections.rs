use ppd_editor::dialog::DialogResponse;
use ppd_editor::example::Example;
use ppd_editor::fixed_vec::FixedVec;
use ppd_editor::reorder::{lower_bottom_in_vec, lower_in_vec, raise_in_vec, raise_top_in_vec};
use ppd_editor::storage::Storage;

#[test]
fn fixed_vec_keeps_most_recent_first() {
    let mut v: FixedVec<u32> = FixedVec::new(3);
    v.push(1);
    v.push(2);
    v.push(3);
    assert_eq!(v.iter().as_slice(), &[3, 2, 1]);
    assert_eq!(v.len(), 3);
}

#[test]
fn fixed_vec_push_moves_an_existing_element_to_the_front() {
    let mut v: FixedVec<u32> = FixedVec::new(3);
    v.push(1);
    v.push(2);
    v.push(3);
    v.push(2);
    assert_eq!(v.iter().as_slice(), &[2, 3, 1]);
}

#[test]
fn fixed_vec_drops_the_oldest_past_capacity() {
    let mut v: FixedVec<u32> = FixedVec::new(3);
    v.push(1);
    v.push(2);
    v.push(3);
    v.push(4);
    assert_eq!(v.iter().as_slice(), &[4, 3, 2]);
}

#[test]
fn fixed_vec_with_zero_capacity_stays_empty() {
    let mut v: FixedVec<u32> = FixedVec::new(0);
    v.push(1);
    assert_eq!(v.len(), 0);
}

#[test]
fn fixed_vec_resize_shrinks_and_clear_empties() {
    let mut v: FixedVec<String> = FixedVec::new(4);
    v.push("a".to_owned());
    v.push("b".to_owned());
    v.push("c".to_owned());
    v.resize(2, String::new());
    assert_eq!(v.iter().as_slice(), &["c".to_owned(), "b".to_owned()]);
    v.push("d".to_owned());
    assert_eq!(v.iter().as_slice(), &["d".to_owned(), "c".to_owned()]);
    v.clear();
    assert_eq!(v.len(), 0);
}

#[test]
fn lower_swaps_toward_the_end() {
    let mut v = vec![1u32, 2, 3];
    lower_in_vec(1, &mut v);
    assert_eq!(v, vec![2, 1, 3]);
}

#[test]
fn lower_of_the_last_element_changes_nothing() {
    let mut v = vec![1u32, 2, 3];
    lower_in_vec(3, &mut v);
    assert_eq!(v, vec![1, 2, 3]);
}

#[test]
fn lower_bottom_moves_to_the_end() {
    let mut v = vec![1u32, 2, 3];
    lower_bottom_in_vec(1, &mut v);
    assert_eq!(v, vec![2, 3, 1]);
}

#[test]
fn raise_swaps_toward_the_front() {
    let mut v = vec![1u32, 2, 3];
    raise_in_vec(3, &mut v);
    assert_eq!(v, vec![1, 3, 2]);
}

#[test]
fn raise_of_the_first_element_changes_nothing() {
    let mut v = vec![1u32, 2, 3];
    raise_in_vec(1, &mut v);
    assert_eq!(v, vec![1, 2, 3]);
}

#[test]
fn raise_top_moves_to_the_front() {
    let mut v = vec![1u32, 2, 3];
    raise_top_in_vec(3, &mut v);
    assert_eq!(v, vec![3, 1, 2]);
}

#[test]
fn reordering_an_absent_element_changes_nothing() {
    let mut v = vec![1u32, 2, 3];
    lower_in_vec(9, &mut v);
    lower_bottom_in_vec(9, &mut v);
    raise_in_vec(9, &mut v);
    raise_top_in_vec(9, &mut v);
    assert_eq!(v, vec![1, 2, 3]);
}

#[test]
fn reordering_acts_on_the_first_occurrence() {
    let mut v = vec![5u32, 7, 5, 9];
    lower_in_vec(5, &mut v);
    assert_eq!(v, vec![7, 5, 5, 9]);
}

#[test]
fn dialog_response_reports_presses() {
    assert!(!DialogResponse::Idle.is_some());
    assert!(DialogResponse::Primary.is_some());
    assert!(DialogResponse::Secondary.is_some());
    assert!(DialogResponse::Tertiary.is_some());
}

#[test]
fn example_describes_itself() {
    assert_eq!(Example::Basic.description(), "Basic");
}

#[test]
fn storage_remembers_five_recent_files() {
    let mut storage = Storage::default();
    for name in ["a", "b", "c", "d", "e", "f"] {
        storage.recent_files.push(name.to_owned());
    }
    assert_eq!(storage.recent_files.len(), 5);
    assert_eq!(storage.recent_files.iter()[0], "f".to_owned());
    assert_eq!(storage.recent_files.iter()[4], "b".to_owned());
    storage.recent_files.push("d".to_owned());
    assert_eq!(storage.recent_files.iter()[0], "d".to_owned());
    assert_eq!(storage.recent_files.len(), 5);
}
