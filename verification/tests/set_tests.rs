use gpio_lines::line::set::LineSet;
use gpio_lines::Error;

fn set_of(offsets: &[u32]) -> LineSet {
    LineSet::try_from_iter(offsets).unwrap()
}

#[test]
fn from_iter_sorts_and_dedups() {
    let s = set_of(&[7, 2, 5, 2, 7]);
    assert_eq!(s.to_vec(), vec![2, 5, 7]);
    assert_eq!(s.len(), 3);
    assert!(!s.is_empty());
}

#[test]
fn from_iter_accepts_up_to_the_bound() {
    let all: Vec<u32> = (0..64).collect();
    let s = set_of(&all);
    assert_eq!(s.len(), 64);
    assert_eq!(s.to_vec(), all);
}

#[test]
fn from_iter_rejects_more_than_the_bound() {
    let too_many: Vec<u32> = (0..65).collect();
    assert_eq!(LineSet::try_from_iter(&too_many).unwrap_err(), Error::CapacityExceeded);
    // Duplicates count against the raw input length, before deduplication.
    let dup: Vec<u32> = vec![1; 65];
    assert_eq!(LineSet::try_from_iter(&dup).unwrap_err(), Error::CapacityExceeded);
}

#[test]
fn join_merges_sorted_union() {
    let mut a = set_of(&[1, 2, 3]);
    let b = set_of(&[3, 4]);
    a.join(b).unwrap();
    assert_eq!(a.to_vec(), vec![1, 2, 3, 4]);
}

#[test]
fn join_capacity_failure_leaves_receiver_unchanged() {
    let all: Vec<u32> = (0..64).collect();
    let mut a = set_of(&all);
    let b = set_of(&[64]);
    assert_eq!(a.join(b).unwrap_err(), Error::CapacityExceeded);
    assert_eq!(a.to_vec(), all);
}

#[test]
fn join_of_overlapping_sets_dedups() {
    let mut a = set_of(&[0, 10, 20, 30]);
    let b = set_of(&[10, 15, 30, 35]);
    a.join(b).unwrap();
    assert_eq!(a.to_vec(), vec![0, 10, 15, 20, 30, 35]);
}

#[test]
fn insert_then_remove_is_a_no_op() {
    let mut s = set_of(&[2, 5]);
    s.add_offset(3).unwrap();
    assert_eq!(s.to_vec(), vec![2, 3, 5]);
    s.remove_offset(3).unwrap();
    assert_eq!(s.to_vec(), vec![2, 5]);
}

#[test]
fn insert_of_present_offset_fails_without_mutating() {
    let mut s = set_of(&[2, 5]);
    assert_eq!(s.add_offset(5).unwrap_err(), Error::AlreadyExists);
    assert_eq!(s.to_vec(), vec![2, 5]);
}

#[test]
fn insert_into_full_set_fails_without_mutating() {
    let all: Vec<u32> = (0..64).collect();
    let mut s = set_of(&all);
    assert_eq!(s.add_offset(99).unwrap_err(), Error::CapacityExceeded);
    assert_eq!(s.to_vec(), all);
}

#[test]
fn remove_of_absent_offset_fails() {
    let mut s = set_of(&[2, 5]);
    assert_eq!(s.remove_offset(3).unwrap_err(), Error::NotFound);
    assert_eq!(s.to_vec(), vec![2, 5]);
}

#[test]
fn find_idx_and_get_offset_translate_both_ways() {
    let s = set_of(&[2, 5, 7]);
    assert_eq!(s.find_idx(2), Some(0));
    assert_eq!(s.find_idx(5), Some(1));
    assert_eq!(s.find_idx(7), Some(2));
    assert_eq!(s.find_idx(4), None);
    assert_eq!(s.get_offset(0), Some(2));
    assert_eq!(s.get_offset(2), Some(7));
    assert_eq!(s.get_offset(3), None);

    let r = s.as_set_ref();
    assert_eq!(r.len(), 3);
    assert_eq!(r.find_idx(5), Some(1));
    assert_eq!(r.get_offset(1), Some(5));
}

#[test]
fn mask_covers_exactly_the_held_lines() {
    assert_eq!(set_of(&[2, 5, 7]).mask(), 0b111);
    assert_eq!(LineSet::empty().mask(), 0);
    let all: Vec<u32> = (0..64).collect();
    assert_eq!(set_of(&all).mask(), u64::MAX);
}

#[test]
fn try_extend_bounds_then_merges() {
    let mut s = set_of(&[1, 2, 3]);
    s.try_extend(&[3, 4]).unwrap();
    assert_eq!(s.to_vec(), vec![1, 2, 3, 4]);

    let too_many: Vec<u32> = (100..165).collect();
    assert_eq!(s.try_extend(&too_many).unwrap_err(), Error::CapacityExceeded);
    assert_eq!(s.to_vec(), vec![1, 2, 3, 4]);
}

#[test]
fn to_api_v2_pads_with_zeros() {
    let s = set_of(&[2, 5, 7]);
    let (n, lines) = s.to_api_v2();
    assert_eq!(n, 3);
    assert_eq!(lines.len(), 64);
    assert_eq!(&lines[..3], &[2, 5, 7]);
    assert!(lines[3..].iter().all(|&x| x == 0));
    assert_eq!(s.capacity(), 64);
}
