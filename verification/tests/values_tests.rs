use gpio_lines::line::set::LineSet;
use gpio_lines::line::values::{values_from_pairs, LineValue, MaskedBits};
use gpio_lines::Error;

#[test]
fn line_value_round_trips_through_bool() {
    assert_eq!(LineValue::new(true), LineValue::Active);
    assert_eq!(LineValue::new(false), LineValue::Inactive);
    assert!(LineValue::Active.is_active());
    assert!(!LineValue::Inactive.is_active());
}

#[test]
fn get_set_and_clear_track_the_mask() {
    let mut v = MaskedBits::empty();
    assert!(v.is_empty());
    assert_eq!(v.get(3), None);

    v.set_bit(3);
    assert_eq!(v.get(3), Some(true));
    assert_eq!(v.len(), 1);

    v.clear_bit(3);
    assert_eq!(v.get(3), Some(false));
    assert_eq!(v.len(), 1);

    v.set_bit_value(10, true);
    assert_eq!(v.get(10), Some(true));
    assert_eq!(v.get(11), None);
    assert_eq!(v.len(), 2);
}

#[test]
fn with_bit_builders_match_in_place_setters() {
    let a = MaskedBits::empty().with_bit_set(1).with_bit_cleared(2).with_bit(4, true);
    assert_eq!(a.bits(), 0b10010);
    assert_eq!(a.mask(), 0b10110);

    let all_set = MaskedBits::all(true);
    assert_eq!(all_set.bits(), u64::MAX);
    assert_eq!(all_set.mask(), u64::MAX);
    assert_eq!(all_set.len(), 64);

    let all_clear = MaskedBits::all(false);
    assert_eq!(all_clear.bits(), 0);
    assert_eq!(all_clear.mask(), u64::MAX);
}

#[test]
fn equality_ignores_bits_outside_the_mask() {
    let a = MaskedBits::new(0b1111, 0b0101);
    let b = MaskedBits::new(0b0101, 0b0101);
    assert_eq!(a, b);
    assert_eq!(a.bits(), 0b0101);
    let c = MaskedBits::new(0b0101, 0b0111);
    assert_ne!(a, c);
}

#[test]
fn iter_yields_masked_pairs_in_ascending_order() {
    let v = MaskedBits::new(0b0010, 0b1010);
    let pairs = v.iter();
    assert_eq!(pairs, vec![(1, true), (3, false)]);

    assert_eq!(MaskedBits::empty().iter(), vec![]);
}

#[test]
fn merge_of_disjoint_masks_unions() {
    let a = MaskedBits::new(0b01, 0b01);
    let b = MaskedBits::new(0b10, 0b10);
    let m = a.try_merge(b).unwrap();
    assert_eq!(m.bits(), 0b11);
    assert_eq!(m.mask(), 0b11);
}

#[test]
fn merge_of_agreeing_overlap_succeeds() {
    let a = MaskedBits::new(0b011, 0b011);
    let b = MaskedBits::new(0b010, 0b110);
    let m = a.try_merge(b).unwrap();
    assert_eq!(m.bits(), 0b011);
    assert_eq!(m.mask(), 0b111);
}

#[test]
fn merge_conflict_is_detected() {
    let a = MaskedBits::new(0b1, 0b1);
    let b = MaskedBits::new(0b0, 0b1);
    assert_eq!(a.try_merge(b).unwrap_err(), Error::Conflict);
}

#[test]
fn merge_is_commutative_and_associative_on_compatible_inputs() {
    let a = MaskedBits::new(0b001, 0b001);
    let b = MaskedBits::new(0b110, 0b110);
    let c = MaskedBits::new(0b111, 0b101);

    let ab = a.try_merge(b).unwrap();
    let ba = b.try_merge(a).unwrap();
    assert_eq!(ab, ba);

    let ab_c = ab.try_merge(c).unwrap();
    let bc = b.try_merge(c).unwrap();
    let a_bc = a.try_merge(bc).unwrap();
    assert_eq!(ab_c, a_bc);
}

#[test]
fn pairs_land_at_set_indices() {
    let lines = LineSet::try_from_iter(&[2, 5, 7]).unwrap();
    let v = values_from_pairs(&[(5, true)], &lines).unwrap();
    assert_eq!(v.mask(), 0b010);
    assert_eq!(v.bits(), 0b010);
    assert_eq!(v.get(1), Some(true));
    assert_eq!(v.get(0), None);

    let w = values_from_pairs(&[(2, false), (7, true)], &lines).unwrap();
    assert_eq!(w.mask(), 0b101);
    assert_eq!(w.bits(), 0b100);
}

#[test]
fn pairs_with_unknown_offset_fail() {
    let lines = LineSet::try_from_iter(&[2, 5, 7]).unwrap();
    assert_eq!(values_from_pairs(&[(5, true), (6, false)], &lines).unwrap_err(), Error::NotFound);
}

#[test]
fn later_pair_overrides_earlier() {
    let lines = LineSet::try_from_iter(&[2, 5]).unwrap();
    let v = values_from_pairs(&[(5, true), (5, false)], &lines).unwrap();
    assert_eq!(v.get(1), Some(false));
}

#[test]
fn values_for_all_cover_every_held_line() {
    let lines = LineSet::try_from_iter(&[2, 5, 7]).unwrap();
    let on = gpio_lines::line::values::values_for_all(&lines, true);
    assert_eq!(on.mask(), 0b111);
    assert_eq!(on.bits(), 0b111);
    let off = gpio_lines::line::values::values_for_all(&lines, false);
    assert_eq!(off.mask(), 0b111);
    assert_eq!(off.bits(), 0b000);
}
