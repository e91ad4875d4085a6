use fvm_ipld_bitfield::BitField;
use power_pledge::bitfield::{bf_all, bounded_bits, check_sector_faulty, make_bitfield};

#[test]
fn make_bitfield_sets_exactly_the_given_bits() {
    let bf = make_bitfield(&[5, 1, 3, 5, 1]);
    assert_eq!(bf.len(), 3);
    assert!(bf.get(1) && bf.get(3) && bf.get(5));
    assert!(!bf.get(0) && !bf.get(2) && !bf.get(4));
    assert!(make_bitfield(&[]).is_empty());
}

#[test]
fn bf_all_lists_the_bits_in_ascending_order() {
    assert_eq!(bf_all(make_bitfield(&[9, 2, 7, 2, u64::MAX - 1])), vec![2, 7, 9, u64::MAX - 1]);
    assert_eq!(bf_all(BitField::new()), Vec::<u64>::new());
    let mut bf = make_bitfield(&[1, 2, 3]);
    bf.unset(2);
    bf.set(0);
    assert_eq!(bf_all(bf), vec![0, 1, 3]);
}

#[test]
fn bounded_bits_refuses_more_bits_than_the_bound() {
    let bf = make_bitfield(&[4, 8, 15]);
    assert_eq!(bounded_bits(&bf, 2), None);
    assert_eq!(bounded_bits(&bf, 3), Some(vec![4, 8, 15]));
    assert_eq!(bounded_bits(&bf, 0), None);
    assert_eq!(bounded_bits(&BitField::new(), 0), Some(Vec::new()));
}

#[test]
fn sector_is_faulty_when_its_number_is_set() {
    let faults = make_bitfield(&[3, 4, 5, 100]);
    assert!(check_sector_faulty(&faults, 3));
    assert!(check_sector_faulty(&faults, 100));
    assert!(!check_sector_faulty(&faults, 0));
    assert!(!check_sector_faulty(&faults, 6));
    assert!(!check_sector_faulty(&BitField::new(), 3));
}
