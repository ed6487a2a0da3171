use quadboard::index::Index;
use quadboard::InvalidNibbleError;
use quadboard::Nibble;
use quadboard::Quadboard;

#[test]
fn nibble_construction_succeeds_exactly_below_16() {
    for v in 0..=255u8 {
        match Nibble::try_from(v) {
            Ok(nibble) => {
                assert!(v < 16);
                assert_eq!(nibble.get(), v);
            }
            Err(InvalidNibbleError) => assert!(v >= 16),
        }
    }
}

#[test]
fn new_quadboard_reads_zero_everywhere() {
    let qb = Quadboard::<Nibble>::new();
    for i in 0..64u8 {
        assert_eq!(qb.get_unchecked(i).unwrap().get(), 0);
    }
}

#[test]
fn empty_quadboard_reads_the_empty_value_everywhere() {
    let qb = Quadboard::<Nibble>::empty();
    for i in 0..64u8 {
        assert_eq!(qb.get_unchecked(i).unwrap().get(), 0);
    }
}

#[test]
fn default_quadboard_equals_empty() {
    let qb: Quadboard<Nibble> = Quadboard::default();
    assert_eq!(qb, Quadboard::<Nibble>::empty());
}

#[test]
fn typed_set_then_get_round_trips() {
    let mut qb = Quadboard::<Nibble>::new();
    for v in 0..64u8 {
        let index = Index::try_from(v).unwrap();
        qb.set(index, Nibble::try_from(v % 16).unwrap());
        assert_eq!(qb.get(index).unwrap().get(), v % 16);
    }
}

#[test]
fn to_vec_lists_all_slots_in_order() {
    let mut qb = Quadboard::<Nibble>::new();
    qb.set_unchecked(0, Nibble::try_from(7).unwrap());
    qb.set_unchecked(63, Nibble::try_from(15).unwrap());
    let all = qb.to_vec();
    assert_eq!(all.len(), 64);
    assert_eq!(all[0].as_ref().unwrap().get(), 7);
    assert_eq!(all[63].as_ref().unwrap().get(), 15);
    for i in 1..63 {
        assert_eq!(all[i].as_ref().unwrap().get(), 0);
    }
}

#[test]
fn raw_view_reflects_typed_writes() {
    let mut qb = Quadboard::<Nibble>::new();
    qb.set_unchecked(0, Nibble::try_from(0b1111).unwrap());
    qb.set_unchecked(5, Nibble::try_from(0b1101).unwrap());
    qb.set_unchecked(32, Nibble::try_from(0b1111).unwrap());
    qb.set_unchecked(63, Nibble::try_from(0b0111).unwrap());
    let channels = *qb.as_raw_quadboard().as_channels();
    assert_eq!(channels[0], 0x8000000100000021);
    assert_eq!(channels[1], 0x8000000100000001);
    assert_eq!(channels[2], 0x8000000100000021);
    assert_eq!(channels[3], 0x0000000100000021);
}

#[test]
fn cloned_quadboard_is_equal_to_its_source() {
    let mut qb = Quadboard::<Nibble>::new();
    qb.set_unchecked(11, Nibble::try_from(3).unwrap());
    let copy = qb.clone();
    assert_eq!(copy, qb);
    assert_eq!(copy.get_unchecked(11).unwrap().get(), 3);
}
