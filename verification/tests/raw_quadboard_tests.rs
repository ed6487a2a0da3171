use quadboard::index::Index;
use quadboard::raw_quadboard::RawQuadboard;
use quadboard::Nibble;

#[test]
fn raw_quadboard_new_is_all_zero() {
    // the channels will all be zero iff their product is zero
    let qb = RawQuadboard::default();
    let prod: u64 = qb.into_channels().into_iter().product();

    assert!(prod == 0);
}

#[test]
fn raw_quadboard_set_unchecked_is_correct() {
    let mut rqb = RawQuadboard::default();

    rqb.set_unchecked(0, Nibble::try_from(0b1111).unwrap());
    rqb.set_unchecked(5, Nibble::try_from(0b1101).unwrap());
    rqb.set_unchecked(32, Nibble::try_from(0b1111).unwrap());
    rqb.set_unchecked(63, Nibble::try_from(0b0111).unwrap());

    let channels = rqb.into_channels();
    for (i, lane) in channels.iter().enumerate() {
        println!("channel {}: 0x{:016x}", i, lane);
    }

    // these values were chosen to match with the particular
    // values set above; changes to either will break the test
    assert_eq!(channels[0], 0x8000000100000021);
    assert_eq!(channels[1], 0x8000000100000001);
    assert_eq!(channels[2], 0x8000000100000021);
    assert_eq!(channels[3], 0x0000000100000021);
}

#[test]
fn raw_quadboard_get_unchecked_is_correct() {
    let mut rqb = RawQuadboard::default();

    rqb.set_unchecked(17, Nibble::try_from(0b1111).unwrap());
    rqb.set_unchecked(3, Nibble::try_from(0b1001).unwrap());
    rqb.set_unchecked(38, Nibble::try_from(0b0100).unwrap());

    assert_eq!(0b1111, rqb.get_unchecked(17).get());
    assert_eq!(0b1001, rqb.get_unchecked(3).get());
    assert_eq!(0b0100, rqb.get_unchecked(38).get());
}

#[test]
fn set_then_get_round_trips_at_every_slot() {
    let mut rqb = RawQuadboard::default();
    for i in 0..64u8 {
        for v in 0..16u8 {
            rqb.set_unchecked(i, Nibble::try_from(v).unwrap());
            assert_eq!(rqb.get_unchecked(i).get(), v);
        }
    }
}

#[test]
fn writes_do_not_disturb_other_slots() {
    for i in 0..64u8 {
        for j in 0..64u8 {
            if i == j {
                continue;
            }
            for v in 0..16u8 {
                for w in 0..16u8 {
                    let mut rqb = RawQuadboard::default();
                    rqb.set_unchecked(i, Nibble::try_from(v).unwrap());
                    rqb.set_unchecked(j, Nibble::try_from(w).unwrap());
                    assert_eq!(rqb.get_unchecked(i).get(), v);
                    assert_eq!(rqb.get_unchecked(j).get(), w);
                }
            }
        }
    }
}

#[test]
fn splat_fills_every_slot_uniformly() {
    for v in 0..16u8 {
        let rqb = RawQuadboard::splat(Nibble::try_from(v).unwrap());
        for i in 0..64u8 {
            assert_eq!(rqb.get_unchecked(i).get(), v);
        }
    }
}

#[test]
fn default_reads_zero_at_every_slot() {
    let rqb = RawQuadboard::default();
    for i in 0..64u8 {
        assert_eq!(rqb.get_unchecked(i).get(), 0);
    }
}

#[test]
fn checked_get_and_set_agree_with_unchecked() {
    let mut a = RawQuadboard::default();
    let mut b = RawQuadboard::default();
    for v in 0..64u8 {
        let index = Index::try_from(v).unwrap();
        let nibble = Nibble::try_from(v % 16).unwrap();
        a.set(index, nibble);
        b.set_unchecked(v, nibble);
        assert_eq!(a.get(index).get(), b.get_unchecked(v).get());
    }
    assert_eq!(a.into_channels(), b.into_channels());
}

#[test]
fn as_channels_matches_into_channels() {
    let mut rqb = RawQuadboard::default();
    rqb.set_unchecked(9, Nibble::try_from(0b1010).unwrap());
    assert_eq!(*rqb.as_channels(), rqb.into_channels());
}
