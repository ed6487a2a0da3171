use quadboard::index::Index;
use quadboard::index::InvalidIndexError;

#[test]
fn niche_value_optimisation_applies_to_index() {
    assert_eq!(
        std::mem::size_of::<Option<Index>>(),
        std::mem::size_of::<Index>()
    )
}

#[test]
fn index_validity_agrees_with_comparison_over_whole_domain() {
    for v in 0..=255u8 {
        assert_eq!(Index::is_valid_index(v), v < 64);
        assert_eq!(Index::try_from(v).is_ok(), v < 64);
    }
}

#[test]
fn index_round_trips_through_u8() {
    for v in 0..64u8 {
        let index = Index::try_from(v).unwrap();
        assert_eq!(index.get(), v);
        assert_eq!(u8::from(index), v);
        assert_eq!(index, Index::new_unchecked(v));
    }
}

#[test]
fn index_construction_fails_above_63() {
    assert!(matches!(Index::try_from(64), Err(InvalidIndexError)));
    assert!(matches!(Index::try_from(255), Err(InvalidIndexError)));
}

#[test]
fn index_min_and_max_bound_the_range() {
    assert_eq!(Index::min().get(), 0);
    assert_eq!(Index::max().get(), 63);
    assert!(Index::min() <= Index::max());
}
