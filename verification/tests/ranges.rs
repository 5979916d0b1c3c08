use deli::{
    finds, select, BoundedRange, EngineKeyRange, Error, KeyRange, KeyRangeInner, Query, RangeType,
    UnboundedRange,
};

fn bounds(lower: Option<u32>, upper: Option<u32>, lower_open: bool, upper_open: bool) -> Query<u32> {
    Query::KeyRange(EngineKeyRange { lower, upper, lower_open, upper_open })
}

#[test]
fn single_key_is_an_exact_match() {
    let range: KeyRange<u32, BoundedRange> = KeyRange::single(7);
    assert_eq!(range.into_key_query(), Query::Key(7));
    let range: KeyRange<u32, UnboundedRange> = KeyRange::single(7);
    assert_eq!(range.into_query(), Some(Query::Key(7)));
}

#[test]
fn half_open_range_excludes_its_end() {
    let range: KeyRange<u32, BoundedRange> = KeyRange::range(2, 5);
    assert_eq!(range.into_key_query(), bounds(Some(2), Some(5), false, true));
}

#[test]
fn inclusive_range_includes_both_ends() {
    let range: KeyRange<u32, BoundedRange> = KeyRange::range_inclusive(2, 5);
    assert!(range.is_bounded());
    assert_eq!(range.into_key_query(), bounds(Some(2), Some(5), false, false));
}

#[test]
fn ranges_with_one_bound() {
    assert_eq!(
        KeyRange::<u32, UnboundedRange>::range_from(2).into_query(),
        Some(bounds(Some(2), None, false, false))
    );
    assert_eq!(
        KeyRange::<u32, UnboundedRange>::range_to(5).into_query(),
        Some(bounds(None, Some(5), false, true))
    );
    assert_eq!(
        KeyRange::<u32, UnboundedRange>::range_to_inclusive(5).into_query(),
        Some(bounds(None, Some(5), false, false))
    );
    assert!(!KeyRange::<u32, UnboundedRange>::range_from(2).is_bounded());
}

#[test]
fn full_range_is_no_filter() {
    assert_eq!(KeyRange::<u32, UnboundedRange>::full().into_query(), None);
    assert_eq!(KeyRangeInner::<u32>::RangeFull.into_query(), None);
}

#[test]
fn bounded_operations_refuse_open_ranges() {
    let open = [
        KeyRangeInner::RangeFrom { start: 1u32 },
        KeyRangeInner::RangeTo { end: 1 },
        KeyRangeInner::RangeToInclusive { end: 1 },
        KeyRangeInner::RangeFull,
    ];
    for shape in open {
        assert!(!shape.is_bounded());
        let refused = KeyRange::<u32, BoundedRange>::from(shape.clone());
        assert_eq!(refused.err(), Some(Error::FullKeyRangeNotAllowed));
        assert!(KeyRange::<u32, UnboundedRange>::from(shape).is_ok());
    }
    let closed = [
        KeyRangeInner::Single(1u32),
        KeyRangeInner::Range { start: 1, end: 2 },
        KeyRangeInner::RangeInclusive { start: 1, end: 2 },
    ];
    for shape in closed {
        assert!(shape.is_bounded());
        let range = KeyRange::<u32, BoundedRange>::from(shape.clone()).unwrap();
        assert_eq!(Some(range.into_key_query()), shape.into_query());
    }
}

#[test]
fn range_types() {
    assert!(!BoundedRange::allows_open());
    assert!(UnboundedRange::allows_open());
    assert_eq!(Error::FullKeyRangeNotAllowed.message(), "full key range not allowed");
}

#[test]
fn bounds_keep_their_values() {
    let range: KeyRange<String, BoundedRange> =
        KeyRange::range_inclusive("a@x.com".to_string(), "b@x.com".to_string());
    match range.into_key_query() {
        Query::KeyRange(r) => {
            assert_eq!(r.lower.as_deref(), Some("a@x.com"));
            assert_eq!(r.upper.as_deref(), Some("b@x.com"));
        }
        Query::Key(_) => panic!("a range gives a range query"),
    }
}

#[test]
fn inclusive_range_holds_its_end_and_half_open_range_does_not() {
    let inclusive = KeyRangeInner::RangeInclusive { start: 2u64, end: 5 };
    assert!(inclusive.contains(2));
    assert!(inclusive.contains(5));
    assert!(!inclusive.contains(1));
    assert!(!inclusive.contains(6));
    let half_open = KeyRangeInner::Range { start: 2u64, end: 5 };
    assert!(half_open.contains(2));
    assert!(half_open.contains(4));
    assert!(!half_open.contains(5));
    assert!(KeyRangeInner::Single(3u64).contains(3));
    assert!(!KeyRangeInner::Single(3u64).contains(4));
    assert!(KeyRangeInner::RangeFrom { start: 3u64 }.contains(u64::MAX));
    assert!(!KeyRangeInner::RangeFrom { start: 3u64 }.contains(2));
    assert!(KeyRangeInner::RangeTo { end: 3u64 }.contains(0));
    assert!(!KeyRangeInner::RangeTo { end: 3u64 }.contains(3));
    assert!(KeyRangeInner::RangeToInclusive { end: 3u64 }.contains(3));
    assert!(KeyRangeInner::<u64>::RangeFull.contains(7));
}

#[test]
fn query_finds_the_keys_of_its_range() {
    let shapes = [
        KeyRangeInner::Single(3u64),
        KeyRangeInner::Range { start: 2, end: 5 },
        KeyRangeInner::RangeInclusive { start: 2, end: 5 },
        KeyRangeInner::RangeFrom { start: 4 },
        KeyRangeInner::RangeTo { end: 4 },
        KeyRangeInner::RangeToInclusive { end: 4 },
        KeyRangeInner::RangeFull,
    ];
    for shape in shapes {
        let query = shape.clone().into_query();
        for key in 0..8u64 {
            assert_eq!(finds(&query, key), shape.contains(key));
        }
    }
}

#[test]
fn adjacent_ranges_tile() {
    let left = KeyRangeInner::Range { start: 1u64, end: 4 };
    let right = KeyRangeInner::Range { start: 4u64, end: 9 };
    let whole = KeyRangeInner::Range { start: 1u64, end: 9 };
    for key in 0..12u64 {
        assert_eq!(whole.contains(key), left.contains(key) || right.contains(key));
        assert!(!(left.contains(key) && right.contains(key)));
    }
}

#[test]
fn engine_interval_bounds() {
    let open = EngineKeyRange { lower: Some(2u64), upper: Some(5u64), lower_open: true, upper_open: true };
    assert!(!open.includes(2));
    assert!(open.includes(3));
    assert!(!open.includes(5));
    let closed =
        EngineKeyRange { lower: Some(2u64), upper: Some(5u64), lower_open: false, upper_open: false };
    assert!(closed.includes(2));
    assert!(closed.includes(5));
    let unbounded = EngineKeyRange::<u64> { lower: None, upper: None, lower_open: false, upper_open: false };
    assert!(unbounded.includes(0));
}

#[test]
fn select_keeps_the_keys_of_the_range() {
    let keys: Vec<u64> = vec![1, 2, 3, 5, 8];
    let range: KeyRange<u64, UnboundedRange> = KeyRange::range(2, 8);
    assert_eq!(select(&keys, &range.into_query()), vec![2, 3, 5]);
    assert_eq!(select(&keys, &KeyRange::<u64, UnboundedRange>::full().into_query()), keys);
    assert_eq!(select(&keys, &Some(Query::Key(4))), Vec::<u64>::new());
}
