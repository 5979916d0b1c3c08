use deli::{
    scan, scan_keys, select, Cursor, Direction, KeyRange, ScanAction, ScanEvent, ScanPhase,
    ScanPlan, UnboundedRange,
};

#[test]
fn forward_scan_is_ascending() {
    assert_eq!(scan(&vec![1, 2, 3], Some(Direction::Next), None, None), vec![1, 2, 3]);
    assert_eq!(scan(&vec![1, 2, 3], None, None, None), vec![1, 2, 3]);
}

#[test]
fn backward_scan_is_descending() {
    assert_eq!(scan(&vec![1, 2, 3], Some(Direction::Prev), None, None), vec![3, 2, 1]);
    assert_eq!(scan(&vec![1, 2, 3], Some(Direction::PrevUnique), None, None), vec![3, 2, 1]);
}

#[test]
fn backward_scan_reverses_forward_scan() {
    let items: Vec<u64> = (0..50).map(|i| i * 3).collect();
    let mut forward = scan(&items, Some(Direction::Next), None, None);
    forward.reverse();
    assert_eq!(scan(&items, Some(Direction::Prev), None, None), forward);
}

#[test]
fn scan_with_limit_and_offset() {
    assert_eq!(scan(&vec![1, 2, 3], Some(Direction::Next), Some(1), Some(1)), vec![2]);
    assert_eq!(scan(&vec![1, 2, 3], Some(Direction::Prev), Some(1), Some(1)), vec![2]);
    assert_eq!(scan(&vec![1, 2, 3, 4], Some(Direction::Prev), Some(2), Some(1)), vec![3, 2]);
    assert_eq!(scan(&vec![1, 2, 3], Some(Direction::Next), Some(2), None), vec![1, 2]);
    assert_eq!(scan(&vec![1, 2, 3], Some(Direction::Next), None, Some(2)), vec![3]);
    assert_eq!(scan(&vec![1, 2, 3], Some(Direction::Next), Some(10), Some(1)), vec![2, 3]);
}

#[test]
fn scan_edges() {
    assert_eq!(scan(&vec![1, 2, 3], None, None, Some(3)), Vec::<i32>::new());
    assert_eq!(scan(&vec![1, 2, 3], None, None, Some(100)), Vec::<i32>::new());
    assert_eq!(scan(&vec![1, 2, 3], None, Some(0), None), Vec::<i32>::new());
    assert_eq!(scan(&vec![1, 2, 3], None, Some(0), Some(1)), Vec::<i32>::new());
    assert_eq!(scan(&vec![1, 2, 3], None, Some(3), Some(0)), vec![1, 2, 3]);
    assert_eq!(scan(&Vec::<i32>::new(), None, None, None), Vec::<i32>::new());
    assert_eq!(scan(&Vec::<i32>::new(), Some(Direction::Prev), Some(2), Some(1)), Vec::<i32>::new());
    assert_eq!(scan(&vec![9], None, Some(u32::MAX), Some(u32::MAX)), Vec::<i32>::new());
}

#[test]
fn scan_keys_gives_places() {
    assert_eq!(scan_keys(4, Some(Direction::Next), None, None), vec![0, 1, 2, 3]);
    assert_eq!(scan_keys(4, Some(Direction::Prev), None, None), vec![3, 2, 1, 0]);
    assert_eq!(scan_keys(4, Some(Direction::NextUnique), Some(2), Some(1)), vec![1, 2]);
    assert_eq!(scan_keys(0, None, None, None), Vec::<usize>::new());
}

#[test]
fn pages_follow_each_other() {
    let items: Vec<u32> = (10..20).collect();
    let mut pages = scan(&items, None, Some(4), None);
    pages.extend(scan(&items, None, Some(3), Some(4)));
    assert_eq!(pages, scan(&items, None, Some(7), None));
}

#[test]
fn plan_skips_then_takes() {
    let mut plan = ScanPlan::new(Some(2), Some(3));
    assert_eq!(plan.phase, ScanPhase::Opening);
    assert!(plan.accepts(ScanEvent::Positioned));
    assert!(!plan.accepts(ScanEvent::Taken));
    assert_eq!(plan.step(ScanEvent::Positioned), ScanAction::Advance(3));
    assert_eq!(plan.phase, ScanPhase::Skipping);
    assert_eq!(plan.step(ScanEvent::Positioned), ScanAction::Take);
    assert!(plan.accepts(ScanEvent::Taken));
    assert!(!plan.accepts(ScanEvent::Positioned));
    assert_eq!(plan.step(ScanEvent::Taken), ScanAction::Advance(1));
    assert_eq!(plan.remaining, Some(1));
    assert_eq!(plan.step(ScanEvent::Positioned), ScanAction::Take);
    assert_eq!(plan.step(ScanEvent::Taken), ScanAction::Finish);
    assert!(plan.is_finished());
    assert!(!plan.accepts(ScanEvent::Positioned));
    assert!(!plan.accepts(ScanEvent::Exhausted));
}

#[test]
fn plan_stops_when_the_cursor_is_exhausted() {
    let mut plan = ScanPlan::new(None, None);
    assert_eq!(plan.step(ScanEvent::Exhausted), ScanAction::Finish);
    let mut plan = ScanPlan::new(None, Some(5));
    assert_eq!(plan.step(ScanEvent::Positioned), ScanAction::Advance(5));
    assert_eq!(plan.step(ScanEvent::Exhausted), ScanAction::Finish);
    let mut plan = ScanPlan::new(None, Some(0));
    assert_eq!(plan.step(ScanEvent::Positioned), ScanAction::Take);
    assert_eq!(plan.step(ScanEvent::Taken), ScanAction::Advance(1));
    assert_eq!(plan.step(ScanEvent::Exhausted), ScanAction::Finish);
    let mut plan = ScanPlan::new(Some(0), None);
    assert_eq!(plan.step(ScanEvent::Positioned), ScanAction::Finish);
}

#[test]
fn cursor_walks_in_its_direction() {
    assert!(Cursor::open(0, None).is_none());
    let mut cursor = Cursor::open(5, None).unwrap();
    assert_eq!(cursor.direction(), Direction::Next);
    assert_eq!(cursor.key(), Some(0));
    cursor.advance(2);
    assert_eq!(cursor.key(), Some(2));
    cursor.next(None);
    assert_eq!(cursor.key(), Some(3));
    cursor.next(Some(4));
    assert_eq!(cursor.key(), Some(4));
    assert!(!cursor.is_exhausted());
    cursor.advance(1);
    assert!(cursor.is_exhausted());
    assert_eq!(cursor.key(), None);

    let mut cursor = Cursor::open(5, Some(Direction::Prev)).unwrap();
    assert_eq!(cursor.key(), Some(4));
    cursor.advance(3);
    assert_eq!(cursor.key(), Some(1));
    cursor.next(Some(0));
    assert_eq!(cursor.key(), Some(0));
    cursor.advance(7);
    assert!(cursor.is_exhausted());
    assert!(Direction::Prev.is_backward());
    assert!(!Direction::NextUnique.is_backward());
}

#[test]
fn scan_of_a_store_with_three_keys() {
    let store: Vec<u64> = vec![1, 2, 3];
    let unbounded = || KeyRange::<u64, UnboundedRange>::full().into_query();
    let matching = select(&store, &unbounded());
    assert_eq!(scan(&matching, Some(Direction::Next), None, None), vec![1, 2, 3]);
    assert_eq!(scan(&matching, Some(Direction::Prev), None, None), vec![3, 2, 1]);
    assert_eq!(scan(&matching, Some(Direction::Next), Some(1), Some(1)), vec![2]);
    let from_two = select(&store, &KeyRange::<u64, UnboundedRange>::range_from(2).into_query());
    assert_eq!(scan(&from_two, Some(Direction::Prev), Some(1), None), vec![3]);
}
