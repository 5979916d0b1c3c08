//! Walking a range page by page.
//!
//! A scan opens a cursor over a range, skips as many records as its offset
//! says, and then takes record after record until it has as many as its
//! limit says or the cursor is exhausted. The cursor belongs to the storage
//! engine, and every move of it is a request that the caller has to wait
//! for. So the scan is split: [`ScanPlan`] decides what is done next, and
//! the caller does it and reports what came of it.

use vstd::prelude::*;
use crate::cursor::{direction_or_default, place_after, Cursor, Direction};

verus! {

/// What the caller reports to a scan.
#[derive(Clone, Copy, Debug, PartialEq, Eq, Structural)]
pub enum ScanEvent {
    /// The cursor stands at a record.
    Positioned,
    /// There is no cursor, or it is exhausted.
    Exhausted,
    /// The record at the cursor was taken into the result.
    Taken,
}

/// What a scan asks the caller to do.
#[derive(Clone, Copy, Debug, PartialEq, Eq, Structural)]
pub enum ScanAction {
    /// Move the cursor on by so many records, and report where it stands.
    Advance(u32),
    /// Take the record at the cursor into the result, and report that.
    Take,
    /// Stop: the result is complete.
    Finish,
}

/// How far a scan has come.
#[derive(Clone, Copy, Debug, PartialEq, Eq, Structural)]
pub enum ScanPhase {
    /// The cursor is being opened.
    Opening,
    /// The cursor is being moved past the records of the offset.
    Skipping,
    /// The record at the cursor is being taken.
    Taking,
    /// The cursor is being moved to the next record.
    Advancing,
    /// The result is complete.
    Finished,
}

/// The state of a scan.
#[derive(Clone, Copy, Debug, PartialEq, Eq, Structural)]
pub struct ScanPlan {
    /// The number of records to skip at the start, if any.
    pub offset: Option<u32>,
    /// The number of records that may still be taken, if limited.
    pub remaining: Option<u32>,
    /// How far the scan has come.
    pub phase: ScanPhase,
}

impl ScanPlan {
    /// The scan waits for the event `event`.
    pub open spec fn spec_accepts(self, event: ScanEvent) -> bool {
        match self.phase {
            ScanPhase::Opening | ScanPhase::Skipping | ScanPhase::Advancing => event
                != ScanEvent::Taken,
            ScanPhase::Taking => event == ScanEvent::Taken && self.remaining != Some(0u32),
            ScanPhase::Finished => false,
        }
    }

    /// What a scan does at a record: it takes the record, unless it may
    /// take no more.
    pub open spec fn spec_at_record(self) -> (ScanPlan, ScanAction) {
        if self.remaining == Some(0u32) {
            (ScanPlan { phase: ScanPhase::Finished, ..self }, ScanAction::Finish)
        } else {
            (ScanPlan { phase: ScanPhase::Taking, ..self }, ScanAction::Take)
        }
    }

    /// The state after the event `event`, and what is to be done next.
    ///
    /// A scan stops as soon as the cursor is exhausted. At the first record
    /// it skips the records of its offset, if it has one that is not zero.
    /// At every record after that it takes the record, and moves on by one
    /// unless it has reached its limit.
    pub open spec fn spec_step(self, event: ScanEvent) -> (ScanPlan, ScanAction) {
        match self.phase {
            ScanPhase::Taking => {
                let remaining = match self.remaining {
                    Some(n) => Some((n - 1) as u32),
                    None => None,
                };
                if remaining == Some(0u32) {
                    (ScanPlan { remaining, phase: ScanPhase::Finished, ..self }, ScanAction::Finish)
                } else {
                    (
                        ScanPlan { remaining, phase: ScanPhase::Advancing, ..self },
                        ScanAction::Advance(1),
                    )
                }
            },
            _ => {
                if event == ScanEvent::Exhausted {
                    (ScanPlan { phase: ScanPhase::Finished, ..self }, ScanAction::Finish)
                } else if self.phase == ScanPhase::Opening && self.offset is Some
                    && self.offset->Some_0 > 0 {
                    (
                        ScanPlan { phase: ScanPhase::Skipping, ..self },
                        ScanAction::Advance(self.offset->Some_0),
                    )
                } else {
                    self.spec_at_record()
                }
            },
        }
    }

    /// A scan that takes `limit` records at most, after skipping `offset`
    /// records. It waits for the cursor to be opened.
    pub fn new(limit: Option<u32>, offset: Option<u32>) -> (out: ScanPlan)
        ensures
            out == (ScanPlan { offset, remaining: limit, phase: ScanPhase::Opening }),
    {
        ScanPlan { offset, remaining: limit, phase: ScanPhase::Opening }
    }

    /// Whether the scan waits for the event `event`.
    pub fn accepts(&self, event: ScanEvent) -> (out: bool)
        ensures
            out == self.spec_accepts(event),
    {
        match self.phase {
            ScanPhase::Opening | ScanPhase::Skipping | ScanPhase::Advancing => event
                != ScanEvent::Taken,
            ScanPhase::Taking => {
                let none_left = match self.remaining {
                    Some(n) => n == 0,
                    None => false,
                };
                event == ScanEvent::Taken && !none_left
            },
            ScanPhase::Finished => false,
        }
    }

    /// Whether the result is complete.
    pub fn is_finished(&self) -> (out: bool)
        ensures
            out == (self.phase == ScanPhase::Finished),
    {
        self.phase == ScanPhase::Finished
    }

    /// Takes note of what the caller reports, and says what is to be done next.
    pub fn step(&mut self, event: ScanEvent) -> (action: ScanAction)
        requires
            old(self).spec_accepts(event),
        ensures
            (*final(self), action) == old(self).spec_step(event),
    {
        match self.phase {
            ScanPhase::Taking => {
                if let Some(n) = self.remaining {
                    self.remaining = Some(n - 1);
                }
                let none_left = match self.remaining {
                    Some(n) => n == 0,
                    None => false,
                };
                if none_left {
                    self.phase = ScanPhase::Finished;
                    ScanAction::Finish
                } else {
                    self.phase = ScanPhase::Advancing;
                    ScanAction::Advance(1)
                }
            },
            _ => {
                if event == ScanEvent::Exhausted {
                    self.phase = ScanPhase::Finished;
                    return ScanAction::Finish;
                }
                if self.phase == ScanPhase::Opening {
                    if let Some(n) = self.offset {
                        if n > 0 {
                            self.phase = ScanPhase::Skipping;
                            return ScanAction::Advance(n);
                        }
                    }
                }
                let none_left = match self.remaining {
                    Some(n) => n == 0,
                    None => false,
                };
                if none_left {
                    self.phase = ScanPhase::Finished;
                    ScanAction::Finish
                } else {
                    self.phase = ScanPhase::Taking;
                    ScanAction::Take
                }
            },
        }
    }
}

/// The number of records that a scan skips.
pub open spec fn skipped(offset: Option<u32>) -> int {
    match offset {
        Some(n) => n as int,
        None => 0,
    }
}

/// The number of records that a scan over `len` records yields: those
/// after the ones it skips, up to its limit.
pub open spec fn scan_len(len: int, limit: Option<u32>, offset: Option<u32>) -> int {
    let ahead = if skipped(offset) >= len {
        0
    } else {
        len - skipped(offset)
    };
    match limit {
        Some(n) => if n <= ahead {
            n as int
        } else {
            ahead
        },
        None => ahead,
    }
}

/// The places, in ascending order of the records, that a scan over `len`
/// records yields, in the order in which it yields them.
pub open spec fn spec_scan_keys(
    len: int,
    direction: Direction,
    limit: Option<u32>,
    offset: Option<u32>,
) -> Seq<int> {
    Seq::new(
        scan_len(len, limit, offset) as nat,
        |i: int| place_after(len, direction, skipped(offset) + i),
    )
}

/// The records that a scan over the records `items` yields, in the order in
/// which it yields them.
pub open spec fn spec_scan<T>(
    items: Seq<T>,
    direction: Direction,
    limit: Option<u32>,
    offset: Option<u32>,
) -> Seq<T> {
    spec_scan_keys(items.len() as int, direction, limit, offset).map_values(|p: int| items[p])
}

/// The places of a list as mathematical integers.
pub open spec fn places_view(places: Seq<usize>) -> Seq<int> {
    places.map_values(|p: usize| p as int)
}

/// What ties the state of a scan to the cursor and to the result so far.
pub open spec fn scan_invariant(
    plan: ScanPlan,
    action: ScanAction,
    cursor: Cursor,
    taken: Seq<usize>,
    limit: Option<u32>,
    offset: Option<u32>,
) -> bool {
    let len = cursor.len() as int;
    let start = skipped(offset);
    &&& plan.offset == offset
    &&& cursor.steps() <= cursor.len()
    &&& match limit {
        Some(n) => taken.len() <= n && plan.remaining == Some((n - taken.len()) as u32),
        None => plan.remaining is None,
    }
    &&& forall|i: int|
        0 <= i < taken.len() ==> (#[trigger] taken[i]) as int == place_after(
            len,
            cursor.spec_direction(),
            start + i,
        )
    &&& match action {
        ScanAction::Advance(n) => {
            &&& !cursor.spec_exhausted()
            &&& n > 0
            &&& if plan.phase == ScanPhase::Skipping {
                n as int == start && cursor.steps() == 0 && taken.len() == 0
            } else {
                plan.phase == ScanPhase::Advancing && n == 1 && cursor.steps() + 1 == start
                    + taken.len()
            }
        },
        ScanAction::Take => {
            &&& plan.phase == ScanPhase::Taking
            &&& plan.remaining != Some(0u32)
            &&& !cursor.spec_exhausted()
            &&& cursor.steps() == start + taken.len()
        },
        ScanAction::Finish => taken.len() == scan_len(len, limit, offset),
    }
}

/// Scans a range of `len` records for the places of its records.
///
/// Gives the places, in ascending order of the records, of the records that
/// the scan yields, in the order in which it yields them: forward from the
/// first place, or backward from the last; without the first `offset`
/// records of the walk; `limit` records at most.
pub fn scan_keys(
    len: usize,
    direction: Option<Direction>,
    limit: Option<u32>,
    offset: Option<u32>,
) -> (out: Vec<usize>)
    ensures
        places_view(out@) == spec_scan_keys(
            len as int,
            direction_or_default(direction),
            limit,
            offset,
        ),
        forall|i: int| 0 <= i < out@.len() ==> (#[trigger] out@[i]) < len,
{
    let mut plan = ScanPlan::new(limit, offset);
    let mut out: Vec<usize> = Vec::new();
    let mut cursor = match Cursor::open(len, direction) {
        Some(cursor) => cursor,
        None => {
            let _ = plan.step(ScanEvent::Exhausted);
            proof {
                assert(places_view(out@) =~= spec_scan_keys(
                    len as int,
                    direction_or_default(direction),
                    limit,
                    offset,
                ));
            }
            return out;
        },
    };
    let mut action = plan.step(ScanEvent::Positioned);
    loop
        invariant
            cursor.len() == len,
            cursor.spec_direction() == direction_or_default(direction),
            scan_invariant(plan, action, cursor, out@, limit, offset),
            forall|i: int| 0 <= i < out@.len() ==> (#[trigger] out@[i]) < len,
        ensures
            action == ScanAction::Finish,
            cursor.len() == len,
            cursor.spec_direction() == direction_or_default(direction),
            scan_invariant(plan, action, cursor, out@, limit, offset),
            forall|i: int| 0 <= i < out@.len() ==> (#[trigger] out@[i]) < len,
        decreases 2 * (len - cursor.steps()) + (if action == ScanAction::Take { 1int } else { 0int }),
    {
        let event = match action {
            ScanAction::Finish => {
                break ;
            },
            ScanAction::Advance(count) => {
                cursor.advance(count);
                if cursor.is_exhausted() {
                    ScanEvent::Exhausted
                } else {
                    ScanEvent::Positioned
                }
            },
            ScanAction::Take => {
                match cursor.key() {
                    Some(place) => {
                        out.push(place);
                    },
                    None => {},
                }
                ScanEvent::Taken
            },
        };
        action = plan.step(event);
    }
    proof {
        assert(places_view(out@) =~= spec_scan_keys(
            len as int,
            direction_or_default(direction),
            limit,
            offset,
        ));
    }
    out
}

/// Scans the records `items`, which stand in ascending order of their keys.
///
/// Gives the records that the scan yields, in the order in which it yields
/// them: forward from the first record, or backward from the last; without
/// the first `offset` records of the walk; `limit` records at most.
pub fn scan<T: Copy>(
    items: &Vec<T>,
    direction: Option<Direction>,
    limit: Option<u32>,
    offset: Option<u32>,
) -> (out: Vec<T>)
    ensures
        out@ == spec_scan(items@, direction_or_default(direction), limit, offset),
{
    let places = scan_keys(items.len(), direction, limit, offset);
    let mut out: Vec<T> = Vec::new();
    let mut i: usize = 0;
    while i < places.len()
        invariant
            i <= places.len(),
            out.len() == i,
            forall|j: int| 0 <= j < places@.len() ==> (#[trigger] places@[j]) < items.len(),
            forall|j: int| 0 <= j < i ==> out@[j] == items@[places@[j] as int],
        decreases places.len() - i,
    {
        out.push(items[places[i]]);
        i += 1;
    }
    proof {
        let keys = spec_scan_keys(
            items@.len() as int,
            direction_or_default(direction),
            limit,
            offset,
        );
        assert(places_view(places@) == keys);
        assert forall|j: int| 0 <= j < out@.len() implies out@[j] == items@[keys[j]] by {
            assert(places_view(places@)[j] == places@[j] as int);
        }
        assert(out@ =~= spec_scan(items@, direction_or_default(direction), limit, offset));
    }
    out
}

/// The records in the order in which a walk in the given direction meets them.
pub open spec fn walk<T>(items: Seq<T>, direction: Direction) -> Seq<T> {
    if direction.spec_is_backward() {
        items.reverse()
    } else {
        items
    }
}

/// A scan yields a page of the walk: the records of the walk in its
/// direction, without those that the offset skips, cut off at the limit.
pub proof fn lemma_scan_is_page<T>(
    items: Seq<T>,
    direction: Direction,
    limit: Option<u32>,
    offset: Option<u32>,
)
    ensures
        spec_scan(items, direction, limit, offset).len() == scan_len(
            items.len() as int,
            limit,
            offset,
        ),
        skipped(offset) <= items.len() ==> spec_scan(items, direction, limit, offset) == walk(
            items,
            direction,
        ).skip(skipped(offset)).take(scan_len(items.len() as int, limit, offset)),
        skipped(offset) > items.len() ==> spec_scan(items, direction, limit, offset).len() == 0,
{
    if skipped(offset) <= items.len() {
        assert(spec_scan(items, direction, limit, offset) =~= walk(items, direction).skip(
            skipped(offset),
        ).take(scan_len(items.len() as int, limit, offset)));
    }
}

/// A scan of a whole range forward yields its records in ascending order,
/// and a scan backward yields the same records in the reverse order.
pub proof fn lemma_backward_is_reverse<T>(items: Seq<T>)
    ensures
        spec_scan(items, Direction::Next, None, None) == items,
        spec_scan(items, Direction::Prev, None, None) == spec_scan(
            items,
            Direction::Next,
            None,
            None,
        ).reverse(),
{
    assert(spec_scan(items, Direction::Next, None, None) =~= items);
    assert(spec_scan(items, Direction::Prev, None, None) =~= items.reverse());
}

/// Pages that follow each other make up the walk: the page after the first
/// `first` records, and the page of the first `first` records before it,
/// give the first `first + second` records together.
pub proof fn lemma_pages_follow<T>(items: Seq<T>, direction: Direction, first: u32, second: u32)
    requires
        first + second <= u32::MAX,
    ensures
        spec_scan(items, direction, Some(first), None) + spec_scan(
            items,
            direction,
            Some(second),
            Some(first),
        ) == spec_scan(items, direction, Some((first + second) as u32), None),
{
    assert(spec_scan(items, direction, Some(first), None) + spec_scan(
        items,
        direction,
        Some(second),
        Some(first),
    ) =~= spec_scan(items, direction, Some((first + second) as u32), None));
}

/// Each key of the list is smaller than the ones after it.
pub open spec fn ascending(keys: Seq<u64>) -> bool {
    forall|i: int, j: int| 0 <= i < j < keys.len() ==> keys[i] < keys[j]
}

/// Each key of the list is greater than the ones after it.
pub open spec fn descending(keys: Seq<u64>) -> bool {
    forall|i: int, j: int| 0 <= i < j < keys.len() ==> keys[i] > keys[j]
}

/// A forward scan over keys in ascending order yields keys in ascending
/// order, and a backward scan yields keys in descending order.
pub proof fn lemma_scan_keeps_order(
    keys: Seq<u64>,
    direction: Direction,
    limit: Option<u32>,
    offset: Option<u32>,
)
    requires
        ascending(keys),
    ensures
        !direction.spec_is_backward() ==> ascending(spec_scan(keys, direction, limit, offset)),
        direction.spec_is_backward() ==> descending(spec_scan(keys, direction, limit, offset)),
{
    let out = spec_scan(keys, direction, limit, offset);
    let places = spec_scan_keys(keys.len() as int, direction, limit, offset);
    assert forall|i: int, j: int| 0 <= i < j < out.len() implies (if direction.spec_is_backward() {
        out[i] > out[j]
    } else {
        out[i] < out[j]
    }) by {
        assert(out[i] == keys[places[i]]);
        assert(out[j] == keys[places[j]]);
        if direction.spec_is_backward() {
            assert(0 <= places[j] < places[i] < keys.len());
        } else {
            assert(0 <= places[i] < places[j] < keys.len());
        }
    }
}

/// Picking keys out of a list in ascending order leaves them in ascending
/// order, and every key picked is a key of the list.
pub proof fn lemma_filter_keeps_order(keys: Seq<u64>, pred: spec_fn(u64) -> bool)
    requires
        ascending(keys),
    ensures
        ascending(keys.filter(pred)),
        forall|k: int|
            0 <= k < keys.filter(pred).len() ==> keys.contains(#[trigger] keys.filter(pred)[k]),
    decreases keys.len(),
{
    reveal(Seq::filter);
    if keys.len() > 0 {
        let rest = keys.drop_last();
        let last = keys.last();
        lemma_filter_keeps_order(rest, pred);
        let picked = keys.filter(pred);
        let before = rest.filter(pred);
        assert forall|k: int| 0 <= k < before.len() implies before[k] < last && keys.contains(
            #[trigger] before[k],
        ) by {
            assert(rest.contains(before[k]));
            let i = choose|i: int| 0 <= i < rest.len() && rest[i] == before[k];
            assert(keys[i] == before[k]);
            assert(keys[i] < keys[keys.len() - 1]);
        }
        assert forall|k: int| 0 <= k < picked.len() implies keys.contains(#[trigger] picked[k]) by {
            if k < before.len() {
                assert(picked[k] == before[k]);
            } else {
                assert(picked[k] == keys[keys.len() - 1]);
            }
        }
        assert forall|i: int, j: int| 0 <= i < j < picked.len() implies picked[i] < picked[j] by {
            if j < before.len() {
                assert(picked[i] == before[i] && picked[j] == before[j]);
            } else {
                assert(picked[i] == before[i]);
            }
        }
    }
}

/// A forward scan of the keys that a query finds among keys in ascending
/// order yields keys in ascending order; a backward scan yields them in
/// descending order.
pub proof fn lemma_scan_of_selection_keeps_order(
    keys: Seq<u64>,
    pred: spec_fn(u64) -> bool,
    direction: Direction,
    limit: Option<u32>,
    offset: Option<u32>,
)
    requires
        ascending(keys),
    ensures
        !direction.spec_is_backward() ==> ascending(
            spec_scan(keys.filter(pred), direction, limit, offset),
        ),
        direction.spec_is_backward() ==> descending(
            spec_scan(keys.filter(pred), direction, limit, offset),
        ),
{
    lemma_filter_keeps_order(keys, pred);
    lemma_scan_keeps_order(keys.filter(pred), direction, limit, offset);
}

} // verus!
