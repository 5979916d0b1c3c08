//! Ranges of keys, and the queries that the engine makes of them.
//!
//! A range is a single key, an interval with one or two bounds, or all keys.
//! Some operations work on any range; others, such as reading or deleting a
//! record, only on a single key or an interval that is bounded at both ends.
//! The two are told apart in the type of the range, so that a range that is
//! open at an end cannot reach an operation of the second kind.

use vstd::prelude::*;
use core::marker::PhantomData;
use crate::error::Error;

verus! {

/// Keeps the set of range types closed.
pub trait Sealed {

}

/// Says which shapes a range may have.
pub trait RangeType: Sealed {
    /// Ranges of this type may be open at an end.
    spec fn spec_allows_open() -> bool;

    /// Whether ranges of this type may be open at an end.
    fn allows_open() -> (out: bool)
        ensures
            out == Self::spec_allows_open(),
    ;
}

/// Marks a range that is a single key or is bounded at both ends.
#[derive(Clone, Copy, Debug, PartialEq, Eq)]
pub struct BoundedRange;

/// Marks a range of any shape.
#[derive(Clone, Copy, Debug, PartialEq, Eq)]
pub struct UnboundedRange;

impl Sealed for BoundedRange {

}

impl Sealed for UnboundedRange {

}

impl RangeType for BoundedRange {
    open spec fn spec_allows_open() -> bool {
        false
    }

    fn allows_open() -> (out: bool) {
        false
    }
}

impl RangeType for UnboundedRange {
    open spec fn spec_allows_open() -> bool {
        true
    }

    fn allows_open() -> (out: bool) {
        true
    }
}

/// The shape of a range and its bounds.
#[derive(Clone, Debug, PartialEq, Eq)]
pub enum KeyRangeInner<K> {
    /// The key itself.
    Single(K),
    /// From `start`, up to `end` but without it.
    Range { start: K, end: K },
    /// From `start` up to `end`, both included.
    RangeInclusive { start: K, end: K },
    /// From `start` on.
    RangeFrom { start: K },
    /// Everything before `end`.
    RangeTo { end: K },
    /// Everything up to `end`, `end` included.
    RangeToInclusive { end: K },
    /// Every key.
    RangeFull,
}

/// An interval as the engine takes it: each bound may be absent, and a bound
/// that is there is open (the bound itself is left out) or closed.
#[derive(Clone, Debug, PartialEq, Eq)]
pub struct EngineKeyRange<K> {
    pub lower: Option<K>,
    pub upper: Option<K>,
    pub lower_open: bool,
    pub upper_open: bool,
}

/// What the engine is asked for: one key, or the keys of an interval.
#[derive(Clone, Debug, PartialEq, Eq)]
pub enum Query<K> {
    Key(K),
    KeyRange(EngineKeyRange<K>),
}

impl<K> KeyRangeInner<K> {
    /// The range is a single key or has both bounds.
    pub open spec fn spec_is_bounded(self) -> bool {
        self is Single || self is Range || self is RangeInclusive
    }

    /// The query for the range; none for the range of every key. A lower
    /// bound is always closed; an upper bound is closed where the range
    /// includes it.
    pub open spec fn spec_query(self) -> Option<Query<K>> {
        match self {
            KeyRangeInner::Single(key) => Some(Query::Key(key)),
            KeyRangeInner::Range { start, end } => Some(
                Query::KeyRange(
                    EngineKeyRange {
                        lower: Some(start),
                        upper: Some(end),
                        lower_open: false,
                        upper_open: true,
                    },
                ),
            ),
            KeyRangeInner::RangeInclusive { start, end } => Some(
                Query::KeyRange(
                    EngineKeyRange {
                        lower: Some(start),
                        upper: Some(end),
                        lower_open: false,
                        upper_open: false,
                    },
                ),
            ),
            KeyRangeInner::RangeFrom { start } => Some(
                Query::KeyRange(
                    EngineKeyRange {
                        lower: Some(start),
                        upper: None,
                        lower_open: false,
                        upper_open: false,
                    },
                ),
            ),
            KeyRangeInner::RangeTo { end } => Some(
                Query::KeyRange(
                    EngineKeyRange {
                        lower: None,
                        upper: Some(end),
                        lower_open: false,
                        upper_open: true,
                    },
                ),
            ),
            KeyRangeInner::RangeToInclusive { end } => Some(
                Query::KeyRange(
                    EngineKeyRange {
                        lower: None,
                        upper: Some(end),
                        lower_open: false,
                        upper_open: false,
                    },
                ),
            ),
            KeyRangeInner::RangeFull => None,
        }
    }

    /// The range holds the key `key`, where `rank` gives the place of a key
    /// in the order of keys.
    pub open spec fn spec_contains(self, rank: spec_fn(K) -> int, key: K) -> bool {
        match self {
            KeyRangeInner::Single(k) => rank(key) == rank(k),
            KeyRangeInner::Range { start, end } => rank(start) <= rank(key) < rank(end),
            KeyRangeInner::RangeInclusive { start, end } => rank(start) <= rank(key) <= rank(end),
            KeyRangeInner::RangeFrom { start } => rank(start) <= rank(key),
            KeyRangeInner::RangeTo { end } => rank(key) < rank(end),
            KeyRangeInner::RangeToInclusive { end } => rank(key) <= rank(end),
            KeyRangeInner::RangeFull => true,
        }
    }

    /// Whether the range is a single key or has both bounds.
    pub fn is_bounded(&self) -> (out: bool)
        ensures
            out == self.spec_is_bounded(),
    {
        match self {
            KeyRangeInner::Single(_) => true,
            KeyRangeInner::Range { .. } => true,
            KeyRangeInner::RangeInclusive { .. } => true,
            _ => false,
        }
    }

    /// Turns the range into the query for it; none for the range of every key.
    pub fn into_query(self) -> (out: Option<Query<K>>)
        ensures
            out == self.spec_query(),
    {
        match self {
            KeyRangeInner::Single(key) => Some(Query::Key(key)),
            KeyRangeInner::Range { start, end } => Some(
                Query::KeyRange(
                    EngineKeyRange {
                        lower: Some(start),
                        upper: Some(end),
                        lower_open: false,
                        upper_open: true,
                    },
                ),
            ),
            KeyRangeInner::RangeInclusive { start, end } => Some(
                Query::KeyRange(
                    EngineKeyRange {
                        lower: Some(start),
                        upper: Some(end),
                        lower_open: false,
                        upper_open: false,
                    },
                ),
            ),
            KeyRangeInner::RangeFrom { start } => Some(
                Query::KeyRange(
                    EngineKeyRange {
                        lower: Some(start),
                        upper: None,
                        lower_open: false,
                        upper_open: false,
                    },
                ),
            ),
            KeyRangeInner::RangeTo { end } => Some(
                Query::KeyRange(
                    EngineKeyRange {
                        lower: None,
                        upper: Some(end),
                        lower_open: false,
                        upper_open: true,
                    },
                ),
            ),
            KeyRangeInner::RangeToInclusive { end } => Some(
                Query::KeyRange(
                    EngineKeyRange {
                        lower: None,
                        upper: Some(end),
                        lower_open: false,
                        upper_open: false,
                    },
                ),
            ),
            KeyRangeInner::RangeFull => None,
        }
    }
}

impl<K> EngineKeyRange<K> {
    /// The interval holds the key `key`, where `rank` gives the place of a
    /// key in the order of keys.
    pub open spec fn spec_includes(self, rank: spec_fn(K) -> int, key: K) -> bool {
        &&& match self.lower {
            None => true,
            Some(lower) => if self.lower_open {
                rank(lower) < rank(key)
            } else {
                rank(lower) <= rank(key)
            },
        }
        &&& match self.upper {
            None => true,
            Some(upper) => if self.upper_open {
                rank(key) < rank(upper)
            } else {
                rank(key) <= rank(upper)
            },
        }
    }
}

/// The engine answers the query `query` with the key `key`, among others;
/// without a query it answers with every key.
pub open spec fn query_matches<K>(query: Option<Query<K>>, rank: spec_fn(K) -> int, key: K) -> bool {
    match query {
        None => true,
        Some(Query::Key(k)) => rank(key) == rank(k),
        Some(Query::KeyRange(range)) => range.spec_includes(rank, key),
    }
}

/// `to` is what the encoder `f` makes of the bound `from`, where there is one.
pub open spec fn bound_encoded<K, J, E, F: Fn(K) -> Result<J, E>>(
    f: F,
    from: Option<K>,
    to: Option<J>,
) -> bool {
    match (from, to) {
        (Some(k), Some(j)) => f.ensures((k,), Ok(j)),
        (None, None) => true,
        _ => false,
    }
}

/// The encoder `f` refuses the bound `from` with the error `error`.
pub open spec fn bound_refused<K, J, E, F: Fn(K) -> Result<J, E>>(
    f: F,
    from: Option<K>,
    error: E,
) -> bool {
    from is Some && f.ensures((from->Some_0,), Err(error))
}

/// The query `to` is the query `from` with each bound encoded by `f`: the
/// same shape, the same bounds open or closed.
pub open spec fn query_encoded<K, J, E, F: Fn(K) -> Result<J, E>>(
    f: F,
    from: Query<K>,
    to: Query<J>,
) -> bool {
    match (from, to) {
        (Query::Key(k), Query::Key(j)) => f.ensures((k,), Ok(j)),
        (Query::KeyRange(r), Query::KeyRange(s)) => {
            &&& bound_encoded(f, r.lower, s.lower)
            &&& bound_encoded(f, r.upper, s.upper)
            &&& r.lower_open == s.lower_open
            &&& r.upper_open == s.upper_open
        },
        _ => false,
    }
}

/// The encoder `f` accepts the bound `from`, where there is one.
pub open spec fn bound_accepted<K, J, E, F: Fn(K) -> Result<J, E>>(f: F, from: Option<K>) -> bool {
    exists|to: Option<J>| bound_encoded(f, from, to)
}

/// The encoder `f` refuses a bound of the query with the error `error`: the
/// lower bound, or the upper bound after it has accepted the lower one.
pub open spec fn query_refused<K, J, E, F: Fn(K) -> Result<J, E>>(
    f: F,
    from: Query<K>,
    error: E,
) -> bool {
    match from {
        Query::Key(k) => f.ensures((k,), Err(error)),
        Query::KeyRange(r) => bound_refused(f, r.lower, error) || (bound_accepted(f, r.lower)
            && bound_refused(f, r.upper, error)),
    }
}

/// Encodes a bound that may be absent.
fn encode_bound<K, J, E, F: Fn(K) -> Result<J, E>>(f: &F, bound: Option<K>) -> (out: Result<
    Option<J>,
    E,
>)
    requires
        forall|k: K| f.requires((k,)),
    ensures
        out is Ok ==> bound_encoded(*f, bound, out->Ok_0),
        out is Err ==> bound_refused(*f, bound, out->Err_0),
{
    match bound {
        None => Ok(None),
        Some(k) => match f(k) {
            Ok(j) => Ok(Some(j)),
            Err(e) => Err(e),
        },
    }
}

impl<K> Query<K> {
    /// Encodes the bounds of the query, the lower one first.
    ///
    /// Gives the query of the same shape over the encoded bounds, each bound
    /// open or closed as before; or the error of the first bound that the
    /// encoder refuses.
    pub fn try_map<J, E, F: Fn(K) -> Result<J, E>>(self, f: F) -> (out: Result<Query<J>, E>)
        requires
            forall|k: K| f.requires((k,)),
        ensures
            out is Ok ==> query_encoded(f, self, out->Ok_0),
            out is Err ==> query_refused(f, self, out->Err_0),
    {
        match self {
            Query::Key(k) => match f(k) {
                Ok(j) => Ok(Query::Key(j)),
                Err(e) => Err(e),
            },
            Query::KeyRange(r) => {
                let lower = match encode_bound(&f, r.lower) {
                    Ok(lower) => lower,
                    Err(e) => {
                        return Err(e);
                    },
                };
                proof {
                    assert(bound_encoded(f, r.lower, lower));
                }
                let upper = match encode_bound(&f, r.upper) {
                    Ok(upper) => upper,
                    Err(e) => {
                        return Err(e);
                    },
                };
                Ok(
                    Query::KeyRange(
                        EngineKeyRange {
                            lower,
                            upper,
                            lower_open: r.lower_open,
                            upper_open: r.upper_open,
                        },
                    ),
                )
            },
        }
    }
}

/// The place of an integer key in the order of keys: the key itself.
pub open spec fn natural_rank() -> spec_fn(u64) -> int {
    |key: u64| key as int
}

impl KeyRangeInner<u64> {
    /// Whether the range holds the integer key `key`.
    pub fn contains(&self, key: u64) -> (out: bool)
        ensures
            out == self.spec_contains(natural_rank(), key),
    {
        match self {
            KeyRangeInner::Single(k) => key == *k,
            KeyRangeInner::Range { start, end } => *start <= key && key < *end,
            KeyRangeInner::RangeInclusive { start, end } => *start <= key && key <= *end,
            KeyRangeInner::RangeFrom { start } => *start <= key,
            KeyRangeInner::RangeTo { end } => key < *end,
            KeyRangeInner::RangeToInclusive { end } => key <= *end,
            KeyRangeInner::RangeFull => true,
        }
    }
}

impl EngineKeyRange<u64> {
    /// Whether the interval holds the integer key `key`.
    pub fn includes(&self, key: u64) -> (out: bool)
        ensures
            out == self.spec_includes(natural_rank(), key),
    {
        let above = match self.lower {
            None => true,
            Some(lower) => if self.lower_open {
                lower < key
            } else {
                lower <= key
            },
        };
        let below = match self.upper {
            None => true,
            Some(upper) => if self.upper_open {
                key < upper
            } else {
                key <= upper
            },
        };
        above && below
    }
}

/// Whether a query over integer keys finds the key `key`; without a query
/// every key is found.
pub fn finds(query: &Option<Query<u64>>, key: u64) -> (out: bool)
    ensures
        out == query_matches(*query, natural_rank(), key),
{
    match query {
        None => true,
        Some(Query::Key(k)) => key == *k,
        Some(Query::KeyRange(range)) => range.includes(key),
    }
}

/// For an integer key: whether the query finds it.
pub open spec fn found_by(query: Option<Query<u64>>) -> spec_fn(u64) -> bool {
    |key: u64| query_matches(query, natural_rank(), key)
}

/// The keys of a list that a query over integer keys finds, in the order of
/// the list.
pub fn select(keys: &Vec<u64>, query: &Option<Query<u64>>) -> (out: Vec<u64>)
    ensures
        out@ == keys@.filter(found_by(*query)),
{
    let mut out: Vec<u64> = Vec::new();
    let mut i: usize = 0;
    proof {
        reveal(Seq::filter);
        assert(keys@.take(0).filter(found_by(*query)) =~= Seq::<u64>::empty());
    }
    while i < keys.len()
        invariant
            i <= keys.len(),
            out@ == keys@.take(i as int).filter(found_by(*query)),
        decreases keys.len() - i,
    {
        proof {
            assert(keys@.take(i + 1) =~= keys@.take(i as int).push(keys@[i as int]));
            keys@.take(i as int).lemma_filter_push(keys@[i as int], found_by(*query));
        }
        if finds(query, keys[i]) {
            out.push(keys[i]);
        }
        i += 1;
    }
    proof {
        assert(keys@.take(keys.len() as int) =~= keys@);
    }
    out
}

/// A range of keys whose type `R` says which shapes it may have.
#[derive(Debug)]
pub struct KeyRange<K, R: RangeType> {
    inner: KeyRangeInner<K>,
    _range: PhantomData<R>,
}

impl<K, R: RangeType> KeyRange<K, R> {
    #[verifier::type_invariant]
    spec fn shape_allowed(self) -> bool {
        R::spec_allows_open() || self.inner.spec_is_bounded()
    }

    /// The shape of the range and its bounds.
    pub closed spec fn inner(self) -> KeyRangeInner<K> {
        self.inner
    }

    /// The range of the single key `key`.
    pub fn single(key: K) -> (out: Self)
        ensures
            out.inner() == KeyRangeInner::Single(key),
    {
        KeyRange { inner: KeyRangeInner::Single(key), _range: PhantomData }
    }

    /// The range from `start`, up to `end` but without it.
    pub fn range(start: K, end: K) -> (out: Self)
        ensures
            out.inner() == (KeyRangeInner::Range { start, end }),
    {
        KeyRange { inner: KeyRangeInner::Range { start, end }, _range: PhantomData }
    }

    /// The range from `start` up to `end`, both included.
    pub fn range_inclusive(start: K, end: K) -> (out: Self)
        ensures
            out.inner() == (KeyRangeInner::RangeInclusive { start, end }),
    {
        KeyRange { inner: KeyRangeInner::RangeInclusive { start, end }, _range: PhantomData }
    }

    /// The range of the given shape, where the type `R` admits the shape.
    ///
    /// A shape that is open at an end is refused for a type of ranges that
    /// must be bounded.
    pub fn from(inner: KeyRangeInner<K>) -> (out: Result<Self, Error>)
        ensures
            out is Ok <==> R::spec_allows_open() || inner.spec_is_bounded(),
            out is Ok ==> out->Ok_0.inner() == inner,
            out is Err ==> out->Err_0 == Error::FullKeyRangeNotAllowed,
    {
        if R::allows_open() || inner.is_bounded() {
            Ok(KeyRange { inner, _range: PhantomData })
        } else {
            Err(Error::FullKeyRangeNotAllowed)
        }
    }

    /// The range is a single key or has both bounds.
    pub fn is_bounded(&self) -> (out: bool)
        ensures
            out == self.inner().spec_is_bounded(),
            !R::spec_allows_open() ==> out,
    {
        proof {
            use_type_invariant(self);
        }
        self.inner.is_bounded()
    }

    /// The query for the range, with the bounds of the range as they are and
    /// each bound open or closed as the shape says; none for the range of
    /// every key.
    pub fn into_query(self) -> (out: Option<Query<K>>)
        ensures
            out == self.inner().spec_query(),
            !R::spec_allows_open() ==> out is Some,
    {
        proof {
            use_type_invariant(&self);
        }
        self.inner.into_query()
    }
}

impl<K> KeyRange<K, UnboundedRange> {
    /// The range from `start` on.
    pub fn range_from(start: K) -> (out: Self)
        ensures
            out.inner() == (KeyRangeInner::RangeFrom { start }),
    {
        KeyRange { inner: KeyRangeInner::RangeFrom { start }, _range: PhantomData }
    }

    /// The range of everything before `end`.
    pub fn range_to(end: K) -> (out: Self)
        ensures
            out.inner() == (KeyRangeInner::RangeTo { end }),
    {
        KeyRange { inner: KeyRangeInner::RangeTo { end }, _range: PhantomData }
    }

    /// The range of everything up to `end`, `end` included.
    pub fn range_to_inclusive(end: K) -> (out: Self)
        ensures
            out.inner() == (KeyRangeInner::RangeToInclusive { end }),
    {
        KeyRange { inner: KeyRangeInner::RangeToInclusive { end }, _range: PhantomData }
    }

    /// The range of every key.
    pub fn full() -> (out: Self)
        ensures
            out.inner() == KeyRangeInner::<K>::RangeFull,
    {
        KeyRange { inner: KeyRangeInner::RangeFull, _range: PhantomData }
    }
}

impl<K> KeyRange<K, BoundedRange> {
    /// The query for a range that is a single key or has both bounds: there
    /// always is one.
    pub fn into_key_query(self) -> (out: Query<K>)
        ensures
            Some(out) == self.inner().spec_query(),
    {
        proof {
            use_type_invariant(&self);
        }
        match self.inner.into_query() {
            Some(query) => query,
            None => vstd::pervasive::unreached(),
        }
    }
}

/// The query for a range finds exactly the keys of the range: a range
/// with an included end finds the end, one with an excluded end does not.
pub proof fn lemma_query_finds_range<K>(range: KeyRangeInner<K>, rank: spec_fn(K) -> int, key: K)
    ensures
        query_matches(range.spec_query(), rank, key) == range.spec_contains(rank, key),
{
}

/// Two half-open ranges that meet at a key tile the range around them: a
/// key is in the whole exactly where it is in one of the parts, and no key
/// is in both.
pub proof fn lemma_adjacent_ranges_tile<K>(
    start: K,
    middle: K,
    end: K,
    rank: spec_fn(K) -> int,
    key: K,
)
    requires
        rank(start) <= rank(middle) <= rank(end),
    ensures
        (KeyRangeInner::Range { start, end }).spec_contains(rank, key) == ((KeyRangeInner::Range {
            start,
            end: middle,
        }).spec_contains(rank, key) || (KeyRangeInner::Range {
            start: middle,
            end,
        }).spec_contains(rank, key)),
        !((KeyRangeInner::Range { start, end: middle }).spec_contains(rank, key)
            && (KeyRangeInner::Range { start: middle, end }).spec_contains(rank, key)),
{
}

/// With a codec whose decoder gives back what its encoder was handed, a
/// query that is encoded and decoded again is the query it was: the same
/// bounds, each open or closed as before.
pub proof fn lemma_bounds_round_trip<K, J, E, D, F: Fn(K) -> Result<J, E>, G: Fn(J) -> Result<K, D>>(
    encode: F,
    decode: G,
    query: Query<K>,
    encoded: Query<J>,
    decoded: Query<K>,
)
    requires
        query_encoded(encode, query, encoded),
        query_encoded(decode, encoded, decoded),
        forall|k: K, j: J, back: K|
            #[trigger] encode.ensures((k,), Ok(j)) && #[trigger] decode.ensures((j,), Ok(back))
                ==> back == k,
    ensures
        decoded == query,
{
}

} // verus!
