//! Key ranges: from optional endpoints and inclusive flags to a pair of
//! bounds, and what it means for a key to lie in such a range.

use vstd::prelude::*;

verus! {

/// Whether key `a` comes before key `b`: keys are ordered as byte strings, a
/// proper prefix before what it is a prefix of.
pub open spec fn key_lt(a: Seq<u8>, b: Seq<u8>) -> bool
    decreases a.len(),
{
    if b.len() == 0 {
        false
    } else if a.len() == 0 {
        true
    } else if a[0] != b[0] {
        a[0] < b[0]
    } else {
        key_lt(a.drop_first(), b.drop_first())
    }
}

/// Whether key `a` is `b` or comes before it.
pub open spec fn key_le(a: Seq<u8>, b: Seq<u8>) -> bool {
    a == b || key_lt(a, b)
}

/// No key comes before itself.
pub proof fn lemma_key_lt_irreflexive(a: Seq<u8>)
    ensures
        !key_lt(a, a),
    decreases a.len(),
{
    if a.len() > 0 {
        lemma_key_lt_irreflexive(a.drop_first());
    }
}

/// Of two keys at most one comes before the other.
pub proof fn lemma_key_lt_asymmetric(a: Seq<u8>, b: Seq<u8>)
    ensures
        !(key_lt(a, b) && key_lt(b, a)),
    decreases a.len(),
{
    if a.len() > 0 && b.len() > 0 && a[0] == b[0] {
        lemma_key_lt_asymmetric(a.drop_first(), b.drop_first());
    }
}

/// Of two different keys one comes before the other.
pub proof fn lemma_key_order_total(a: Seq<u8>, b: Seq<u8>)
    ensures
        a == b || key_lt(a, b) || key_lt(b, a),
    decreases a.len(),
{
    if a.len() > 0 && b.len() > 0 && a[0] == b[0] {
        lemma_key_order_total(a.drop_first(), b.drop_first());
        if a.drop_first() == b.drop_first() {
            assert(a =~= seq![a[0]] + a.drop_first());
            assert(b =~= seq![b[0]] + b.drop_first());
        }
    } else if a.len() == 0 && b.len() == 0 {
        assert(a =~= b);
    }
}

/// What comes before a key comes before everything after that key.
pub proof fn lemma_key_lt_transitive(a: Seq<u8>, b: Seq<u8>, c: Seq<u8>)
    requires
        key_lt(a, b),
        key_lt(b, c),
    ensures
        key_lt(a, c),
    decreases a.len(),
{
    if a.len() > 0 && a[0] == b[0] && b[0] == c[0] {
        lemma_key_lt_transitive(a.drop_first(), b.drop_first(), c.drop_first());
    }
}

/// Whether `a` comes before `b`.
pub fn key_less(a: &Vec<u8>, b: &Vec<u8>) -> (r: bool)
    ensures
        r == key_lt(a@, b@),
{
    let mut i: usize = 0;
    assert(a@.skip(0) =~= a@ && b@.skip(0) =~= b@);
    loop
        invariant
            i <= a@.len(),
            i <= b@.len(),
            key_lt(a@, b@) == key_lt(a@.skip(i as int), b@.skip(i as int)),
        decreases a@.len() - i,
    {
        if i == b.len() {
            return false;
        }
        if i == a.len() {
            return true;
        }
        if a[i] != b[i] {
            return a[i] < b[i];
        }
        assert(a@.skip(i as int).drop_first() =~= a@.skip(i + 1));
        assert(b@.skip(i as int).drop_first() =~= b@.skip(i + 1));
        i += 1;
    }
}

/// Whether `a` and `b` are the same key.
pub fn key_equal(a: &Vec<u8>, b: &Vec<u8>) -> (r: bool)
    ensures
        r == (a@ == b@),
{
    if a.len() != b.len() {
        return false;
    }
    let mut i: usize = 0;
    while i < a.len()
        invariant
            i <= a@.len(),
            a@.len() == b@.len(),
            forall|j: int| 0 <= j < i ==> a@[j] == b@[j],
        decreases a@.len() - i,
    {
        if a[i] != b[i] {
            return false;
        }
        i += 1;
    }
    assert(a@ =~= b@);
    true
}

/// One side of a range.
#[derive(Clone, Debug, PartialEq, Eq)]
pub enum Bound {
    /// The side ends at the key, which belongs to the range.
    Included(Vec<u8>),
    /// The side ends at the key, which does not belong to the range.
    Excluded(Vec<u8>),
    /// The side has no end.
    Unbounded,
}

/// One side of a range, as contracts see it.
pub enum BoundView {
    Included(Seq<u8>),
    Excluded(Seq<u8>),
    Unbounded,
}

impl View for Bound {
    type V = BoundView;

    open spec fn view(&self) -> BoundView {
        match self {
            Bound::Included(k) => BoundView::Included(k@),
            Bound::Excluded(k) => BoundView::Excluded(k@),
            Bound::Unbounded => BoundView::Unbounded,
        }
    }
}

/// A range of keys: its lower and its upper side.
#[derive(Clone, Debug, PartialEq, Eq)]
pub struct BoundRange {
    pub from: Bound,
    pub to: Bound,
}

/// A range of keys, as contracts see it.
pub struct BoundRangeView {
    pub from: BoundView,
    pub to: BoundView,
}

impl View for BoundRange {
    type V = BoundRangeView;

    open spec fn view(&self) -> BoundRangeView {
        BoundRangeView { from: self.from@, to: self.to@ }
    }
}

impl BoundRangeView {
    /// Whether `key` is not below the lower side.
    pub open spec fn above_lower(self, key: Seq<u8>) -> bool {
        match self.from {
            BoundView::Included(s) => key_le(s, key),
            BoundView::Excluded(s) => key_lt(s, key),
            BoundView::Unbounded => true,
        }
    }

    /// Whether `key` is not above the upper side.
    pub open spec fn below_upper(self, key: Seq<u8>) -> bool {
        match self.to {
            BoundView::Included(e) => key_le(key, e),
            BoundView::Excluded(e) => key_lt(key, e),
            BoundView::Unbounded => true,
        }
    }

    /// Whether `key` lies in the range.
    pub open spec fn contains(self, key: Seq<u8>) -> bool {
        self.above_lower(key) && self.below_upper(key)
    }
}

/// The side that an optional endpoint and its flag stand for.
pub open spec fn bound_of(endpoint: Option<Seq<u8>>, inclusive: bool) -> BoundView {
    match endpoint {
        None => BoundView::Unbounded,
        Some(k) => if inclusive {
            BoundView::Included(k)
        } else {
            BoundView::Excluded(k)
        },
    }
}

/// The bytes of an optional key.
pub open spec fn optional_key(key: Option<Vec<u8>>) -> Option<Seq<u8>> {
    match key {
        Some(k) => Some(k@),
        None => None,
    }
}

/// The range that two optional endpoints and their flags stand for.
pub open spec fn range_of(
    start: Option<Seq<u8>>,
    end: Option<Seq<u8>>,
    include_start: bool,
    include_end: bool,
) -> BoundRangeView {
    BoundRangeView { from: bound_of(start, include_start), to: bound_of(end, include_end) }
}

/// Builds the range between two optional endpoints. An absent endpoint leaves
/// its side unbounded; a present one belongs to the range exactly if its flag
/// is set.
pub fn to_bound_range(
    start: Option<Vec<u8>>,
    end: Option<Vec<u8>>,
    include_start: bool,
    include_end: bool,
) -> (r: BoundRange)
    ensures
        r@ == range_of(optional_key(start), optional_key(end), include_start, include_end),
{
    let start_bound = if let Some(start) = start {
        if include_start {
            Bound::Included(start)
        } else {
            Bound::Excluded(start)
        }
    } else {
        Bound::Unbounded
    };
    let end_bound = if let Some(end) = end {
        if include_end {
            Bound::Included(end)
        } else {
            Bound::Excluded(end)
        }
    } else {
        Bound::Unbounded
    };
    BoundRange { from: start_bound, to: end_bound }
}

impl BoundRange {
    /// Whether `key` lies in the range.
    pub fn contains(&self, key: &Vec<u8>) -> (r: bool)
        ensures
            r == self@.contains(key@),
    {
        let above = match &self.from {
            Bound::Included(s) => key_equal(s, key) || key_less(s, key),
            Bound::Excluded(s) => key_less(s, key),
            Bound::Unbounded => true,
        };
        let below = match &self.to {
            Bound::Included(e) => key_equal(key, e) || key_less(key, e),
            Bound::Excluded(e) => key_less(key, e),
            Bound::Unbounded => true,
        };
        above && below
    }
}

/// Membership in a built range goes by the flags: a key lies in it exactly if
/// it comes after the start, or is the start and the start is included, and
/// likewise before the end. So an excluded endpoint never lies in the range,
/// and an included one does whenever the other side allows it.
pub proof fn lemma_range_follows_flags(
    start: Option<Seq<u8>>,
    end: Option<Seq<u8>>,
    include_start: bool,
    include_end: bool,
    key: Seq<u8>,
)
    ensures
        range_of(start, end, include_start, include_end).contains(key) <==> {
            &&& start matches Some(s) ==> key_lt(s, key) || (include_start && s == key)
            &&& end matches Some(e) ==> key_lt(key, e) || (include_end && key == e)
        },
        start == Some(key) && !include_start ==> !range_of(
            start,
            end,
            include_start,
            include_end,
        ).contains(key),
        end == Some(key) && !include_end ==> !range_of(
            start,
            end,
            include_start,
            include_end,
        ).contains(key),
        start == Some(key) && include_start ==> (range_of(
            start,
            end,
            include_start,
            include_end,
        ).contains(key) <==> range_of(None, end, include_start, include_end).contains(key)),
        end == Some(key) && include_end ==> (range_of(
            start,
            end,
            include_start,
            include_end,
        ).contains(key) <==> range_of(start, None, include_start, include_end).contains(key)),
{
    lemma_key_lt_irreflexive(key);
}

/// A range from a key to the same key holds that key alone where both sides
/// include it, and nothing where either side excludes it.
pub proof fn lemma_range_at_one_key(at: Seq<u8>, include_start: bool, include_end: bool, key: Seq<u8>)
    ensures
        range_of(Some(at), Some(at), include_start, include_end).contains(key) <==> include_start
            && include_end && key == at,
{
    lemma_key_lt_irreflexive(at);
    lemma_key_lt_asymmetric(at, key);
}

/// An absent endpoint leaves its side unbounded whatever its flag says, so the
/// flag of an absent endpoint makes no difference to the range.
pub proof fn lemma_absent_endpoint_ignores_flag(
    start: Option<Seq<u8>>,
    end: Option<Seq<u8>>,
    include_start: bool,
    include_end: bool,
)
    ensures
        start is None ==> range_of(start, end, include_start, include_end) == range_of(
            start,
            end,
            !include_start,
            include_end,
        ),
        end is None ==> range_of(start, end, include_start, include_end) == range_of(
            start,
            end,
            include_start,
            !include_end,
        ),
        start is None && end is None ==> forall|key: Seq<u8>|
            range_of(start, end, include_start, include_end).contains(key),
{
}

/// A range has no gaps: with two keys it holds every key between them.
pub proof fn lemma_range_is_an_interval(
    range: BoundRangeView,
    low: Seq<u8>,
    key: Seq<u8>,
    high: Seq<u8>,
)
    requires
        range.contains(low),
        range.contains(high),
        key_le(low, key),
        key_le(key, high),
    ensures
        range.contains(key),
{
    match range.from {
        BoundView::Included(s) => {
            if s != low && low != key {
                lemma_key_lt_transitive(s, low, key);
            }
        },
        BoundView::Excluded(s) => {
            if low != key {
                lemma_key_lt_transitive(s, low, key);
            }
        },
        BoundView::Unbounded => {},
    }
    match range.to {
        BoundView::Included(e) => {
            if high != e && key != high {
                lemma_key_lt_transitive(key, high, e);
            }
        },
        BoundView::Excluded(e) => {
            if key != high {
                lemma_key_lt_transitive(key, high, e);
            }
        },
        BoundView::Unbounded => {},
    }
}

} // verus!
