//! The dimensions of an array, the number of elements that they span, and the
//! order in which the elements are stored: the first dimension varies fastest.

use vstd::prelude::*;

verus! {

/// One dimension of an array: its lowest index and the number of indices.
#[derive(Clone, Copy, Debug, PartialEq, Eq, Structural)]
pub struct Bound {
    pub lower: i32,
    pub count: u32,
}

impl Bound {
    /// The highest index of the dimension; one below `lower` where it is empty.
    pub open spec fn upper(self) -> int {
        self.lower + self.count - 1
    }

    /// The highest index can be told as a 32-bit number.
    pub open spec fn wf(self) -> bool {
        i32::MIN <= self.upper() <= i32::MAX
    }

    /// The dimension from a lowest to a highest index, which is one below the
    /// lowest where the dimension is empty; nothing where the highest is lower
    /// than that, or the indices are more than a count can be.
    pub fn between(lower: i32, upper: i32) -> (r: Option<Bound>)
        ensures
            match r {
                Some(b) => b.lower == lower && b.upper() == upper && b.wf(),
                None => upper < lower - 1 || upper - lower + 1 > u32::MAX,
            },
    {
        let count: i64 = upper as i64 - lower as i64 + 1;
        if count < 0 || count > u32::MAX as i64 {
            None
        } else {
            Some(Bound { lower, count: count as u32 })
        }
    }
}

/// Number of elements of an array with these dimensions.
pub open spec fn volume(bounds: Seq<Bound>) -> nat
    decreases bounds.len(),
{
    if bounds.len() == 0 {
        1
    } else {
        bounds[0].count as nat * volume(bounds.drop_first())
    }
}

/// The indices, one for each dimension, of the element at a position in
/// storage order. The first dimension varies fastest.
pub open spec fn indices_of(bounds: Seq<Bound>, position: nat) -> Seq<int>
    decreases bounds.len(),
{
    if bounds.len() == 0 {
        Seq::empty()
    } else if bounds[0].count == 0 {
        seq![bounds[0].lower as int] + indices_of(bounds.drop_first(), 0)
    } else {
        let count = bounds[0].count as nat;
        seq![bounds[0].lower + position % count] + indices_of(
            bounds.drop_first(),
            position / count,
        )
    }
}

/// The position in storage order of the element at the indices.
pub open spec fn position_of(bounds: Seq<Bound>, indices: Seq<int>) -> int
    decreases bounds.len(),
{
    if bounds.len() == 0 || indices.len() == 0 {
        0
    } else {
        (indices[0] - bounds[0].lower) + bounds[0].count * position_of(
            bounds.drop_first(),
            indices.drop_first(),
        )
    }
}

/// The indices lie within the bounds, one for each dimension.
pub open spec fn within(bounds: Seq<Bound>, indices: Seq<int>) -> bool {
    &&& indices.len() == bounds.len()
    &&& forall|d: int|
        0 <= d < bounds.len() ==> bounds[d].lower <= #[trigger] indices[d] <= bounds[d].upper()
}

/// Every dimension has bounds that can be told.
pub open spec fn told(bounds: Seq<Bound>) -> bool {
    forall|d: int| 0 <= d < bounds.len() ==> (#[trigger] bounds[d]).wf()
}

/// An array of one dimension has as many elements as the dimension has indices.
pub proof fn lemma_volume_one(bounds: Seq<Bound>)
    requires
        bounds.len() == 1,
    ensures
        volume(bounds) == bounds[0].count,
{
    assert(bounds.drop_first() =~= Seq::<Bound>::empty());
    assert(volume(bounds.drop_first()) == 1);
    assert(volume(bounds) == bounds[0].count as nat * volume(bounds.drop_first()));
}

/// An array with an empty dimension has no elements.
pub proof fn lemma_volume_zero(bounds: Seq<Bound>, i: int)
    requires
        0 <= i < bounds.len(),
        bounds[i].count == 0,
    ensures
        volume(bounds) == 0,
    decreases bounds.len(),
{
    if i > 0 {
        lemma_volume_zero(bounds.drop_first(), i - 1);
        assert(volume(bounds) == bounds[0].count as nat * volume(bounds.drop_first()));
    }
}

/// The dimensions from the `i`-th on span one factor more than those after it.
pub proof fn lemma_volume_step(bounds: Seq<Bound>, i: int)
    requires
        0 <= i < bounds.len(),
    ensures
        volume(bounds.skip(i)) == bounds[i].count as nat * volume(bounds.skip(i + 1)),
{
    assert(bounds.skip(i).drop_first() =~= bounds.skip(i + 1));
}

/// Where no dimension is empty, the last dimensions span no more elements than
/// all of them.
pub proof fn lemma_volume_grows(bounds: Seq<Bound>, i: int)
    requires
        0 <= i <= bounds.len(),
        forall|k: int| 0 <= k < bounds.len() ==> (#[trigger] bounds[k]).count != 0,
    ensures
        volume(bounds.skip(i)) <= volume(bounds),
    decreases i,
{
    if i == 0 {
        assert(bounds.skip(0) =~= bounds);
    } else {
        lemma_volume_step(bounds, i - 1);
        lemma_volume_grows(bounds, i - 1);
        let c = bounds[i - 1].count as nat;
        let v = volume(bounds.skip(i));
        assert(v <= c * v) by (nonlinear_arith)
            requires
                c >= 1,
        ;
    }
}

/// Every position of an array has indices within the bounds, and is the
/// position of its indices: the storage order numbers the elements one by one.
pub proof fn lemma_storage_order(bounds: Seq<Bound>, position: nat)
    requires
        position < volume(bounds),
    ensures
        within(bounds, indices_of(bounds, position)),
        position_of(bounds, indices_of(bounds, position)) == position,
    decreases bounds.len(),
{
    if bounds.len() > 0 {
        let count = bounds[0].count as nat;
        let rest = bounds.drop_first();
        let below = volume(rest);
        assert(count > 0 && position / count < below) by (nonlinear_arith)
            requires
                position < count * below,
        ;
        lemma_storage_order(rest, position / count);
        let inner = indices_of(rest, position / count);
        let all = indices_of(bounds, position);
        assert(all.drop_first() =~= inner);
        assert forall|d: int| 0 <= d < bounds.len() implies bounds[d].lower <= #[trigger] all[d]
            <= bounds[d].upper() by {
            if d > 0 {
                assert(all[d] == inner[d - 1]);
                assert(rest[d - 1] == bounds[d]);
            }
        }
        assert(position == position % count + count * (position / count)) by (nonlinear_arith)
            requires
                count > 0,
        ;
    }
}

/// Number of elements that the dimensions span, or nothing where it is more
/// than a length can be.
pub fn span(bounds: &Vec<Bound>) -> (r: Option<usize>)
    ensures
        match r {
            Some(n) => n == volume(bounds@),
            None => volume(bounds@) > usize::MAX,
        },
{
    let mut i: usize = 0;
    while i < bounds.len()
        invariant
            i <= bounds.len(),
            forall|k: int| 0 <= k < i ==> (#[trigger] bounds@[k]).count != 0,
        decreases bounds.len() - i,
    {
        if bounds[i].count == 0 {
            proof {
                lemma_volume_zero(bounds@, i as int);
            }
            return Some(0);
        }
        i += 1;
    }
    let mut acc: usize = 1;
    let mut j: usize = bounds.len();
    assert(bounds@.skip(j as int) =~= Seq::<Bound>::empty());
    while j > 0
        invariant
            j <= bounds.len(),
            forall|k: int| 0 <= k < bounds.len() ==> (#[trigger] bounds@[k]).count != 0,
            acc == volume(bounds@.skip(j as int)),
        decreases j,
    {
        j -= 1;
        proof {
            lemma_volume_step(bounds@, j as int);
            lemma_volume_grows(bounds@, j as int);
            let c = bounds@[j as int].count as nat;
            let v = volume(bounds@.skip(j + 1));
            assert(c * v == v * c) by (nonlinear_arith);
        }
        match acc.checked_mul(bounds[j].count as usize) {
            Some(n) => {
                acc = n;
            },
            None => {
                return None;
            },
        }
    }
    assert(bounds@.skip(0) =~= bounds@);
    Some(acc)
}

/// The indices, one for each dimension, of the element at a position in
/// storage order; nothing where a dimension has bounds that cannot be told, and
/// for a position that the dimensions do not span.
pub fn indices_at(bounds: &Vec<Bound>, position: usize) -> (r: Option<Vec<i32>>)
    ensures
        match r {
            Some(indices) => told(bounds@) && position < volume(bounds@) && indices@.map_values(
                |i: i32| i as int,
            ) == indices_of(bounds@, position as nat),
            None => !(told(bounds@) && position < volume(bounds@)),
        },
{
    let mut k: usize = 0;
    while k < bounds.len()
        invariant
            k <= bounds.len(),
            forall|d: int| 0 <= d < k ==> (#[trigger] bounds@[d]).wf(),
        decreases bounds.len() - k,
    {
        let upper: i64 = bounds[k].lower as i64 + bounds[k].count as i64 - 1;
        if upper < i32::MIN as i64 || upper > i32::MAX as i64 {
            assert(!bounds@[k as int].wf());
            return None;
        }
        k += 1;
    }
    match span(bounds) {
        Some(n) => {
            if position >= n {
                return None;
            }
        },
        None => {},
    }
    let ghost all = indices_of(bounds@, position as nat);
    let mut out: Vec<i32> = Vec::new();
    let mut rest: usize = position;
    let mut d: usize = 0;
    assert(bounds@.skip(0) =~= bounds@);
    while d < bounds.len()
        invariant
            d <= bounds.len(),
            told(bounds@),
            rest < volume(bounds@.skip(d as int)),
            all == out@.map_values(|i: i32| i as int) + indices_of(
                bounds@.skip(d as int),
                rest as nat,
            ),
        decreases bounds.len() - d,
    {
        let b = bounds[d];
        let ghost before = out@.map_values(|i: i32| i as int);
        let ghost count = b.count as nat;
        let ghost below = volume(bounds@.skip(d + 1));
        proof {
            lemma_volume_step(bounds@, d as int);
            assert(bounds@.skip(d as int).drop_first() =~= bounds@.skip(d + 1));
            assert(count > 0 && rest as nat / count < below) by (nonlinear_arith)
                requires
                    rest < count * below,
            ;
            assert(b.wf());
        }
        let offset = rest % (b.count as usize);
        let index = (b.lower as i64 + offset as i64) as i32;
        rest = rest / (b.count as usize);
        out.push(index);
        proof {
            assert(out@.map_values(|i: i32| i as int) =~= before.push(index as int));
            assert(all =~= out@.map_values(|i: i32| i as int) + indices_of(
                bounds@.skip(d + 1),
                rest as nat,
            ));
        }
        d += 1;
    }
    assert(bounds@.skip(d as int) =~= Seq::<Bound>::empty());
    assert(all =~= out@.map_values(|i: i32| i as int));
    Some(out)
}

/// A copy of a run of dimensions.
pub(crate) fn copy_bounds(bounds: &Vec<Bound>) -> (out: Vec<Bound>)
    ensures
        out@ == bounds@,
{
    let mut out: Vec<Bound> = Vec::new();
    let mut i: usize = 0;
    while i < bounds.len()
        invariant
            i <= bounds.len(),
            out.len() == i,
            forall|k: int| 0 <= k < i ==> #[trigger] out@[k] == bounds@[k],
        decreases bounds.len() - i,
    {
        out.push(bounds[i]);
        i += 1;
    }
    out
}

} // verus!
