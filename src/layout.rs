//! The height-bucket index over the vertex stream: for each of a fixed number
//! of height slices, the offset where the first brick reaching it begins.

use vstd::prelude::*;
use crate::brick::{Brick, bottom_of, bottom_surface, top_of, top_surface};

verus! {

/// Number of height buckets.
pub const NUM_DIVISIONS: usize = 500;

/// Floats per vertex record: x, y, r, g, b.
pub const VERTEX_SIZE: usize = 5;

/// Most floats one brick can add to the stream: a disc and its ring.
pub const MAX_BRICK_FLOATS: usize = 720;

/// The bucket index of a stream, with the height range it divides.
pub struct HeightIndex {
    pub min_height: i64,
    pub max_height: i64,
    /// Offset of the first record of the first visible brick reaching each
    /// bucket's lower bound, or -1 if none does.
    pub bot_height_indices: Vec<i64>,
    /// Where each bucket's records end: the next bucket's start, and the
    /// stream's length for the last.
    pub top_height_indices: Vec<i64>,
    /// Length of the whole stream in floats.
    pub len: u64,
}

/// Lower bound of bucket `i` over the height range `lo..hi`.
pub open spec fn cutoff(lo: int, hi: int, i: int) -> int {
    lo + (hi - lo) * i / (NUM_DIVISIONS as int)
}

/// Where the records of brick `k` begin.
pub open spec fn offset(lens: Seq<usize>, k: int) -> int
    decreases k,
{
    if k <= 0 {
        0
    } else {
        offset(lens, k - 1) + lens[k - 1]
    }
}

pub open spec fn reaches(b: Brick, c: int) -> bool {
    b.visibility && top_of(b) >= c
}

/// The first brick at or after `k` that is visible and reaches height `c`.
pub open spec fn first_reach(bs: Seq<Brick>, c: int, k: int) -> Option<int>
    decreases bs.len() - k,
{
    if k >= bs.len() || k < 0 {
        None
    } else if reaches(bs[k], c) {
        Some(k)
    } else {
        first_reach(bs, c, k + 1)
    }
}

/// The start recorded for bucket `i`.
pub open spec fn bucket_start(bs: Seq<Brick>, lens: Seq<usize>, lo: int, hi: int, i: int) -> int {
    match first_reach(bs, cutoff(lo, hi, i), 0) {
        Some(k) => offset(lens, k),
        None => -1,
    }
}

proof fn lemma_first_reach_bounds(bs: Seq<Brick>, c: int, a: int)
    requires
        0 <= a,
    ensures
        match first_reach(bs, c, a) {
            Some(k) => a <= k < bs.len() && reaches(bs[k], c),
            None => forall|j: int| a <= j < bs.len() ==> !reaches(#[trigger] bs[j], c),
        },
    decreases bs.len() - a,
{
    if a < bs.len() && !reaches(bs[a], c) {
        lemma_first_reach_bounds(bs, c, a + 1);
    }
}

/// A lower height is reached no later than a higher one.
proof fn lemma_first_reach_monotone(bs: Seq<Brick>, c1: int, c2: int, a: int)
    requires
        0 <= a,
        c1 <= c2,
        first_reach(bs, c2, a) is Some,
    ensures
        first_reach(bs, c1, a) is Some,
        first_reach(bs, c1, a)->0 <= first_reach(bs, c2, a)->0,
    decreases bs.len() - a,
{
    lemma_first_reach_bounds(bs, c2, a);
    if a < bs.len() && !reaches(bs[a], c1) {
        lemma_first_reach_monotone(bs, c1, c2, a + 1);
    }
}

proof fn lemma_offset_monotone(lens: Seq<usize>, a: int, b: int)
    requires
        0 <= a <= b <= lens.len(),
    ensures
        offset(lens, a) <= offset(lens, b),
    decreases b - a,
{
    if a < b {
        lemma_offset_monotone(lens, a, b - 1);
    }
}

proof fn lemma_offset_bound(lens: Seq<usize>, k: int)
    requires
        0 <= k <= lens.len(),
        forall|j: int| 0 <= j < lens.len() ==> #[trigger] lens[j] <= MAX_BRICK_FLOATS,
    ensures
        0 <= offset(lens, k) <= k * MAX_BRICK_FLOATS,
    decreases k,
{
    if k > 0 {
        lemma_offset_bound(lens, k - 1);
    }
}

proof fn lemma_cutoff_monotone(lo: int, hi: int, i: int, j: int)
    requires
        lo <= hi,
        0 <= i <= j,
    ensures
        cutoff(lo, hi, i) <= cutoff(lo, hi, j),
{
    assert((hi - lo) * i <= (hi - lo) * j) by (nonlinear_arith)
        requires lo <= hi, 0 <= i <= j;
    vstd::arithmetic::div_mod::lemma_div_is_ordered((hi - lo) * i, (hi - lo) * j, NUM_DIVISIONS as int);
}


/// In a bucket index, the buckets that some brick reaches come first, and
/// over them both the starts and the ends never decrease; each bucket ends
/// where the next begins.
pub proof fn lemma_buckets_monotone(bs: Seq<Brick>, lens: Seq<usize>, r: HeightIndex, i: int, j: int)
    requires
        is_height_index(bs, lens, r),
        lens.len() == bs.len(),
        0 <= i <= j < NUM_DIVISIONS,
    ensures
        r.bot_height_indices@[j] != -1 ==> r.bot_height_indices@[i] != -1
            && 0 <= r.bot_height_indices@[i] <= r.bot_height_indices@[j],
        r.top_height_indices@[i] != -1 && r.top_height_indices@[j] != -1
            ==> r.top_height_indices@[i] <= r.top_height_indices@[j],
        j < NUM_DIVISIONS - 1 ==> r.top_height_indices@[j] == r.bot_height_indices@[j + 1],
        r.top_height_indices@[NUM_DIVISIONS - 1] == r.len,
{
    let lo = r.min_height as int;
    let hi = r.max_height as int;
    let bot = r.bot_height_indices@;
    let top = r.top_height_indices@;
    assert forall|a: int, b: int| 0 <= a <= b < NUM_DIVISIONS && bot[b] != -1 implies bot[a] != -1
        && 0 <= bot[a] <= bot[b] by {
        lemma_cutoff_monotone(lo, hi, a, b);
        let cb = cutoff(lo, hi, b);
        let ca = cutoff(lo, hi, a);
        assert(bot[b] == bucket_start(bs, lens, lo, hi, b));
        assert(bot[a] == bucket_start(bs, lens, lo, hi, a));
        lemma_first_reach_bounds(bs, cb, 0);
        if first_reach(bs, cb, 0) is None {
            lemma_offset_monotone(lens, 0, 0);
            assert(false);
        }
        lemma_first_reach_monotone(bs, ca, cb, 0);
        lemma_first_reach_bounds(bs, ca, 0);
        lemma_offset_monotone(lens, 0, first_reach(bs, ca, 0)->0);
        lemma_offset_monotone(lens, first_reach(bs, ca, 0)->0, first_reach(bs, cb, 0)->0);
    }
    assert forall|a: int| 0 <= a < NUM_DIVISIONS && bot[a] != -1 implies bot[a] <= r.len by {
        let ca = cutoff(lo, hi, a);
        assert(bot[a] == bucket_start(bs, lens, lo, hi, a));
        lemma_first_reach_bounds(bs, ca, 0);
        if first_reach(bs, ca, 0) is Some {
            lemma_offset_monotone(lens, first_reach(bs, ca, 0)->0, bs.len() as int);
        }
    }
    if top[i] != -1 && top[j] != -1 {
        if j < NUM_DIVISIONS - 1 {
            assert(top[i] == bot[i + 1]);
            assert(top[j] == bot[j + 1]);
        } else if i < NUM_DIVISIONS - 1 {
            assert(top[i] == bot[i + 1]);
        }
    }
}

/// `lo` is the lowest bottom and `hi` the highest top over all bricks, hidden
/// ones included.
pub open spec fn is_height_range(bs: Seq<Brick>, lo: i64, hi: i64) -> bool {
    &&& lo <= hi
    &&& forall|k: int| 0 <= k < bs.len() ==> lo <= bottom_of(#[trigger] bs[k])
    &&& forall|k: int| 0 <= k < bs.len() ==> top_of(#[trigger] bs[k]) <= hi
    &&& exists|k: int| 0 <= k < bs.len() && lo == bottom_of(#[trigger] bs[k])
    &&& exists|k: int| 0 <= k < bs.len() && hi == top_of(#[trigger] bs[k])
}

/// When some visible brick has the greatest top of the scene, every bucket
/// is reached: no start is left at -1, and both the starts and the ends
/// never decrease.
pub proof fn lemma_buckets_all_reached(bs: Seq<Brick>, lens: Seq<usize>, r: HeightIndex, top: int)
    requires
        is_height_index(bs, lens, r),
        lens.len() == bs.len(),
        0 <= top < bs.len(),
        bs[top].visibility,
        top_of(bs[top]) == r.max_height,
    ensures
        forall|i: int| 0 <= i < NUM_DIVISIONS ==> 0 <= #[trigger] r.bot_height_indices@[i] <= r.len,
        forall|i: int| 0 <= i < NUM_DIVISIONS ==> 0 <= #[trigger] r.top_height_indices@[i] <= r.len,
        forall|i: int, j: int|
            0 <= i <= j < NUM_DIVISIONS ==> r.bot_height_indices@[i] <= r.bot_height_indices@[j]
                && r.top_height_indices@[i] <= r.top_height_indices@[j],
{
    let lo = r.min_height as int;
    let hi = r.max_height as int;
    let bot = r.bot_height_indices@;
    let topi = r.top_height_indices@;
    assert forall|i: int| 0 <= i < NUM_DIVISIONS implies 0 <= #[trigger] bot[i] <= r.len by {
        lemma_cutoff_monotone(lo, hi, i, NUM_DIVISIONS as int);
        vstd::arithmetic::div_mod::lemma_fundamental_div_mod_converse(
            (hi - lo) * (NUM_DIVISIONS as int),
            NUM_DIVISIONS as int,
            hi - lo,
            0,
        );
        let c = cutoff(lo, hi, i);
        assert(reaches(bs[top], c));
        lemma_first_reach_bounds(bs, c, 0);
        assert(bot[i] == bucket_start(bs, lens, lo, hi, i));
        let k = first_reach(bs, c, 0)->0;
        lemma_offset_bound_zero(lens, k);
        lemma_offset_monotone(lens, k, bs.len() as int);
    }
    assert forall|i: int| 0 <= i < NUM_DIVISIONS implies 0 <= #[trigger] topi[i] <= r.len by {
        if i < NUM_DIVISIONS - 1 {
            assert(topi[i] == bot[i + 1]);
        }
    }
    assert forall|i: int, j: int| 0 <= i <= j < NUM_DIVISIONS implies bot[i] <= bot[j] && topi[i]
        <= topi[j] by {
        assert(0 <= bot[j]);
        assert(0 <= topi[i]);
        assert(0 <= topi[j]);
        lemma_buckets_monotone(bs, lens, r, i, j);
    }
}

proof fn lemma_offset_bound_zero(lens: Seq<usize>, k: int)
    requires
        0 <= k <= lens.len(),
    ensures
        0 <= offset(lens, k),
    decreases k,
{
    if k > 0 {
        lemma_offset_bound_zero(lens, k - 1);
    }
}

/// The lowest bottom and highest top over all bricks, hidden ones included.
pub fn height_range(bricks: &Vec<Brick>) -> (r: Option<(i64, i64)>)
    ensures
        bricks@.len() == 0 <==> r is None,
        match r {
            Some((lo, hi)) => is_height_range(bricks@, lo, hi),
            None => true,
        },
{
    if bricks.len() == 0 {
        return None;
    }
    let mut lo = bottom_surface(&bricks[0]);
    let mut hi = top_surface(&bricks[0]);
    let mut k: usize = 1;
    while k < bricks.len()
        invariant
            1 <= k <= bricks@.len(),
            lo <= hi,
            forall|j: int| 0 <= j < k ==> lo <= bottom_of(#[trigger] bricks@[j]),
            forall|j: int| 0 <= j < k ==> top_of(#[trigger] bricks@[j]) <= hi,
            exists|j: int| 0 <= j < k && lo == bottom_of(#[trigger] bricks@[j]),
            exists|j: int| 0 <= j < k && hi == top_of(#[trigger] bricks@[j]),
        decreases bricks@.len() - k,
    {
        let b = bottom_surface(&bricks[k]);
        let t = top_surface(&bricks[k]);
        if b < lo {
            lo = b;
        }
        if t > hi {
            hi = t;
        }
        k += 1;
    }
    Some((lo, hi))
}

fn cutoff_exec(lo: i64, hi: i64, i: usize) -> (c: i64)
    requires
        lo <= hi,
        -0x4_0000_0000 <= lo,
        hi <= 0x4_0000_0000,
        i <= NUM_DIVISIONS,
    ensures
        c == cutoff(lo as int, hi as int, i as int),
{
    assert(0 <= (hi - lo) * i <= 0x8_0000_0000 * 500) by (nonlinear_arith)
        requires 0 <= hi - lo <= 0x8_0000_0000, 0 <= i <= 500;
    lo + (hi - lo) * (i as i64) / (NUM_DIVISIONS as i64)
}

/// The bucket index of the stream in which brick `k` takes `lens[k]` floats
/// (zero for hidden bricks), over the height range of all the bricks.
pub open spec fn is_height_index(bs: Seq<Brick>, lens: Seq<usize>, r: HeightIndex) -> bool {
    &&& r.len == offset(lens, bs.len() as int)
    &&& r.bot_height_indices@.len() == NUM_DIVISIONS
    &&& r.top_height_indices@.len() == NUM_DIVISIONS
    &&& forall|i: int| 0 <= i < NUM_DIVISIONS ==> #[trigger] r.bot_height_indices@[i] == bucket_start(
        bs,
        lens,
        r.min_height as int,
        r.max_height as int,
        i,
    )
    &&& forall|i: int|
        0 <= i < NUM_DIVISIONS - 1 ==> #[trigger] r.top_height_indices@[i] == r.bot_height_indices@[i + 1]
    &&& r.top_height_indices@[NUM_DIVISIONS - 1] == r.len
    &&& r.min_height <= r.max_height
    &&& bs.len() > 0 ==> is_height_range(bs, r.min_height, r.max_height)
    &&& bs.len() == 0 ==> r.min_height == 0 && r.max_height == 0
}

/// Builds the bucket index of a stream of bricks taking `lens` floats each.
/// Meaningful for clipping when the bricks come in non-decreasing top order.
pub fn build_height_index(bricks: &Vec<Brick>, lens: &Vec<usize>) -> (r: HeightIndex)
    requires
        lens@.len() == bricks@.len(),
        bricks@.len() <= u32::MAX,
        forall|k: int| 0 <= k < lens@.len() ==> #[trigger] lens@[k] <= MAX_BRICK_FLOATS,
    ensures
        is_height_index(bricks@, lens@, r),
{
    let n = bricks.len();
    let (lo, hi) = match height_range(bricks) {
        Some(range) => range,
        None => (0, 0),
    };
    let ghost bs = bricks@;
    let mut bot: Vec<i64> = vec![-1; NUM_DIVISIONS];
    let mut ci: usize = 0;
    let mut len: u64 = 0;
    let mut k: usize = 0;
    proof {
        if n > 0 {
            let j = choose|j: int| 0 <= j < n && lo == bottom_of(#[trigger] bs[j]);
            let j2 = choose|j: int| 0 <= j < n && hi == top_of(#[trigger] bs[j]);
        }
    }
    while k < n
        invariant
            n == bs.len(),
            bricks@ == bs,
            lens@.len() == n,
            n <= u32::MAX,
            forall|j: int| 0 <= j < n ==> #[trigger] lens@[j] <= MAX_BRICK_FLOATS,
            lo <= hi,
            -0x4_0000_0000 <= lo,
            hi <= 0x4_0000_0000,
            k <= n,
            ci <= NUM_DIVISIONS,
            len == offset(lens@, k as int),
            bot@.len() == NUM_DIVISIONS,
            forall|i: int| 0 <= i < ci ==> #[trigger] bot@[i] == bucket_start(bs, lens@, lo as int, hi as int, i),
            forall|i: int|
                ci <= i < NUM_DIVISIONS ==> #[trigger] bot@[i] == -1,
            forall|i: int|
                ci <= i < NUM_DIVISIONS ==> (#[trigger] first_reach(bs, cutoff(lo as int, hi as int, i), 0))
                    == first_reach(bs, cutoff(lo as int, hi as int, i), k as int),
        decreases n - k,
    {
        proof {
            lemma_offset_bound(lens@, k as int);
            lemma_offset_bound(lens@, k + 1);
            assert((k + 1) * MAX_BRICK_FLOATS <= 0x1_0000_0000 * 720) by (nonlinear_arith)
                requires k < n, n <= u32::MAX;
        }
        let b = &bricks[k];
        if b.visibility {
            let t = top_surface(b);
            while ci < NUM_DIVISIONS && t >= cutoff_exec(lo, hi, ci)
                invariant
                    n == bs.len(),
                    bricks@ == bs,
                    k < n,
                    *b == bs[k as int],
                    b.visibility,
                    t == top_of(bs[k as int]),
                    lo <= hi,
                    -0x4_0000_0000 <= lo,
                    hi <= 0x4_0000_0000,
                    ci <= NUM_DIVISIONS,
                    len == offset(lens@, k as int),
                    len <= 0x400_0000_0000,
                    bot@.len() == NUM_DIVISIONS,
                    forall|i: int| 0 <= i < ci ==> #[trigger] bot@[i] == bucket_start(bs, lens@, lo as int, hi as int, i),
                    forall|i: int|
                        ci <= i < NUM_DIVISIONS ==> #[trigger] bot@[i] == -1,
                    forall|i: int|
                        ci <= i < NUM_DIVISIONS ==> (#[trigger] first_reach(bs, cutoff(lo as int, hi as int, i), 0))
                            == first_reach(bs, cutoff(lo as int, hi as int, i), k as int),
                decreases NUM_DIVISIONS - ci,
            {
                let ghost old_bot = bot@;
                proof {
                    let c = cutoff(lo as int, hi as int, ci as int);
                    assert(old_bot[ci as int] == -1 && first_reach(bs, c, 0) == first_reach(bs, c, k as int));
                    assert(reaches(bs[k as int], c));
                    assert(first_reach(bs, c, k as int) == Some(k as int));
                    assert(bucket_start(bs, lens@, lo as int, hi as int, ci as int) == len);
                }
                bot.set(ci, len as i64);
                ci += 1;
                proof {
                    assert forall|i: int| 0 <= i < ci implies #[trigger] bot@[i] == bucket_start(bs, lens@, lo as int, hi as int, i) by {
                        if i < ci - 1 {
                            assert(old_bot[i] == bucket_start(bs, lens@, lo as int, hi as int, i));
                        }
                    }
                    assert forall|i: int| ci <= i < NUM_DIVISIONS implies #[trigger] bot@[i] == -1 && first_reach(bs, cutoff(lo as int, hi as int, i), 0)
                            == first_reach(bs, cutoff(lo as int, hi as int, i), k as int) by {
                        assert(old_bot[i] == -1 && first_reach(bs, cutoff(lo as int, hi as int, i), 0)
                            == first_reach(bs, cutoff(lo as int, hi as int, i), k as int));
                    }
                }
            }
            proof {
                assert forall|i: int| ci <= i < NUM_DIVISIONS implies !reaches(
                    #[trigger] bs[k as int],
                    cutoff(lo as int, hi as int, i),
                ) by {
                    lemma_cutoff_monotone(lo as int, hi as int, ci as int, i);
                }
            }
        }
        proof {
            assert forall|i: int| ci <= i < NUM_DIVISIONS implies first_reach(
                bs,
                cutoff(lo as int, hi as int, i),
                k as int,
            ) == first_reach(bs, cutoff(lo as int, hi as int, i), k + 1) by {
                assert(!reaches(bs[k as int], cutoff(lo as int, hi as int, i)));
            }
        }
        let ghost mid_bot = bot@;
        len = len + lens[k] as u64;
        proof {
            assert forall|i: int| ci <= i < NUM_DIVISIONS implies #[trigger] bot@[i] == -1 && first_reach(bs, cutoff(lo as int, hi as int, i), 0)
                    == first_reach(bs, cutoff(lo as int, hi as int, i), k + 1) by {
                assert(mid_bot[i] == -1 && first_reach(bs, cutoff(lo as int, hi as int, i), 0)
                    == first_reach(bs, cutoff(lo as int, hi as int, i), k as int));
                assert(first_reach(bs, cutoff(lo as int, hi as int, i), k as int)
                    == first_reach(bs, cutoff(lo as int, hi as int, i), k + 1));
            }
        }
        k += 1;
    }
    let mut top: Vec<i64> = vec![-1; NUM_DIVISIONS];
    let mut i: usize = 0;
    while i + 1 < NUM_DIVISIONS
        invariant
            top@.len() == NUM_DIVISIONS,
            bot@.len() == NUM_DIVISIONS,
            i < NUM_DIVISIONS,
            forall|j: int| 0 <= j < i ==> #[trigger] top@[j] == bot@[j + 1],
        decreases NUM_DIVISIONS - i,
    {
        top.set(i, bot[i + 1]);
        i += 1;
    }
    proof {
        lemma_offset_bound(lens@, n as int);
        assert(n * MAX_BRICK_FLOATS <= 0x1_0000_0000 * 720) by (nonlinear_arith)
            requires n <= u32::MAX;
    }
    top.set(NUM_DIVISIONS - 1, len as i64);
    proof {
        assert forall|i: int| 0 <= i < NUM_DIVISIONS implies #[trigger] bot@[i] == bucket_start(
            bs,
            lens@,
            lo as int,
            hi as int,
            i,
        ) by {
            if i >= ci {
                assert(bot@[i] == -1 && first_reach(bs, cutoff(lo as int, hi as int, i), 0)
                    == first_reach(bs, cutoff(lo as int, hi as int, i), n as int));
                assert(first_reach(bs, cutoff(lo as int, hi as int, i), n as int) is None);
            }
        }
    }
    HeightIndex {
        min_height: lo,
        max_height: hi,
        bot_height_indices: bot,
        top_height_indices: top,
        len,
    }
}


/// Where the records for buckets `lo` to `hi` begin: the start of bucket
/// `lo`, or the stream's end if no brick reaches it.
pub open spec fn clip_start(index: HeightIndex, lo: int) -> int {
    let s = index.bot_height_indices@[lo] as int;
    if s < 0 || s > index.len { index.len as int } else { s }
}

/// Where they end: the end of bucket `hi`, or the stream's end if no brick
/// reaches the bucket after it; never before their start.
pub open spec fn clip_end(index: HeightIndex, lo: int, hi: int) -> int {
    let e = index.top_height_indices@[hi] as int;
    let e = if e < 0 || e > index.len { index.len as int } else { e };
    if e < clip_start(index, lo) { clip_start(index, lo) } else { e }
}

/// The part of the stream that shows buckets `lo` to `hi`, as a start and an
/// end offset within the stream.
pub fn clip_range(index: &HeightIndex, lo: usize, hi: usize) -> (r: (u64, u64))
    requires
        lo < NUM_DIVISIONS,
        hi < NUM_DIVISIONS,
        index.bot_height_indices@.len() == NUM_DIVISIONS,
        index.top_height_indices@.len() == NUM_DIVISIONS,
    ensures
        r.0 == clip_start(*index, lo as int),
        r.1 == clip_end(*index, lo as int, hi as int),
        r.0 <= r.1 <= index.len,
{
    let s = index.bot_height_indices[lo];
    let start: u64 = if s < 0 || s as u64 > index.len { index.len } else { s as u64 };
    let e = index.top_height_indices[hi];
    let end: u64 = if e < 0 || e as u64 > index.len { index.len } else { e as u64 };
    if end < start {
        (start, start)
    } else {
        (start, end)
    }
}

} // verus!
