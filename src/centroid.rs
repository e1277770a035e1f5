//! Area-weighted centroid and footprint bounds of the visible bricks.

use vstd::prelude::*;
use crate::brick::{Brick, footprint, footprint_of, size_of, sizer};

verus! {

/// Plane area weight of a brick: its half-extents' product, zero if hidden.
pub open spec fn area_of(b: Brick) -> int {
    if b.visibility {
        size_of(b).0 * size_of(b).1
    } else {
        0
    }
}

pub open spec fn area_sum(bs: Seq<Brick>) -> int
    decreases bs.len(),
{
    if bs.len() == 0 {
        0
    } else {
        area_sum(bs.drop_last()) + area_of(bs.last())
    }
}

/// Sum of area-weighted x (`axis` 0) or y (`axis` 1) positions.
pub open spec fn moment(bs: Seq<Brick>, axis: int) -> int
    decreases bs.len(),
{
    if bs.len() == 0 {
        0
    } else {
        let b = bs.last();
        moment(bs.drop_last(), axis) + (if axis == 0 { b.position.0 as int } else { b.position.1 as int })
            * area_of(b)
    }
}

/// The centroid, rounded down, or `None` when the visible bricks have no area.
pub open spec fn centroid_spec(bs: Seq<Brick>) -> Option<(int, int)> {
    if area_sum(bs) == 0 {
        None
    } else {
        Some((moment(bs, 0) / area_sum(bs), moment(bs, 1) / area_sum(bs)))
    }
}

proof fn lemma_sums_bounded(bs: Seq<Brick>)
    ensures
        0 <= area_sum(bs) <= bs.len() * 0x1_0000_0000_0000_0000,
        -(bs.len() * 0x1_0000_0000_0000_0000 * 0x8000_0000) <= moment(bs, 0) <= bs.len() * 0x1_0000_0000_0000_0000 * 0x8000_0000,
        -(bs.len() * 0x1_0000_0000_0000_0000 * 0x8000_0000) <= moment(bs, 1) <= bs.len() * 0x1_0000_0000_0000_0000 * 0x8000_0000,
    decreases bs.len(),
{
    if bs.len() > 0 {
        let b = bs.last();
        lemma_sums_bounded(bs.drop_last());
        let a = area_of(b);
        assert(0 <= a <= 0x1_0000_0000_0000_0000) by (nonlinear_arith)
            requires a == (if b.visibility { size_of(b).0 * size_of(b).1 } else { 0 }),
                0 <= size_of(b).0 < 0x1_0000_0000, 0 <= size_of(b).1 < 0x1_0000_0000;
        let (px, py) = (b.position.0 as int, b.position.1 as int);
        assert(-(0x1_0000_0000_0000_0000 * 0x8000_0000) <= px * a <= 0x1_0000_0000_0000_0000 * 0x8000_0000) by (nonlinear_arith)
            requires 0 <= a <= 0x1_0000_0000_0000_0000, -0x8000_0000 <= px < 0x8000_0000;
        assert(-(0x1_0000_0000_0000_0000 * 0x8000_0000) <= py * a <= 0x1_0000_0000_0000_0000 * 0x8000_0000) by (nonlinear_arith)
            requires 0 <= a <= 0x1_0000_0000_0000_0000, -0x8000_0000 <= py < 0x8000_0000;
        assert((bs.len() - 1) * 0x1_0000_0000_0000_0000 + 0x1_0000_0000_0000_0000 == bs.len() * 0x1_0000_0000_0000_0000);
        assert((bs.len() - 1) * 0x1_0000_0000_0000_0000 * 0x8000_0000 + 0x1_0000_0000_0000_0000 * 0x8000_0000 == bs.len() * 0x1_0000_0000_0000_0000 * 0x8000_0000);
    }
}

/// `m / a` rounded down, for a positive `a`.
fn floor_div(m: i128, a: i128) -> (q: i128)
    requires
        a > 0,
        -0x7fff_ffff_ffff_ffff_ffff_ffff_ffff_ffff <= m,
    ensures
        q == m as int / a as int,
{
    if m >= 0 {
        m / a
    } else {
        let p: i128 = -m;
        let q = p / a;
        let r = p % a;
        proof {
            vstd::arithmetic::div_mod::lemma_fundamental_div_mod(p as int, a as int);
            assert(p == a * q + r);
            if r == 0 {
                assert(m == (-q) * a + 0) by (nonlinear_arith)
                    requires p == a * q + r, m == -p, r == 0;
                vstd::arithmetic::div_mod::lemma_fundamental_div_mod_converse(m as int, a as int, -q, 0);
            } else {
                assert(m == (-q - 1) * a + (a - r)) by (nonlinear_arith)
                    requires p == a * q + r, m == -p;
                vstd::arithmetic::div_mod::lemma_fundamental_div_mod_converse(m as int, a as int, -q - 1, a - r);
            }
        }
        if r == 0 {
            -q
        } else {
            -q - 1
        }
    }
}

/// Area-weighted centroid of the visible bricks' positions, rounded down; `None`
/// when they have no area at all.
pub fn calculate_centroid(bricks: &Vec<Brick>) -> (r: Option<(i64, i64)>)
    requires
        bricks@.len() <= u32::MAX,
    ensures
        match centroid_spec(bricks@) {
            None => r is None,
            Some((x, y)) => r == Some::<(i64, i64)>((x as i64, y as i64)) && i32::MIN <= x <= i32::MAX
                && i32::MIN <= y <= i32::MAX,
        },
{
    let mut area: i128 = 0;
    let mut mx: i128 = 0;
    let mut my: i128 = 0;
    let mut k: usize = 0;
    while k < bricks.len()
        invariant
            k <= bricks@.len() <= u32::MAX,
            area == area_sum(bricks@.subrange(0, k as int)),
            mx == moment(bricks@.subrange(0, k as int), 0),
            my == moment(bricks@.subrange(0, k as int), 1),
        decreases bricks@.len() - k,
    {
        let b = &bricks[k];
        let ghost pre = bricks@.subrange(0, k as int);
        let ghost next = bricks@.subrange(0, k + 1);
        proof {
            assert(next.drop_last() =~= pre);
            lemma_sums_bounded(next);
            lemma_sums_bounded(pre);
            assert((k + 1) * 0x1_0000_0000_0000_0000 * 0x8000_0000 <= 0x1_0000_0000 * 0x1_0000_0000_0000_0000 * 0x8000_0000) by (nonlinear_arith)
                requires k + 1 <= 0x1_0000_0000;
        }
        if b.visibility {
            let size = sizer(b);
            let a = size.0 as i128 * size.1 as i128;
            assert(0 <= a <= 0x1_0000_0000_0000_0000) by (nonlinear_arith)
                requires a == size.0 * size.1, 0 <= size.0 < 0x1_0000_0000, 0 <= size.1 < 0x1_0000_0000;
            let (px, py) = (b.position.0 as i128, b.position.1 as i128);
            assert(-0x8000_0000_0000_0000_0000_0000 <= px * a <= 0x8000_0000_0000_0000_0000_0000) by (nonlinear_arith)
                requires 0 <= a <= 0x1_0000_0000_0000_0000, -0x8000_0000 <= px < 0x8000_0000;
            assert(-0x8000_0000_0000_0000_0000_0000 <= py * a <= 0x8000_0000_0000_0000_0000_0000) by (nonlinear_arith)
                requires 0 <= a <= 0x1_0000_0000_0000_0000, -0x8000_0000 <= py < 0x8000_0000;
            assert(a == area_of(next.last()));
            assert(area + a == area_sum(next));
            assert(mx + b.position.0 as i128 * a == moment(next, 0));
            assert(my + b.position.1 as i128 * a == moment(next, 1));
            area = area + a;
            mx = mx + b.position.0 as i128 * a;
            my = my + b.position.1 as i128 * a;
        }
        proof {
            if !b.visibility {
                assert(area_of(next.last()) == 0);
            }
        }
        k += 1;
    }
    assert(bricks@.subrange(0, bricks@.len() as int) =~= bricks@);
    if area == 0 {
        return None;
    }
    proof {
        lemma_sums_bounded(bricks@);
        assert(bricks@.len() * 0x1_0000_0000_0000_0000 * 0x8000_0000 <= 0xffff_ffff * 0x1_0000_0000_0000_0000 * 0x8000_0000) by (nonlinear_arith)
            requires bricks@.len() <= 0xffff_ffff;
    }
    let x = floor_div(mx, area);
    let y = floor_div(my, area);
    proof {
        lemma_centroid_in_range(bricks@);
    }
    Some((x as i64, y as i64))
}

/// A weighted mean of `i32` positions is itself within the `i32` range.
proof fn lemma_centroid_in_range(bs: Seq<Brick>)
    requires
        area_sum(bs) > 0,
    ensures
        -0x8000_0000 <= moment(bs, 0) / area_sum(bs) < 0x8000_0000,
        -0x8000_0000 <= moment(bs, 1) / area_sum(bs) < 0x8000_0000,
{
    lemma_moment_bounded(bs);
    let a = area_sum(bs);
    vstd::arithmetic::div_mod::lemma_div_is_ordered(-0x8000_0000 * a, moment(bs, 0), a);
    vstd::arithmetic::div_mod::lemma_div_is_ordered(moment(bs, 0), 0x7fff_ffff * a, a);
    vstd::arithmetic::div_mod::lemma_div_is_ordered(-0x8000_0000 * a, moment(bs, 1), a);
    vstd::arithmetic::div_mod::lemma_div_is_ordered(moment(bs, 1), 0x7fff_ffff * a, a);
    vstd::arithmetic::div_mod::lemma_fundamental_div_mod_converse(-0x8000_0000 * a, a, -0x8000_0000, 0);
    vstd::arithmetic::div_mod::lemma_fundamental_div_mod_converse(0x7fff_ffff * a, a, 0x7fff_ffff, 0);
}

proof fn lemma_moment_bounded(bs: Seq<Brick>)
    ensures
        area_sum(bs) >= 0,
        -0x8000_0000 * area_sum(bs) <= moment(bs, 0) <= 0x7fff_ffff * area_sum(bs),
        -0x8000_0000 * area_sum(bs) <= moment(bs, 1) <= 0x7fff_ffff * area_sum(bs),
    decreases bs.len(),
{
    if bs.len() > 0 {
        let b = bs.last();
        lemma_moment_bounded(bs.drop_last());
        let a = area_of(b);
        assert(a >= 0) by (nonlinear_arith)
            requires a == (if b.visibility { size_of(b).0 * size_of(b).1 } else { 0 }),
                0 <= size_of(b).0, 0 <= size_of(b).1;
        let (px, py) = (b.position.0 as int, b.position.1 as int);
        assert(-0x8000_0000 * a <= px * a <= 0x7fff_ffff * a) by (nonlinear_arith)
            requires a >= 0, -0x8000_0000 <= px <= 0x7fff_ffff;
        assert(-0x8000_0000 * a <= py * a <= 0x7fff_ffff * a) by (nonlinear_arith)
            requires a >= 0, -0x8000_0000 <= py <= 0x7fff_ffff;
    }
}


/// Every brick moved by `(vx, vy)` in the plane.
pub open spec fn shifted(bs: Seq<Brick>, vx: int, vy: int) -> Seq<Brick> {
    Seq::new(
        bs.len(),
        |i: int|
            Brick {
                position: (
                    (bs[i].position.0 + vx) as i32,
                    (bs[i].position.1 + vy) as i32,
                    bs[i].position.2,
                ),
                ..bs[i]
            },
    )
}

pub open spec fn fits_shifted(bs: Seq<Brick>, vx: int, vy: int) -> bool {
    forall|i: int|
        0 <= i < bs.len() ==> i32::MIN <= (#[trigger] bs[i]).position.0 + vx <= i32::MAX
            && i32::MIN <= bs[i].position.1 + vy <= i32::MAX
}

proof fn lemma_shifted_sums(bs: Seq<Brick>, vx: int, vy: int)
    requires
        fits_shifted(bs, vx, vy),
    ensures
        area_sum(shifted(bs, vx, vy)) == area_sum(bs),
        moment(shifted(bs, vx, vy), 0) == moment(bs, 0) + vx * area_sum(bs),
        moment(shifted(bs, vx, vy), 1) == moment(bs, 1) + vy * area_sum(bs),
    decreases bs.len(),
{
    if bs.len() > 0 {
        let t = shifted(bs, vx, vy);
        let pre = bs.drop_last();
        assert(t.drop_last() =~= shifted(pre, vx, vy));
        assert(fits_shifted(pre, vx, vy)) by {
            assert forall|i: int| 0 <= i < pre.len() implies i32::MIN <= (#[trigger] pre[i]).position.0 + vx
                <= i32::MAX && i32::MIN <= pre[i].position.1 + vy <= i32::MAX by {
                assert(pre[i] == bs[i]);
            }
        }
        lemma_shifted_sums(pre, vx, vy);
        let b = bs.last();
        let a = area_of(b);
        assert(t.last().position.0 == b.position.0 + vx);
        assert(t.last().position.1 == b.position.1 + vy);
        assert(area_of(t.last()) == a);
        assert((b.position.0 + vx) * a == b.position.0 * a + vx * a) by (nonlinear_arith);
        assert((b.position.1 + vy) * a == b.position.1 * a + vy * a) by (nonlinear_arith);
        assert(vx * area_sum(pre) + vx * a == vx * (area_sum(pre) + a)) by (nonlinear_arith);
        assert(vy * area_sum(pre) + vy * a == vy * (area_sum(pre) + a)) by (nonlinear_arith);
    }
}

proof fn lemma_div_shift(m: int, a: int, v: int)
    requires
        a > 0,
    ensures
        (m + v * a) / a == m / a + v,
{
    vstd::arithmetic::div_mod::lemma_fundamental_div_mod(m, a);
    let q = m / a;
    let r = m % a;
    assert(m + v * a == (q + v) * a + r) by (nonlinear_arith)
        requires m == a * q + r;
    vstd::arithmetic::div_mod::lemma_fundamental_div_mod_converse(m + v * a, a, q + v, r);
}

/// Moving every brick by `(vx, vy)` moves the centroid by exactly `(vx, vy)`.
pub proof fn lemma_centroid_follows_shift(bs: Seq<Brick>, vx: int, vy: int)
    requires
        fits_shifted(bs, vx, vy),
    ensures
        centroid_spec(shifted(bs, vx, vy)) == match centroid_spec(bs) {
            None => None,
            Some((x, y)) => Some((x + vx, y + vy)),
        },
{
    lemma_shifted_sums(bs, vx, vy);
    let a = area_sum(bs);
    if a != 0 {
        lemma_moment_bounded(bs);
        lemma_div_shift(moment(bs, 0), a, vx);
        lemma_div_shift(moment(bs, 1), a, vy);
    }
}

/// Footprint bounds of the visible bricks relative to `(x, y)`: least left,
/// least top, greatest right, greatest bottom edge.
pub open spec fn is_bounds(bs: Seq<Brick>, x: int, y: int, r: (i64, i64, i64, i64)) -> bool {
    &&& forall|k: int| 0 <= k < bs.len() && (#[trigger] bs[k]).visibility ==> {
        let f = footprint_of(bs[k]);
        &&& r.0 <= f.x1 - x
        &&& r.1 <= f.y1 - y
        &&& f.x2 - x <= r.2
        &&& f.y2 - y <= r.3
    }
    &&& exists|k: int| 0 <= k < bs.len() && (#[trigger] bs[k]).visibility && r.0 == footprint_of(bs[k]).x1 - x
    &&& exists|k: int| 0 <= k < bs.len() && (#[trigger] bs[k]).visibility && r.1 == footprint_of(bs[k]).y1 - y
    &&& exists|k: int| 0 <= k < bs.len() && (#[trigger] bs[k]).visibility && r.2 == footprint_of(bs[k]).x2 - x
    &&& exists|k: int| 0 <= k < bs.len() && (#[trigger] bs[k]).visibility && r.3 == footprint_of(bs[k]).y2 - y
}

/// Bounds of the visible bricks' footprints relative to `(x, y)`; `None`
/// when no brick is visible.
pub fn calculate_bounds(bricks: &Vec<Brick>, origin: (i64, i64)) -> (r: Option<(i64, i64, i64, i64)>)
    requires
        -0x1_0000_0000 <= origin.0 <= 0x1_0000_0000,
        -0x1_0000_0000 <= origin.1 <= 0x1_0000_0000,
    ensures
        r is None <==> forall|k: int| 0 <= k < bricks@.len() ==> !(#[trigger] bricks@[k]).visibility,
        match r {
            Some(b) => is_bounds(bricks@, origin.0 as int, origin.1 as int, b),
            None => true,
        },
{
    let (x, y) = origin;
    let mut acc: Option<(i64, i64, i64, i64)> = None;
    let mut k: usize = 0;
    while k < bricks.len()
        invariant
            k <= bricks@.len(),
            -0x1_0000_0000 <= x <= 0x1_0000_0000,
            -0x1_0000_0000 <= y <= 0x1_0000_0000,
            acc is None <==> forall|j: int| 0 <= j < k ==> !(#[trigger] bricks@[j]).visibility,
            match acc {
                Some(b) => is_bounds(bricks@.subrange(0, k as int), x as int, y as int, b),
                None => true,
            },
        decreases bricks@.len() - k,
    {
        let ghost pre = bricks@.subrange(0, k as int);
        let ghost next = bricks@.subrange(0, k + 1);
        let b = &bricks[k];
        if b.visibility {
            let f = footprint(b);
            let (x1, y1, x2, y2) = (f.x1 - x, f.y1 - y, f.x2 - x, f.y2 - y);
            let nb = match acc {
                None => (x1, y1, x2, y2),
                Some(c) => (
                    if x1 < c.0 { x1 } else { c.0 },
                    if y1 < c.1 { y1 } else { c.1 },
                    if x2 > c.2 { x2 } else { c.2 },
                    if y2 > c.3 { y2 } else { c.3 },
                ),
            };
            proof {
                assert(next[k as int] == *b);
                assert forall|j: int| 0 <= j < k implies #[trigger] next[j] == pre[j] by {}
                match acc {
                    None => {
                        assert forall|j: int| 0 <= j < next.len() && (#[trigger] next[j]).visibility implies {
                            let g = footprint_of(next[j]);
                            &&& nb.0 <= g.x1 - x
                            &&& nb.1 <= g.y1 - y
                            &&& g.x2 - x <= nb.2
                            &&& g.y2 - y <= nb.3
                        } by {
                            if j < k {
                                assert(!bricks@[j].visibility);
                            }
                        }
                    },
                    Some(c) => {
                        assert forall|j: int| 0 <= j < next.len() && (#[trigger] next[j]).visibility implies {
                            let g = footprint_of(next[j]);
                            &&& nb.0 <= g.x1 - x
                            &&& nb.1 <= g.y1 - y
                            &&& g.x2 - x <= nb.2
                            &&& g.y2 - y <= nb.3
                        } by {
                            if j < k {
                                assert(pre[j].visibility);
                            }
                        }
                        let k0 = choose|j: int| 0 <= j < pre.len() && (#[trigger] pre[j]).visibility && c.0 == footprint_of(pre[j]).x1 - x;
                        let k1 = choose|j: int| 0 <= j < pre.len() && (#[trigger] pre[j]).visibility && c.1 == footprint_of(pre[j]).y1 - y;
                        let k2 = choose|j: int| 0 <= j < pre.len() && (#[trigger] pre[j]).visibility && c.2 == footprint_of(pre[j]).x2 - x;
                        let k3 = choose|j: int| 0 <= j < pre.len() && (#[trigger] pre[j]).visibility && c.3 == footprint_of(pre[j]).y2 - y;
                        assert(next[k0] == pre[k0] && next[k1] == pre[k1] && next[k2] == pre[k2] && next[k3] == pre[k3]);
                    },
                }
            }
            acc = Some(nb);
        } else {
            proof {
                assert forall|j: int| 0 <= j < k implies #[trigger] next[j] == pre[j] by {}
                match acc {
                    Some(c) => {
                        assert forall|j: int| 0 <= j < next.len() && (#[trigger] next[j]).visibility implies {
                            let g = footprint_of(next[j]);
                            &&& c.0 <= g.x1 - x
                            &&& c.1 <= g.y1 - y
                            &&& g.x2 - x <= c.2
                            &&& g.y2 - y <= c.3
                        } by {
                            assert(pre[j].visibility);
                        }
                        let k0 = choose|j: int| 0 <= j < pre.len() && (#[trigger] pre[j]).visibility && c.0 == footprint_of(pre[j]).x1 - x;
                        let k1 = choose|j: int| 0 <= j < pre.len() && (#[trigger] pre[j]).visibility && c.1 == footprint_of(pre[j]).y1 - y;
                        let k2 = choose|j: int| 0 <= j < pre.len() && (#[trigger] pre[j]).visibility && c.2 == footprint_of(pre[j]).x2 - x;
                        let k3 = choose|j: int| 0 <= j < pre.len() && (#[trigger] pre[j]).visibility && c.3 == footprint_of(pre[j]).y2 - y;
                        assert(next[k0] == pre[k0] && next[k1] == pre[k1] && next[k2] == pre[k2] && next[k3] == pre[k3]);
                    },
                    None => {},
                }
            }
        }
        k += 1;
    }
    assert(bricks@.subrange(0, bricks@.len() as int) =~= bricks@);
    acc
}

} // verus!
