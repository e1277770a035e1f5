//! Scene preparation: sizes resolved, bricks oriented, ordered bottom to top,
//! and exactly occluded duplicates hidden.

use vstd::prelude::*;
use crate::assets::{catalog_size, catalog_size_of};
use crate::brick::{Brick, Direction, Rotation, Size, size_of, sizer, top_of, top_surface};
use crate::order::{SortKey, is_key_order, key_head, key_lt, lists, sorted_order};

verus! {

/// Why a scene cannot be prepared or drawn.
#[derive(Clone, Copy, Debug, PartialEq, Eq, Structural)]
pub enum SceneError {
    /// A brick names an asset past the end of the asset table.
    AssetIndexOutOfRange(u32),
    /// A brick names a colour past the end of the palette.
    ColorIndexOutOfRange(u32),
}

/// Half-extents turned by the brick's rotation, then tipped onto its
/// direction so that the third component is the height.
pub open spec fn oriented(s: (u32, u32, u32), r: Rotation, d: Direction) -> (u32, u32, u32) {
    let t = if r == Rotation::Deg90 || r == Rotation::Deg270 {
        (s.1, s.0, s.2)
    } else {
        s
    };
    match d {
        Direction::XPositive | Direction::XNegative => (t.2, t.1, t.0),
        Direction::YPositive | Direction::YNegative => (t.1, t.2, t.0),
        _ => t,
    }
}

/// The catalogue size of a known fixed-mesh asset, else the brick's own.
pub open spec fn resolved_size(b: Brick, name: Seq<char>) -> (u32, u32, u32) {
    match catalog_size(name) {
        Some(s) => s,
        None => size_of(b),
    }
}

/// A brick with its size resolved and oriented.
pub open spec fn transformed(b: Brick, name: Seq<char>) -> Brick {
    let s = oriented(resolved_size(b, name), b.rotation, b.direction);
    Brick { size: Size::Procedural(s.0, s.1, s.2), ..b }
}

/// The visible bricks of `raw`, in order, each transformed; or the error for
/// the first visible brick whose asset index is out of range.
pub open spec fn transform_all(raw: Seq<Brick>, assets: Seq<String>) -> Result<Seq<Brick>, SceneError>
    decreases raw.len(),
{
    if raw.len() == 0 {
        Ok(Seq::empty())
    } else {
        match transform_all(raw.drop_last(), assets) {
            Err(e) => Err(e),
            Ok(prev) => {
                let b = raw.last();
                if !b.visibility {
                    Ok(prev)
                } else if b.asset_name_index >= assets.len() {
                    Err(SceneError::AssetIndexOutOfRange(b.asset_name_index))
                } else {
                    Ok(prev.push(transformed(b, assets[b.asset_name_index as int]@)))
                }
            },
        }
    }
}

/// A brick with `catalog` as its fixed size if it has one, oriented.
fn transform_known(brick: Brick, catalog: Option<(u32, u32, u32)>) -> (r: Brick)
    ensures
        r == (Brick {
            size: {
                let s = oriented(
                    match catalog {
                        Some(s) => s,
                        None => size_of(brick),
                    },
                    brick.rotation,
                    brick.direction,
                );
                Size::Procedural(s.0, s.1, s.2)
            },
            ..brick
        }),
{
    let mut size = match catalog {
        Some(s) => s,
        None => sizer(&brick),
    };
    if brick.rotation == Rotation::Deg90 || brick.rotation == Rotation::Deg270 {
        size = (size.1, size.0, size.2);
    }
    match brick.direction {
        Direction::XPositive | Direction::XNegative => {
            size = (size.2, size.1, size.0);
        },
        Direction::YPositive | Direction::YNegative => {
            size = (size.1, size.2, size.0);
        },
        _ => {},
    }
    Brick { size: Size::Procedural(size.0, size.1, size.2), ..brick }
}

/// Resolves a brick's size (catalogue size for known fixed-mesh assets, its
/// own otherwise) and orients it.
pub fn transform_brick(brick: Brick, brick_assets: &Vec<String>) -> (r: Result<Brick, SceneError>)
    ensures
        brick.asset_name_index >= brick_assets@.len() ==> r == Err::<Brick, SceneError>(
            SceneError::AssetIndexOutOfRange(brick.asset_name_index),
        ),
        brick.asset_name_index < brick_assets@.len() ==> r == Ok::<Brick, SceneError>(
            transformed(brick, brick_assets@[brick.asset_name_index as int]@),
        ),
{
    let index = brick.asset_name_index;
    if index as usize >= brick_assets.len() {
        return Err(SceneError::AssetIndexOutOfRange(index));
    }
    let catalog = catalog_size_of(brick_assets[index as usize].as_str());
    Ok(transform_known(brick, catalog))
}

/// The catalogue size of every asset name, looked up once.
fn catalog_sizes(brick_assets: &Vec<String>) -> (r: Vec<Option<(u32, u32, u32)>>)
    ensures
        r@.len() == brick_assets@.len(),
        forall|i: int| 0 <= i < r@.len() ==> #[trigger] r@[i] == catalog_size(brick_assets@[i]@),
{
    let mut r: Vec<Option<(u32, u32, u32)>> = Vec::new();
    let mut i: usize = 0;
    while i < brick_assets.len()
        invariant
            i <= brick_assets@.len(),
            r@.len() == i,
            forall|j: int| 0 <= j < i ==> #[trigger] r@[j] == catalog_size(brick_assets@[j]@),
        decreases brick_assets@.len() - i,
    {
        r.push(catalog_size_of(brick_assets[i].as_str()));
        i += 1;
    }
    r
}

/// Drops a hidden brick; transforms a visible one.
pub fn filter_and_transform_brick(brick: Brick, brick_assets: &Vec<String>) -> (r: Result<
    Option<Brick>,
    SceneError,
>)
    ensures
        !brick.visibility ==> r == Ok::<Option<Brick>, SceneError>(None),
        brick.visibility && brick.asset_name_index >= brick_assets@.len() ==> r == Err::<
            Option<Brick>,
            SceneError,
        >(SceneError::AssetIndexOutOfRange(brick.asset_name_index)),
        brick.visibility && brick.asset_name_index < brick_assets@.len() ==> r == Ok::<
            Option<Brick>,
            SceneError,
        >(Some(transformed(brick, brick_assets@[brick.asset_name_index as int]@))),
{
    if !brick.visibility {
        return Ok(None);
    }
    match transform_brick(brick, brick_assets) {
        Ok(b) => Ok(Some(b)),
        Err(e) => Err(e),
    }
}

/// The visible bricks of `bricks`, transformed, in their order.
pub fn transform_bricks(bricks: &Vec<Brick>, brick_assets: &Vec<String>) -> (r: Result<
    Vec<Brick>,
    SceneError,
>)
    ensures
        match r {
            Ok(v) => transform_all(bricks@, brick_assets@) == Ok::<Seq<Brick>, SceneError>(v@),
            Err(e) => transform_all(bricks@, brick_assets@) == Err::<Seq<Brick>, SceneError>(e),
        },
{
    let catalog = catalog_sizes(brick_assets);
    let mut out: Vec<Brick> = Vec::new();
    let mut i: usize = 0;
    while i < bricks.len()
        invariant
            catalog@.len() == brick_assets@.len(),
            forall|j: int| 0 <= j < catalog@.len() ==> #[trigger] catalog@[j] == catalog_size(brick_assets@[j]@),
            i <= bricks.len(),
            transform_all(bricks@.subrange(0, i as int), brick_assets@) == Ok::<
                Seq<Brick>,
                SceneError,
            >(out@),
        decreases bricks.len() - i,
    {
        let ghost pre = bricks@.subrange(0, i as int);
        assert(bricks@.subrange(0, i + 1).drop_last() =~= pre);
        let b = bricks[i];
        if b.visibility {
            let index = b.asset_name_index;
            if index as usize >= catalog.len() {
                proof {
                    lemma_transform_all_err_sticks(bricks@, brick_assets@, i as int + 1);
                }
                return Err(SceneError::AssetIndexOutOfRange(index));
            }
            out.push(transform_known(b, catalog[index as usize]));
        }
        i += 1;
    }
    assert(bricks@.subrange(0, bricks@.len() as int) =~= bricks@);
    Ok(out)
}

proof fn lemma_transform_all_err_sticks(raw: Seq<Brick>, assets: Seq<String>, n: int)
    requires
        0 <= n <= raw.len(),
        transform_all(raw.subrange(0, n), assets) is Err,
    ensures
        transform_all(raw, assets) == transform_all(raw.subrange(0, n), assets),
    decreases raw.len() - n,
{
    if n < raw.len() {
        assert(raw.subrange(0, n + 1).drop_last() =~= raw.subrange(0, n));
        lemma_transform_all_err_sticks(raw, assets, n + 1);
    } else {
        assert(raw.subrange(0, n) =~= raw);
    }
}


/// The sort key of brick `i` by height: its top, then its position.
pub open spec fn height_key(bs: Seq<Brick>, i: int) -> SortKey {
    (top_of(bs[i]) as i64, 0, 0, 0, 0, 0, 0, i as usize)
}

pub open spec fn height_keys(bs: Seq<Brick>) -> Seq<SortKey> {
    Seq::new(bs.len(), |i: int| height_key(bs, i))
}

/// The bricks of `bs` at the positions listed by `o`.
pub open spec fn permuted(bs: Seq<Brick>, o: Seq<usize>) -> Seq<Brick> {
    o.map_values(|i: usize| bs[i as int])
}

/// `r` is `bs` sorted by top height, bricks of equal top keeping their order.
pub open spec fn is_height_sorted(bs: Seq<Brick>, r: Seq<Brick>) -> bool {
    exists|o: Seq<usize>| is_key_order(height_keys(bs), o) && r == permuted(bs, o)
}

/// Stable sort of the bricks by the height of their top face.
pub fn sort_by_height(bricks: &Vec<Brick>) -> (r: Vec<Brick>)
    ensures
        is_height_sorted(bricks@, r@),
        r@.len() == bricks@.len(),
        forall|k: int, l: int| 0 <= k < l < r@.len() ==> top_of(#[trigger] r@[k]) <= top_of(#[trigger] r@[l]),
{
    let n = bricks.len();
    let mut keys: Vec<SortKey> = Vec::new();
    let mut i: usize = 0;
    while i < n
        invariant
            n == bricks@.len(),
            i <= n,
            keys@ == height_keys(bricks@).subrange(0, i as int),
        decreases n - i,
    {
        keys.push((top_surface(&bricks[i]), 0, 0, 0, 0, 0, 0, i));
        proof {
            assert(keys@ =~= height_keys(bricks@).subrange(0, i + 1));
        }
        i += 1;
    }
    assert(keys@ =~= height_keys(bricks@));
    let order = sorted_order(keys);
    let mut r: Vec<Brick> = Vec::new();
    let mut k: usize = 0;
    while k < n
        invariant
            n == bricks@.len(),
            is_key_order(height_keys(bricks@), order@),
            k <= n,
            r@ == permuted(bricks@, order@).subrange(0, k as int),
        decreases n - k,
    {
        r.push(bricks[order[k]]);
        proof {
            assert(r@ =~= permuted(bricks@, order@).subrange(0, k + 1));
        }
        k += 1;
    }
    assert(r@ =~= permuted(bricks@, order@));
    proof {
        let hk = height_keys(bricks@);
        assert forall|a: int, b: int| 0 <= a < b < r@.len() implies top_of(#[trigger] r@[a])
            <= top_of(#[trigger] r@[b]) by {
            assert(key_lt(hk[order@[a] as int], hk[order@[b] as int]));
        }
    }
    r
}

/// What identifies an exactly occluding duplicate: same asset, same plane
/// size and position, same orientation.
#[derive(Clone, Copy, Debug, PartialEq, Eq)]
pub struct BrickShape {
    pub name_index: u32,
    pub size: (u32, u32),
    pub position: (i32, i32),
    pub rotation: Rotation,
    pub direction: Direction,
}

pub open spec fn shape_key_of(b: Brick) -> BrickShape {
    BrickShape {
        name_index: b.asset_name_index,
        size: (size_of(b).0, size_of(b).1),
        position: (b.position.0, b.position.1),
        rotation: b.rotation,
        direction: b.direction,
    }
}

/// A brick further down the list has the same shape key as brick `i`.
pub open spec fn has_later_twin(bs: Seq<Brick>, i: int) -> bool {
    exists|j: int| i < j < bs.len() && shape_key_of(#[trigger] bs[j]) == shape_key_of(bs[i])
}

/// Every brick that has a later twin is hidden; nothing else changes.
pub open spec fn dedup_spec(bs: Seq<Brick>) -> Seq<Brick> {
    Seq::new(
        bs.len(),
        |i: int| Brick { visibility: bs[i].visibility && !has_later_twin(bs, i), ..bs[i] },
    )
}

pub open spec fn rotation_code(r: Rotation) -> i64 {
    match r {
        Rotation::Deg0 => 0,
        Rotation::Deg90 => 1,
        Rotation::Deg180 => 2,
        Rotation::Deg270 => 3,
    }
}

pub open spec fn direction_code(d: Direction) -> i64 {
    match d {
        Direction::XPositive => 0,
        Direction::XNegative => 1,
        Direction::YPositive => 2,
        Direction::YNegative => 3,
        Direction::ZPositive => 4,
        Direction::ZNegative => 5,
    }
}

pub open spec fn shape_sort_key(bs: Seq<Brick>, i: int) -> SortKey {
    let b = bs[i];
    (
        b.asset_name_index as i64,
        size_of(b).0 as i64,
        size_of(b).1 as i64,
        b.position.0 as i64,
        b.position.1 as i64,
        rotation_code(b.rotation),
        direction_code(b.direction),
        i as usize,
    )
}

/// The shape key of brick `i`, as a sort key.
fn brick_shape_key(b: &Brick, i: usize) -> (k: SortKey)
    ensures
        forall|bs: Seq<Brick>| 0 <= i < bs.len() && bs[i as int] == *b ==> k == shape_sort_key(bs, i as int),
{
    let size = sizer(b);
    let rot: i64 = match b.rotation {
        Rotation::Deg0 => 0,
        Rotation::Deg90 => 1,
        Rotation::Deg180 => 2,
        Rotation::Deg270 => 3,
    };
    let dir: i64 = match b.direction {
        Direction::XPositive => 0,
        Direction::XNegative => 1,
        Direction::YPositive => 2,
        Direction::YNegative => 3,
        Direction::ZPositive => 4,
        Direction::ZNegative => 5,
    };
    (b.asset_name_index as i64, size.0 as i64, size.1 as i64, b.position.0 as i64, b.position.1 as i64, rot, dir, i)
}

proof fn lemma_sandwich(a: SortKey, b: SortKey, c: SortKey)
    requires
        key_lt(a, b) || a == b,
        key_lt(b, c) || b == c,
        key_head(a) == key_head(c),
    ensures
        key_head(b) == key_head(a),
{
}

/// Hides every brick that an identical brick later in the list covers: of
/// bricks with one shape key, only the last keeps its visibility. On a list
/// sorted by height the survivor is the highest of the stack.
pub fn discard_hidden_bricks(bricks: Vec<Brick>) -> (r: Vec<Brick>)
    ensures
        r@ == dedup_spec(bricks@),
{
    let ghost orig = bricks@;
    let n = bricks.len();
    let mut keys: Vec<SortKey> = Vec::new();
    let mut i: usize = 0;
    while i < n
        invariant
            n == orig.len(),
            bricks@ == orig,
            i <= n,
            forall|j: int| 0 <= j < i ==> #[trigger] keys@[j] == shape_sort_key(orig, j),
            keys@.len() == i,
        decreases n - i,
    {
        keys.push(brick_shape_key(&bricks[i], i));
        i += 1;
    }
    let ghost ks = keys@;
    assert(ks.len() == n);
    let order = sorted_order(keys);
    let ghost o = order@;
    let ghost pos = Seq::new(n as nat, |i: int| choose|k: int| 0 <= k < o.len() && o[k] == i);
    proof {
        assert forall|i: int| 0 <= i < n implies 0 <= #[trigger] pos[i] < n && o[pos[i]] == i by {
            assert(lists(o, i));
        }
    }
    let mut out = bricks;
    let mut k: usize = 0;
    while k < n
        invariant
            n == orig.len(),
            out@.len() == n,
            k <= n,
            order@ == o,
            ks.len() == n,
            is_key_order(ks, o),
            forall|j: int| 0 <= j < n ==> #[trigger] ks[j] == shape_sort_key(orig, j),
            forall|j: int| 0 <= j < n ==> 0 <= #[trigger] pos[j] < n && o[pos[j]] == j,
            forall|j: int|
                0 <= j < n ==> #[trigger] out@[j] == (if pos[j] < k {
                    dedup_spec(orig)[j]
                } else {
                    orig[j]
                }),
        decreases n - k,
    {
        let i = order[k];
        let twin = k + 1 < n && {
            let (a, b) = (brick_shape_key(&out[i], i), brick_shape_key(&out[order[k + 1]], order[k + 1]));
            a.0 == b.0 && a.1 == b.1 && a.2 == b.2 && a.3 == b.3 && a.4 == b.4 && a.5 == b.5 && a.6 == b.6
        };
        proof {
            let ii = i as int;
            assert(o[pos[ii]] == ii);
            if pos[ii] != k {
                if pos[ii] < k {
                    assert(key_lt(ks[o[pos[ii]] as int], ks[o[k as int] as int]));
                } else {
                    assert(key_lt(ks[o[k as int] as int], ks[o[pos[ii]] as int]));
                }
            }
            assert(pos[ii] == k);
            assert(out@[ii] == orig[ii]);
            if k + 1 < n {
                let jj = o[k + 1] as int;
                assert(pos[jj] == k + 1) by {
                    if pos[jj] < k + 1 {
                        assert(key_lt(ks[o[pos[jj]] as int], ks[o[k + 1] as int]));
                    } else if pos[jj] > k + 1 {
                        assert(key_lt(ks[o[k + 1] as int], ks[o[pos[jj]] as int]));
                    }
                }
                assert(out@[jj] == orig[jj]);
            }
            assert(twin == has_later_twin(orig, ii)) by {
                if twin {
                    let jj = o[k + 1] as int;
                    assert(key_lt(ks[ii], ks[jj]));
                    assert(ii < jj);
                    assert(shape_key_of(orig[jj]) == shape_key_of(orig[ii]));
                }
                if has_later_twin(orig, ii) {
                    let jj = choose|jj: int| ii < jj < orig.len() && shape_key_of(#[trigger] orig[jj])
                        == shape_key_of(orig[ii]);
                    let m = pos[jj];
                    assert(key_head(ks[ii]) == key_head(ks[jj]));
                    assert(key_lt(ks[ii], ks[jj]));
                    if m < k {
                        assert(key_lt(ks[o[m] as int], ks[o[k as int] as int]));
                    }
                    assert(m > k);
                    assert(key_lt(ks[o[k as int] as int], ks[o[k + 1] as int]));
                    if m > k + 1 {
                        assert(key_lt(ks[o[k + 1] as int], ks[o[m] as int]));
                    }
                    lemma_sandwich(ks[ii], ks[o[k + 1] as int], ks[jj]);
                }
            }
        }
        if twin {
            let b = Brick { visibility: false, ..out[i] };
            out.set(i, b);
        }
        proof {
            assert forall|j: int| 0 <= j < n implies #[trigger] out@[j] == (if pos[j] < k + 1 {
                dedup_spec(orig)[j]
            } else {
                orig[j]
            }) by {
                if j == i as int {
                } else {
                    assert(pos[j] != k);
                }
            }
        }
        k += 1;
    }
    proof {
        assert(out@ =~= dedup_spec(orig));
    }
    out
}

/// `v` is `t` sorted by height with its exactly occluded duplicates hidden.
pub open spec fn prepared_from(t: Seq<Brick>, v: Seq<Brick>) -> bool {
    exists|s: Seq<Brick>| is_height_sorted(t, s) && v == dedup_spec(s)
}

/// Prepares loaded bricks for drawing: drops hidden ones, resolves and
/// orients sizes, sorts bottom to top and hides exact duplicates.
pub fn prepare_bricks(bricks: &Vec<Brick>, brick_assets: &Vec<String>) -> (r: Result<
    Vec<Brick>,
    SceneError,
>)
    ensures
        match r {
            Ok(v) => match transform_all(bricks@, brick_assets@) {
                Ok(t) => prepared_from(t, v@),
                Err(_) => false,
            },
            Err(e) => transform_all(bricks@, brick_assets@) == Err::<Seq<Brick>, SceneError>(e),
        },
{
    match transform_bricks(bricks, brick_assets) {
        Err(e) => Err(e),
        Ok(t) => {
            let sorted = sort_by_height(&t);
            let v = discard_hidden_bricks(sorted);
            Ok(v)
        },
    }
}

pub proof fn lemma_transform_all_len(raw: Seq<Brick>, assets: Seq<String>)
    ensures
        transform_all(raw, assets) is Ok ==> transform_all(raw, assets)->Ok_0.len() <= raw.len(),
    decreases raw.len(),
{
    if raw.len() > 0 {
        lemma_transform_all_len(raw.drop_last(), assets);
    }
}

pub proof fn lemma_prepared_len(t: Seq<Brick>, v: Seq<Brick>)
    requires
        prepared_from(t, v),
    ensures
        v.len() == t.len(),
{
    let s = choose|s: Seq<Brick>| is_height_sorted(t, s) && v == dedup_spec(s);
    let o = choose|o: Seq<usize>| is_key_order(height_keys(t), o) && s == permuted(t, o);
}

/// Hiding duplicates twice hides nothing more than hiding them once.
pub proof fn lemma_dedup_idempotent(bs: Seq<Brick>)
    ensures
        dedup_spec(dedup_spec(bs)) == dedup_spec(bs),
{
    let d = dedup_spec(bs);
    assert forall|i: int| 0 <= i < bs.len() implies has_later_twin(d, i) == has_later_twin(bs, i) by {
        if has_later_twin(bs, i) {
            let j = choose|j: int| i < j < bs.len() && shape_key_of(#[trigger] bs[j]) == shape_key_of(bs[i]);
            assert(shape_key_of(d[j]) == shape_key_of(d[i]));
        }
        if has_later_twin(d, i) {
            let j = choose|j: int| i < j < d.len() && shape_key_of(#[trigger] d[j]) == shape_key_of(d[i]);
            assert(shape_key_of(bs[j]) == shape_key_of(bs[i]));
        }
    }
    assert(dedup_spec(d) =~= d);
}

} // verus!
