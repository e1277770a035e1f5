//! The vertex-stream plan of a prepared scene: which pieces each visible
//! brick contributes, how it is painted, and the height-bucket index over the
//! resulting stream of `(x, y, r, g, b)` records.

use vstd::prelude::*;
use crate::assets::{family_of, family_of_name};
use crate::brick::{Brick, BrickColor, Rgba, footprint, footprint_of};
use crate::centroid::{calculate_bounds, calculate_centroid, centroid_spec, is_bounds};
use crate::layout::{
    HeightIndex, VERTEX_SIZE, build_height_index, height_range, is_height_index, is_height_range,
};
use crate::order::lists;
use crate::prepare::{
    SceneError, lemma_prepared_len, lemma_transform_all_len, prepare_bricks, prepared_from,
    transform_all,
};
use crate::primitives::{FillPiece, OutlinePiece};
use crate::shapes::{
    Family, ShapeTag, fill_count, fill_count_of, fill_of, fill_spec, outline_count, outline_count_of,
    outline_of, outline_spec, shape_of, shape_table,
};

verus! {

/// How a brick's fill is coloured.
#[derive(Clone, Copy, Debug, PartialEq, Eq, Structural)]
pub enum Paint {
    /// Its own colour.
    Color(Rgba),
    /// A grey of its centre's height above the lowest bottom, out of the
    /// scene's height range.
    Height { above_min: i64, range: i64 },
}

/// What one visible brick adds to the stream: its fill, then its outline,
/// which is always black.
pub struct DrawItem {
    pub brick_index: usize,
    pub paint: Paint,
    pub fill: Vec<FillPiece>,
    pub outline: Vec<OutlinePiece>,
}

/// The stream plan: one item per visible brick in order, and the bucket index.
pub struct VertexPlan {
    pub items: Vec<DrawItem>,
    pub index: HeightIndex,
}

/// What is wrong with drawing brick `b`, if anything: its asset index, or
/// (when colours are looked up) its palette index, is out of range.
pub open spec fn brick_error(b: Brick, assets: Seq<String>, palette: Seq<Rgba>, check_color: bool) -> Option<
    SceneError,
> {
    if b.asset_name_index >= assets.len() {
        Some(SceneError::AssetIndexOutOfRange(b.asset_name_index))
    } else if check_color {
        match b.color {
            BrickColor::Index(i) => if i >= palette.len() {
                Some(SceneError::ColorIndexOutOfRange(i))
            } else {
                None
            },
            BrickColor::Unique(_) => None,
        }
    } else {
        None
    }
}

pub open spec fn color_of(b: Brick, palette: Seq<Rgba>) -> Rgba {
    match b.color {
        BrickColor::Index(i) => palette[i as int],
        BrickColor::Unique(c) => c,
    }
}

/// The shape a brick is drawn as.
pub open spec fn brick_tag(b: Brick, assets: Seq<String>) -> ShapeTag {
    shape_table(family_of(assets[b.asset_name_index as int]@), b.direction, b.rotation)
}

/// The paint of a brick: its colour, or with a height range its height.
pub open spec fn paint_of(b: Brick, palette: Seq<Rgba>, heights: Option<(i64, i64)>) -> Paint {
    match heights {
        Some((lo, hi)) => Paint::Height {
            above_min: (b.position.2 - lo) as i64,
            range: (hi - lo) as i64,
        },
        None => Paint::Color(color_of(b, palette)),
    }
}

/// Floats that brick `k` adds to the stream.
pub open spec fn stream_lens(bs: Seq<Brick>, assets: Seq<String>, fills: bool, outlines: bool) -> Seq<usize> {
    Seq::new(
        bs.len(),
        |k: int|
            if bs[k].visibility {
                let t = brick_tag(bs[k], assets);
                (VERTEX_SIZE * ((if fills { fill_count(t) } else { 0 }) + (if outlines {
                    outline_count(t)
                } else {
                    0
                }))) as usize
            } else {
                0
            },
    )
}

/// `e` is the error of the first visible brick that cannot be drawn.
pub open spec fn is_first_error(
    bs: Seq<Brick>,
    assets: Seq<String>,
    palette: Seq<Rgba>,
    check_color: bool,
    e: SceneError,
) -> bool {
    exists|k: int|
        0 <= k < bs.len() && (#[trigger] bs[k]).visibility && brick_error(bs[k], assets, palette, check_color)
            == Some(e) && forall|j: int|
            0 <= j < k && (#[trigger] bs[j]).visibility ==> brick_error(bs[j], assets, palette, check_color) is None
}

pub open spec fn all_drawable(bs: Seq<Brick>, assets: Seq<String>, palette: Seq<Rgba>, check_color: bool) -> bool {
    forall|k: int|
        0 <= k < bs.len() && (#[trigger] bs[k]).visibility ==> brick_error(bs[k], assets, palette, check_color) is None
}

/// `item` is what brick `item.brick_index` contributes.
pub open spec fn item_matches(
    item: DrawItem,
    bs: Seq<Brick>,
    assets: Seq<String>,
    palette: Seq<Rgba>,
    fills: bool,
    outlines: bool,
    heights: Option<(i64, i64)>,
) -> bool {
    let b = bs[item.brick_index as int];
    let t = brick_tag(b, assets);
    let r = footprint_of(b);
    &&& item.brick_index < bs.len()
    &&& item.fill@ == (if fills { fill_spec(t, r) } else { Seq::empty() })
    &&& item.outline@ == (if outlines { outline_spec(t, r) } else { Seq::empty() })
    &&& item.paint == paint_of(b, palette, heights)
}

/// `idx` lists exactly the visible bricks of `bs`, in order.
pub open spec fn lists_visible(bs: Seq<Brick>, idx: Seq<usize>) -> bool {
    &&& forall|m: int, l: int| 0 <= m < l < idx.len() ==> idx[m] < idx[l]
    &&& forall|m: int| 0 <= m < idx.len() ==> #[trigger] idx[m] < bs.len() && bs[idx[m] as int].visibility
    &&& forall|k: int| 0 <= k < bs.len() && (#[trigger] bs[k]).visibility ==> lists(idx, k)
}

pub open spec fn item_bricks(items: Seq<DrawItem>) -> Seq<usize> {
    items.map_values(|it: DrawItem| it.brick_index)
}

/// The whole contract of a plan built with the given options.
pub open spec fn is_plan(
    p: VertexPlan,
    bs: Seq<Brick>,
    assets: Seq<String>,
    palette: Seq<Rgba>,
    fills: bool,
    outlines: bool,
    heights: Option<(i64, i64)>,
) -> bool {
    &&& lists_visible(bs, item_bricks(p.items@))
    &&& forall|m: int|
        0 <= m < p.items@.len() ==> item_matches(#[trigger] p.items@[m], bs, assets, palette, fills, outlines, heights)
    &&& is_height_index(bs, stream_lens(bs, assets, fills, outlines), p.index)
}

/// The colour of a brick, from the palette or its own.
pub fn resolve_color(brick: &Brick, colors: &Vec<Rgba>) -> (r: Result<Rgba, SceneError>)
    ensures
        match brick.color {
            BrickColor::Index(i) => if i >= colors@.len() {
                r == Err::<Rgba, SceneError>(SceneError::ColorIndexOutOfRange(i))
            } else {
                r == Ok::<Rgba, SceneError>(colors@[i as int])
            },
            BrickColor::Unique(c) => r == Ok::<Rgba, SceneError>(c),
        },
{
    match brick.color {
        BrickColor::Index(i) => if i as usize >= colors.len() {
            Err(SceneError::ColorIndexOutOfRange(i))
        } else {
            Ok(colors[i as usize])
        },
        BrickColor::Unique(c) => Ok(c),
    }
}

/// The shape family of every asset name, looked up once.
fn asset_families(assets: &Vec<String>) -> (r: Vec<Family>)
    ensures
        r@.len() == assets@.len(),
        forall|i: int| 0 <= i < r@.len() ==> #[trigger] r@[i] == family_of(assets@[i]@),
{
    let mut r: Vec<Family> = Vec::new();
    let mut i: usize = 0;
    while i < assets.len()
        invariant
            i <= assets@.len(),
            r@.len() == i,
            forall|j: int| 0 <= j < i ==> #[trigger] r@[j] == family_of(assets@[j]@),
        decreases assets@.len() - i,
    {
        r.push(family_of_name(assets[i].as_str()));
        i += 1;
    }
    r
}

fn build_plan(
    bricks: &Vec<Brick>,
    assets: &Vec<String>,
    palette: &Vec<Rgba>,
    fills: bool,
    outlines: bool,
    heights: Option<(i64, i64)>,
) -> (r: Result<VertexPlan, SceneError>)
    requires
        bricks@.len() <= u32::MAX,
        match heights {
            Some((lo, hi)) => -0x4_0000_0000 <= lo <= hi <= 0x4_0000_0000 && forall|k: int|
                0 <= k < bricks@.len() ==> lo <= (#[trigger] bricks@[k]).position.2 <= hi,
            None => true,
        },
    ensures
        match r {
            Ok(p) => all_drawable(bricks@, assets@, palette@, heights is None) && is_plan(
                p,
                bricks@,
                assets@,
                palette@,
                fills,
                outlines,
                heights,
            ),
            Err(e) => is_first_error(bricks@, assets@, palette@, heights is None, e),
        },
{
    let ghost bs = bricks@;
    let ghost check = heights is None;
    let ghost lens_spec = stream_lens(bs, assets@, fills, outlines);
    let families = asset_families(assets);
    let mut items: Vec<DrawItem> = Vec::new();
    let mut lens: Vec<usize> = Vec::new();
    let mut k: usize = 0;
    while k < bricks.len()
        invariant
            families@.len() == assets@.len(),
            forall|i: int| 0 <= i < families@.len() ==> #[trigger] families@[i] == family_of(assets@[i]@),
            bs == bricks@,
            check == (heights is None),
            lens_spec == stream_lens(bs, assets@, fills, outlines),
            bs.len() <= u32::MAX,
            match heights {
                Some((lo, hi)) => -0x4_0000_0000 <= lo <= hi <= 0x4_0000_0000 && forall|k: int|
                    0 <= k < bs.len() ==> lo <= (#[trigger] bs[k]).position.2 <= hi,
                None => true,
            },
            k <= bs.len(),
            lens@ == lens_spec.subrange(0, k as int),
            forall|j: int| 0 <= j < k && (#[trigger] bs[j]).visibility ==> brick_error(bs[j], assets@, palette@, check) is None,
            forall|m: int, l: int| 0 <= m < l < items@.len() ==> items@[m].brick_index < items@[l].brick_index,
            forall|m: int| 0 <= m < items@.len() ==> (#[trigger] items@[m]).brick_index < k && bs[items@[m].brick_index as int].visibility,
            forall|j: int| 0 <= j < k && (#[trigger] bs[j]).visibility ==> lists(item_bricks(items@), j),
            forall|m: int| 0 <= m < items@.len() ==> item_matches(#[trigger] items@[m], bs, assets@, palette@, fills, outlines, heights),
        decreases bs.len() - k,
    {
        let b = bricks[k];
        let ghost old_items = items@;
        if !b.visibility {
            lens.push(0);
            proof {
                assert(lens@ =~= lens_spec.subrange(0, k + 1));
            }
            k += 1;
            continue;
        }
        let idx = b.asset_name_index as usize;
        if idx >= families.len() {
            proof {
                assert(bs[k as int].visibility);
            }
            return Err(SceneError::AssetIndexOutOfRange(b.asset_name_index));
        }
        let paint = match heights {
            Some((lo, hi)) => Paint::Height { above_min: b.position.2 as i64 - lo, range: hi - lo },
            None => match resolve_color(&b, palette) {
                Ok(c) => Paint::Color(c),
                Err(e) => {
                    proof {
                        assert(bs[k as int].visibility);
                    }
                    return Err(e);
                },
            },
        };
        proof {
            if let Some((lo, hi)) = heights {
                assert(lo <= bs[k as int].position.2 <= hi);
            }
        }
        let tag = shape_of(families[idx], b.direction, b.rotation);
        let rect = footprint(&b);
        let fill = if fills { fill_of(tag, &rect) } else { Vec::new() };
        let outline = if outlines { outline_of(tag, &rect) } else { Vec::new() };
        let nf: usize = if fills { fill_count_of(tag) } else { 0 };
        let no: usize = if outlines { outline_count_of(tag) } else { 0 };
        lens.push(VERTEX_SIZE * (nf + no));
        let item = DrawItem { brick_index: k, paint, fill, outline };
        proof {
            assert(item_matches(item, bs, assets@, palette@, fills, outlines, heights));
        }
        items.push(item);
        proof {
            assert(lens@ =~= lens_spec.subrange(0, k + 1));
            assert(item_bricks(items@) =~= item_bricks(old_items).push(k));
            assert forall|j: int| 0 <= j < k + 1 && (#[trigger] bs[j]).visibility implies lists(
                item_bricks(items@),
                j,
            ) by {
                if j < k {
                    let m = choose|m: int| 0 <= m < item_bricks(old_items).len() && item_bricks(old_items)[m] == j;
                    assert(item_bricks(items@)[m] == j);
                } else {
                    assert(item_bricks(items@)[old_items.len() as int] == j);
                }
            }
            assert forall|m: int| 0 <= m < items@.len() implies item_matches(
                #[trigger] items@[m],
                bs,
                assets@,
                palette@,
                fills,
                outlines,
                heights,
            ) by {
                if m < old_items.len() {
                    assert(items@[m] == old_items[m]);
                }
            }
        }
        k += 1;
    }
    proof {
        assert(lens@ =~= lens_spec);
        assert forall|j: int| 0 <= j < lens@.len() implies #[trigger] lens@[j] <= crate::layout::MAX_BRICK_FLOATS by {
            if bs[j].visibility {
                let t = brick_tag(bs[j], assets@);
                assert(fill_count(t) <= 48 && outline_count(t) <= 96);
            }
        }
        let idx = item_bricks(items@);
        assert forall|m: int| 0 <= m < idx.len() implies #[trigger] idx[m] < bs.len() && bs[idx[m] as int].visibility by {
            assert(idx[m] == items@[m].brick_index);
        }
        assert forall|m: int, l: int| 0 <= m < l < idx.len() implies idx[m] < idx[l] by {
            assert(idx[m] == items@[m].brick_index);
            assert(idx[l] == items@[l].brick_index);
        }
    }
    let index = build_height_index(bricks, &lens);
    Ok(VertexPlan { items, index })
}

/// A scene ready to draw: its bricks prepared (sized, oriented, sorted bottom
/// to top, duplicates hidden), its asset names and palette, and the centroid
/// and bounds of what is visible.
pub struct BRSProcessor {
    pub bricks: Vec<Brick>,
    pub brick_assets: Vec<String>,
    pub colors: Vec<Rgba>,
    pub description: String,
    pub brick_count: i32,
    pub centroid: Option<(i64, i64)>,
    pub bounds: Option<(i64, i64, i64, i64)>,
}

impl BRSProcessor {
    /// Every scene this type builds has at most `u32::MAX` bricks.
    pub open spec fn wf(&self) -> bool {
        self.bricks@.len() <= u32::MAX
    }

    /// Prepares a loaded scene. Fails with the first visible brick whose asset
    /// index is out of range.
    pub fn new(
        bricks: &Vec<Brick>,
        brick_assets: Vec<String>,
        colors: Vec<Rgba>,
        description: String,
        brick_count: i32,
    ) -> (r: Result<BRSProcessor, SceneError>)
        requires
            bricks@.len() <= u32::MAX,
        ensures
            match r {
                Ok(p) => {
                    &&& p.wf()
                    &&& p.brick_assets@ == brick_assets@
                    &&& p.colors@ == colors@
                    &&& p.description@ == description@
                    &&& p.brick_count == brick_count
                    &&& match transform_all(bricks@, brick_assets@) {
                        Ok(t) => prepared_from(t, p.bricks@),
                        Err(_) => false,
                    }
                    &&& match centroid_spec(p.bricks@) {
                        Some((x, y)) => p.centroid == Some::<(i64, i64)>((x as i64, y as i64)),
                        None => p.centroid is None,
                    }
                    &&& match p.bounds {
                        Some(b) => is_bounds(p.bricks@, p.centroid.unwrap_or((0, 0)).0 as int, p.centroid.unwrap_or((0, 0)).1 as int, b),
                        None => forall|k: int| 0 <= k < p.bricks@.len() ==> !(#[trigger] p.bricks@[k]).visibility,
                    }
                },
                Err(e) => transform_all(bricks@, brick_assets@) == Err::<Seq<Brick>, SceneError>(e),
            },
    {
        let prepared = match prepare_bricks(bricks, &brick_assets) {
            Ok(v) => v,
            Err(e) => return Err(e),
        };
        proof {
            let t = transform_all(bricks@, brick_assets@)->Ok_0;
            lemma_prepared_len(t, prepared@);
            lemma_transform_all_len(bricks@, brick_assets@);
        }
        let centroid = calculate_centroid(&prepared);
        let origin = match centroid {
            Some(c) => c,
            None => (0, 0),
        };
        let bounds = calculate_bounds(&prepared, origin);
        Ok(BRSProcessor { bricks: prepared, brick_assets, colors, description, brick_count, centroid, bounds })
    }

    pub fn description(&self) -> (r: String)
        ensures
            r@ == self.description@,
    {
        self.description.clone()
    }

    pub fn brick_count(&self) -> (r: i32)
        ensures
            r == self.brick_count,
    {
        self.brick_count
    }

    /// Footprint bounds relative to the centroid, if anything is visible.
    pub fn bounds(&self) -> (r: Option<(i64, i64, i64, i64)>)
        ensures
            r == self.bounds,
    {
        self.bounds
    }

    /// The stream plan with each visible brick's fill in its colour and/or its
    /// black outline. Fails with the first visible brick whose asset or palette
    /// index is out of range.
    pub fn build_vertex_buffer(&self, draw_ols: bool, draw_fills: bool) -> (r: Result<VertexPlan, SceneError>)
        requires
            self.wf(),
        ensures
            match r {
                Ok(p) => all_drawable(self.bricks@, self.brick_assets@, self.colors@, true) && is_plan(
                    p,
                    self.bricks@,
                    self.brick_assets@,
                    self.colors@,
                    draw_fills,
                    draw_ols,
                    None,
                ),
                Err(e) => is_first_error(self.bricks@, self.brick_assets@, self.colors@, true, e),
            },
    {
        build_plan(&self.bricks, &self.brick_assets, &self.colors, draw_fills, draw_ols, None)
    }

    /// The stream plan of fills shaded by height, without outlines. Fails with
    /// the first visible brick whose asset index is out of range.
    pub fn build_heightmap_vertex_buffer(&self) -> (r: Result<VertexPlan, SceneError>)
        requires
            self.wf(),
        ensures
            match r {
                Ok(p) => {
                    &&& all_drawable(self.bricks@, self.brick_assets@, self.colors@, false)
                    &&& self.bricks@.len() == 0 ==> p.items@.len() == 0 && is_plan(
                        p,
                        self.bricks@,
                        self.brick_assets@,
                        self.colors@,
                        true,
                        false,
                        Some((0, 0)),
                    )
                    &&& self.bricks@.len() > 0 ==> exists|lo: i64, hi: i64|
                        is_height_range(self.bricks@, lo, hi) && is_plan(
                            p,
                            self.bricks@,
                            self.brick_assets@,
                            self.colors@,
                            true,
                            false,
                            Some((lo, hi)),
                        )
                },
                Err(e) => is_first_error(self.bricks@, self.brick_assets@, self.colors@, false, e),
            },
    {
        let range = match height_range(&self.bricks) {
            Some(range) => range,
            None => (0, 0),
        };
        proof {
            if self.bricks@.len() > 0 {
                let bs = self.bricks@;
                let k0 = choose|k: int| 0 <= k < bs.len() && range.0 == crate::brick::bottom_of(#[trigger] bs[k]);
                let k1 = choose|k: int| 0 <= k < bs.len() && range.1 == crate::brick::top_of(#[trigger] bs[k]);
                assert forall|k: int| 0 <= k < self.bricks@.len() implies range.0 <= (
                #[trigger] self.bricks@[k]).position.2 <= range.1 by {
                    assert(range.0 <= crate::brick::bottom_of(self.bricks@[k]));
                    assert(crate::brick::top_of(self.bricks@[k]) <= range.1);
                }
            }
        }
        let r = build_plan(&self.bricks, &self.brick_assets, &self.colors, true, false, Some(range));
        proof {
            if let Ok(p) = &r {
                if self.bricks@.len() == 0 {
                    if p.items@.len() > 0 {
                        assert(p.items@[0].brick_index < self.bricks@.len());
                    }
                }
            }
        }
        r
    }
}

} // verus!
