use brickmap::brick::{footprint, sizer, top_surface, Brick, BrickColor, Direction, Rgba, Rotation, Size};
use brickmap::centroid::{calculate_bounds, calculate_centroid};
use brickmap::layout::{build_height_index, clip_range, height_range, NUM_DIVISIONS};
use brickmap::prepare::{
    discard_hidden_bricks, filter_and_transform_brick, prepare_bricks, sort_by_height, transform_brick,
    SceneError,
};
use brickmap::primitives::{rec, FillPiece, Point, Rect, Tri};
use brickmap::render::{resolve_color, BRSProcessor, Paint};

fn brick(x: i32, y: i32, z: i32, size: (u32, u32, u32)) -> Brick {
    Brick {
        asset_name_index: 0,
        size: Size::Procedural(size.0, size.1, size.2),
        position: (x, y, z),
        direction: Direction::ZPositive,
        rotation: Rotation::Deg0,
        visibility: true,
        color: BrickColor::Index(0),
    }
}

fn names(list: &[&str]) -> Vec<String> {
    list.iter().map(|s| s.to_string()).collect()
}

fn red() -> Rgba {
    Rgba { r: 255, g: 0, b: 0, a: 255 }
}

#[test]
fn single_plain_brick_scene() {
    let b = brick(0, 0, 0, (5, 5, 5));
    let p = BRSProcessor::new(&vec![b], names(&["PB_DefaultBrick"]), vec![red()], "one".to_string(), 1).unwrap();
    assert_eq!(p.centroid, Some((0, 0)));
    assert_eq!(p.bounds(), Some((-5, -5, 5, 5)));
    assert_eq!(p.description(), "one");
    assert_eq!(p.brick_count(), 1);
    let plan = p.build_vertex_buffer(false, true).unwrap();
    assert_eq!(plan.items.len(), 1);
    let r = Rect { x1: -5, y1: -5, x2: 5, y2: 5 };
    assert_eq!(
        plan.items[0].fill,
        vec![FillPiece::Triangle { rect: r, corner: Tri::TopLeft }, FillPiece::Triangle { rect: r, corner: Tri::BotRight }]
    );
    let mesh: Vec<Point> = plan.items[0]
        .fill
        .iter()
        .flat_map(|q| match q {
            FillPiece::Triangle { rect, corner } => brickmap::primitives::tri(rect, *corner),
            FillPiece::Disc { .. } => vec![],
        })
        .collect();
    assert_eq!(mesh, rec(&r));
    assert_eq!(plan.items[0].paint, Paint::Color(red()));
    assert!(plan.items[0].outline.is_empty());
    assert_eq!(plan.index.len, 30);
}

#[test]
fn stacked_twins_leave_one_visible() {
    let low = brick(0, 0, 0, (5, 5, 5));
    let high = brick(0, 0, 10, (5, 5, 5));
    let out = prepare_bricks(&vec![high, low], &names(&["PB_DefaultBrick"])).unwrap();
    assert_eq!(out.len(), 2);
    assert_eq!(out.iter().filter(|b| b.visibility).count(), 1);
    assert_eq!(out[0].position.2, 0);
    assert!(!out[0].visibility);
    assert!(out[1].visibility);
}

#[test]
fn dedup_keeps_the_last_of_each_shape() {
    let a = brick(0, 0, 0, (5, 5, 5));
    let b = brick(0, 0, 30, (5, 5, 5));
    let other = brick(10, 0, 0, (5, 5, 5));
    let mut rotated = brick(0, 0, 20, (5, 5, 5));
    rotated.rotation = Rotation::Deg90;
    let out = discard_hidden_bricks(vec![a, other, rotated, b]);
    let vis: Vec<bool> = out.iter().map(|x| x.visibility).collect();
    assert_eq!(vis, vec![false, true, true, true]);
}

#[test]
fn dedup_twice_changes_nothing_more() {
    let bs = vec![
        brick(0, 0, 0, (5, 5, 5)),
        brick(0, 0, 10, (5, 5, 5)),
        brick(0, 0, 20, (5, 5, 5)),
        brick(10, 10, 0, (5, 5, 5)),
        brick(10, 10, 5, (5, 5, 2)),
    ];
    let once = discard_hidden_bricks(bs);
    let twice = discard_hidden_bricks(once.clone());
    assert_eq!(once, twice);
    assert_eq!(once.iter().filter(|b| b.visibility).count(), 2);
}

#[test]
fn height_sort_is_stable() {
    let mut a = brick(1, 0, 10, (1, 1, 2));
    a.asset_name_index = 1;
    let mut b = brick(2, 0, 10, (1, 1, 2));
    b.asset_name_index = 2;
    let c = brick(3, 0, 0, (1, 1, 1));
    let d = brick(4, 0, 11, (1, 1, 1));
    let sorted = sort_by_height(&vec![a, d, b, c]);
    let xs: Vec<i32> = sorted.iter().map(|x| x.position.0).collect();
    assert_eq!(xs, vec![3, 1, 4, 2]);
    let tops: Vec<i64> = sorted.iter().map(top_surface).collect();
    assert_eq!(tops, vec![1, 12, 12, 12]);
}

#[test]
fn catalogue_assets_get_their_size() {
    let mut b = brick(0, 0, 0, (1, 1, 1));
    b.size = Size::Empty;
    let t = transform_brick(b, &names(&["B_1x4_Brick_Side"])).unwrap();
    assert_eq!(t.size, Size::Procedural(20, 5, 6));
    let u = transform_brick(b, &names(&["PB_DefaultBrick"])).unwrap();
    assert_eq!(u.size, Size::Procedural(0, 0, 0));
}

#[test]
fn orientation_permutes_half_extents() {
    let assets = names(&["PB_DefaultBrick"]);
    let mut b = brick(0, 0, 0, (1, 2, 3));
    b.rotation = Rotation::Deg90;
    assert_eq!(transform_brick(b, &assets).unwrap().size, Size::Procedural(2, 1, 3));
    b.rotation = Rotation::Deg180;
    b.direction = Direction::XNegative;
    assert_eq!(transform_brick(b, &assets).unwrap().size, Size::Procedural(3, 2, 1));
    b.direction = Direction::YPositive;
    assert_eq!(transform_brick(b, &assets).unwrap().size, Size::Procedural(2, 3, 1));
    b.rotation = Rotation::Deg270;
    assert_eq!(transform_brick(b, &assets).unwrap().size, Size::Procedural(1, 3, 2));
}

#[test]
fn asset_index_out_of_range_is_an_error() {
    let mut b = brick(0, 0, 0, (1, 1, 1));
    b.asset_name_index = 3;
    assert_eq!(transform_brick(b, &names(&["a"])), Err(SceneError::AssetIndexOutOfRange(3)));
    assert_eq!(prepare_bricks(&vec![b], &names(&["a"])), Err(SceneError::AssetIndexOutOfRange(3)));
    b.visibility = false;
    assert_eq!(filter_and_transform_brick(b, &names(&["a"])), Ok(None));
    assert_eq!(prepare_bricks(&vec![b], &names(&["a"])), Ok(vec![]));
}

#[test]
fn palette_lookup() {
    let mut b = brick(0, 0, 0, (1, 1, 1));
    assert_eq!(resolve_color(&b, &vec![red()]), Ok(red()));
    b.color = BrickColor::Index(4);
    assert_eq!(resolve_color(&b, &vec![red()]), Err(SceneError::ColorIndexOutOfRange(4)));
    let own = Rgba { r: 1, g: 2, b: 3, a: 4 };
    b.color = BrickColor::Unique(own);
    assert_eq!(resolve_color(&b, &vec![]), Ok(own));
}

#[test]
fn bad_palette_index_fails_the_build() {
    let mut b = brick(0, 0, 0, (5, 5, 5));
    b.color = BrickColor::Index(9);
    let p = BRSProcessor::new(&vec![b], names(&["PB_DefaultBrick"]), vec![red()], String::new(), 1).unwrap();
    assert!(matches!(p.build_vertex_buffer(true, true), Err(SceneError::ColorIndexOutOfRange(9))));
    assert!(p.build_heightmap_vertex_buffer().is_ok());
}

#[test]
fn centroid_is_area_weighted() {
    let bs = vec![brick(0, 0, 0, (10, 10, 1)), brick(30, 10, 0, (5, 5, 1))];
    assert_eq!(calculate_centroid(&bs), Some((6, 2)));
}

#[test]
fn centroid_moves_with_the_scene() {
    let bs = vec![brick(-3, 7, 0, (4, 2, 1)), brick(11, -5, 0, (1, 3, 1)), brick(2, 2, 9, (6, 6, 6))];
    let (cx, cy) = calculate_centroid(&bs).unwrap();
    for (vx, vy) in [(5, -9), (-100, 40), (1, 1)] {
        let moved: Vec<Brick> = bs.iter().map(|b| brick(b.position.0 + vx, b.position.1 + vy, b.position.2, sizer(b))).collect();
        assert_eq!(calculate_centroid(&moved), Some((cx + vx as i64, cy + vy as i64)));
    }
}

#[test]
fn centroid_rounds_down() {
    let bs = vec![brick(-1, 0, 0, (1, 1, 1)), brick(0, 0, 0, (1, 1, 1))];
    assert_eq!(calculate_centroid(&bs), Some((-1, 0)));
}

#[test]
fn empty_scene_has_no_centroid_or_bounds() {
    assert_eq!(calculate_centroid(&vec![]), None);
    assert_eq!(calculate_bounds(&vec![], (0, 0)), None);
    let mut hidden = brick(0, 0, 0, (5, 5, 5));
    hidden.visibility = false;
    assert_eq!(calculate_centroid(&vec![hidden]), None);
    assert_eq!(calculate_centroid(&vec![brick(4, 4, 0, (0, 3, 1))]), None);
    let p = BRSProcessor::new(&vec![], names(&[]), vec![], String::new(), 0).unwrap();
    assert_eq!(p.bounds(), None);
    let plan = p.build_vertex_buffer(true, true).unwrap();
    assert!(plan.items.is_empty());
    assert!(plan.index.bot_height_indices.iter().all(|&v| v == -1));
    assert_eq!(plan.index.top_height_indices[NUM_DIVISIONS - 1], 0);
}

#[test]
fn bounds_relative_to_origin() {
    let bs = vec![brick(0, 0, 0, (5, 5, 5)), brick(20, -10, 0, (2, 3, 1))];
    assert_eq!(calculate_bounds(&bs, (0, 0)), Some((-5, -13, 22, 5)));
    assert_eq!(calculate_bounds(&bs, (10, 1)), Some((-15, -14, 12, 4)));
    assert_eq!(footprint(&bs[1]), Rect { x1: 18, y1: -13, x2: 22, y2: -7 });
}

fn spread_scene() -> Vec<Brick> {
    (0..500).map(|k| brick(20 * k, 0, 1000 * k / 499, (5, 5, 0))).collect()
}

#[test]
fn evenly_spread_tops_fill_every_bucket() {
    let bs = spread_scene();
    let lens = vec![150usize; 500];
    let index = build_height_index(&bs, &lens);
    assert_eq!(height_range(&bs), Some((0, 1000)));
    let bot = &index.bot_height_indices;
    assert_eq!(bot.len(), NUM_DIVISIONS);
    assert!(bot.iter().all(|&v| v >= 0));
    assert!(bot.windows(2).all(|w| w[0] < w[1]));
    assert_eq!(index.len, 75_000);
}

#[test]
fn bucket_starts_and_ends_never_decrease() {
    let bs = spread_scene();
    let p = BRSProcessor::new(&bs, names(&["PB_DefaultBrick"]), vec![red()], String::new(), 500).unwrap();
    let plan = p.build_vertex_buffer(true, true).unwrap();
    let (bot, top) = (&plan.index.bot_height_indices, &plan.index.top_height_indices);
    assert!(bot.iter().all(|&v| v >= 0));
    assert!(bot.windows(2).all(|w| w[0] <= w[1]));
    assert!(top.windows(2).all(|w| w[0] <= w[1]));
    for i in 0..NUM_DIVISIONS - 1 {
        assert_eq!(top[i], bot[i + 1]);
    }
    assert_eq!(top[NUM_DIVISIONS - 1], plan.index.len as i64);
    assert_eq!(plan.index.len, 500 * 5 * (6 + 24));
}

#[test]
fn unreached_buckets_keep_the_sentinel() {
    let low = brick(0, 0, 0, (5, 5, 1));
    let mut high = brick(50, 0, 100, (5, 5, 1));
    high.visibility = false;
    let index = build_height_index(&vec![low, high], &vec![30, 0]);
    assert_eq!(index.bot_height_indices[0], 0);
    assert_eq!(index.bot_height_indices[9], 0);
    assert_eq!(index.bot_height_indices[20], -1);
    assert_eq!(index.bot_height_indices[NUM_DIVISIONS - 1], -1);
    assert_eq!(index.top_height_indices[NUM_DIVISIONS - 1], 30);
}

#[test]
fn heightmap_paints_by_height() {
    let bs = vec![brick(0, 0, 0, (5, 5, 2)), brick(20, 0, 10, (5, 5, 2))];
    let p = BRSProcessor::new(&bs, names(&["B_2x2_Round"]), vec![], String::new(), 2).unwrap();
    let plan = p.build_heightmap_vertex_buffer().unwrap();
    assert_eq!(plan.items.len(), 2);
    assert_eq!(plan.items[0].paint, Paint::Height { above_min: 6, range: 22 });
    assert_eq!(plan.items[1].paint, Paint::Height { above_min: 16, range: 22 });
    assert_eq!(plan.items[0].fill, vec![FillPiece::Disc { rect: Rect { x1: -10, y1: -10, x2: 10, y2: 10 } }]);
    assert_eq!(plan.index.len, 2 * 5 * 48);
}

#[test]
fn clipping_to_a_height_window() {
    let bs = spread_scene();
    let index = build_height_index(&bs, &vec![150usize; 500]);
    assert_eq!(clip_range(&index, 0, NUM_DIVISIONS - 1), (0, 75_000));
    assert_eq!(clip_range(&index, 10, 19), (1500, 3000));
    assert_eq!(clip_range(&index, 30, 20), (4500, 4500));
    let low = brick(0, 0, 0, (5, 5, 1));
    let mut high = brick(50, 0, 100, (5, 5, 1));
    high.visibility = false;
    let sparse = build_height_index(&vec![low, high], &vec![30, 0]);
    assert_eq!(clip_range(&sparse, 0, 0), (0, 0));
    assert_eq!(clip_range(&sparse, 0, 13), (0, 0));
    assert_eq!(clip_range(&sparse, 0, 14), (0, 30));
    assert_eq!(clip_range(&sparse, 100, 200), (30, 30));
}
