use brickmap::assets::{catalog_size_of, family_of_name, str_eq};
use brickmap::brick::{Brick, BrickColor, Direction, Rotation, Size};
use brickmap::primitives::{tri, FillPiece, OutlinePiece, Point, RampKind, Rect, Side, Tri};
use brickmap::shapes::{
    calculate_brick_outline_vertices, calculate_brick_vertices, corner, fill_of, outline_of, ramp,
    ramp_corner, ramp_corner_inverted, ramp_crest, ramp_crest_end, round, round_ol, shape_of,
    side_wedge, wedge, wedge_ol, Family, ShapeTag,
};

const DIRECTIONS: [Direction; 6] = [
    Direction::XPositive,
    Direction::XNegative,
    Direction::YPositive,
    Direction::YNegative,
    Direction::ZPositive,
    Direction::ZNegative,
];
const ROTATIONS: [Rotation; 4] = [Rotation::Deg0, Rotation::Deg90, Rotation::Deg180, Rotation::Deg270];
const FAMILIES: [Family; 10] = [
    Family::Plain,
    Family::Corner,
    Family::SideWedge,
    Family::Wedge,
    Family::Ramp,
    Family::RampCorner,
    Family::RampCornerInverted,
    Family::RampCrest,
    Family::RampCrestEnd,
    Family::Round,
];
const NAMES: [&str; 11] = [
    "PB_DefaultBrick",
    "B_2x2_Corner",
    "PB_DefaultSideWedge",
    "PB_DefaultWedge",
    "PB_DefaultRamp",
    "PB_DefaultRampCorner",
    "PB_DefaultRampCornerInverted",
    "PB_DefaultRampCrest",
    "PB_DefaultRampCrestEnd",
    "B_2x2_Round",
    "SomethingUnknown",
];

fn brick(d: Direction, r: Rotation, size: (u32, u32, u32)) -> Brick {
    Brick {
        asset_name_index: 0,
        size: Size::Procedural(size.0, size.1, size.2),
        position: (0, 0, 0),
        direction: d,
        rotation: r,
        visibility: true,
        color: BrickColor::Index(0),
    }
}

fn rect(x1: i64, y1: i64, x2: i64, y2: i64) -> Rect {
    Rect { x1, y1, x2, y2 }
}

fn t(r: Rect, c: Tri) -> FillPiece {
    FillPiece::Triangle { rect: r, corner: c }
}

#[test]
fn every_combination_gives_whole_triangles() {
    for name in NAMES {
        for d in DIRECTIONS {
            for r in ROTATIONS {
                let b = brick(d, r, (20, 10, 6));
                let fill = calculate_brick_vertices(name, &b);
                let ol = calculate_brick_outline_vertices(name, &b);
                let nf: usize = fill.iter().map(|q| q.vertex_count()).sum();
                let no: usize = ol.iter().map(|q| q.vertex_count()).sum();
                assert!(nf > 0 && nf % 3 == 0, "{name} {d:?} {r:?}");
                assert!(no > 0 && no % 3 == 0, "{name} {d:?} {r:?}");
            }
        }
    }
}

#[test]
fn every_shape_on_a_degenerate_footprint() {
    let flat = rect(3, 3, 3, 3);
    for f in FAMILIES {
        for d in DIRECTIONS {
            for r in ROTATIONS {
                let tag = shape_of(f, d, r);
                assert!(!fill_of(tag, &flat).is_empty());
                assert!(!outline_of(tag, &flat).is_empty());
            }
        }
    }
}

#[test]
fn wedge_turned_quarter_toward_x_is_bottom_left_triangle() {
    let b = brick(Direction::XPositive, Rotation::Deg90, (5, 5, 5));
    let fill = calculate_brick_vertices("PB_DefaultWedge", &b);
    let r = rect(-5, -5, 5, 5);
    assert_eq!(fill, vec![t(r, Tri::BotLeft)]);
    assert_eq!(tri(&r, Tri::BotLeft), vec![Point { x: -5, y: 5 }, Point { x: 5, y: 5 }, Point { x: -5, y: -5 }]);
    assert_eq!(wedge(&b, &r), fill);
    assert_eq!(wedge_ol(&b, &r).len(), 3);
}

#[test]
fn plain_brick_is_its_footprint_rectangle() {
    let b = brick(Direction::ZPositive, Rotation::Deg0, (5, 5, 5));
    let r = rect(-5, -5, 5, 5);
    assert_eq!(calculate_brick_vertices("PB_DefaultBrick", &b), vec![t(r, Tri::TopLeft), t(r, Tri::BotRight)]);
    assert_eq!(calculate_brick_outline_vertices("PB_DefaultBrick", &b).len(), 4);
}

#[test]
fn side_wedge_table() {
    let r = rect(0, 0, 10, 10);
    let expect = [
        (Direction::ZPositive, [Tri::TopLeft, Tri::TopRight, Tri::BotRight, Tri::BotLeft]),
        (Direction::ZNegative, [Tri::TopRight, Tri::TopLeft, Tri::BotLeft, Tri::BotRight]),
    ];
    for (d, corners) in expect {
        for (rot, c) in ROTATIONS.iter().zip(corners) {
            assert_eq!(side_wedge(&brick(d, *rot, (5, 5, 5)), &r), vec![t(r, c)]);
        }
    }
    assert_eq!(side_wedge(&brick(Direction::XPositive, Rotation::Deg0, (5, 5, 5)), &r).len(), 2);
}

#[test]
fn wedge_degrades_off_quarter_turns() {
    let r = rect(0, 0, 10, 10);
    for d in DIRECTIONS {
        assert_eq!(wedge(&brick(d, Rotation::Deg0, (5, 5, 5)), &r), vec![t(r, Tri::TopLeft), t(r, Tri::BotRight)]);
    }
    assert_eq!(wedge(&brick(Direction::YNegative, Rotation::Deg270, (5, 5, 5)), &r), vec![t(r, Tri::BotLeft)]);
}

#[test]
fn ramp_has_plateau_and_slope() {
    let r = rect(0, 0, 40, 20);
    let b = brick(Direction::XPositive, Rotation::Deg90, (5, 5, 5));
    let plateau = rect(0, 10, 40, 20);
    let slope = rect(0, 0, 40, 10);
    assert_eq!(ramp(&b, &r), vec![t(plateau, Tri::TopLeft), t(plateau, Tri::BotRight), t(slope, Tri::BotLeft)]);
    let ol = outline_of(ShapeTag::Ramp(RampKind::BlBot), &r);
    assert_eq!(
        ol,
        vec![
            OutlinePiece::Band { rect: plateau, side: Side::Right },
            OutlinePiece::Band { rect: plateau, side: Side::Bot },
            OutlinePiece::Band { rect: plateau, side: Side::Left },
            OutlinePiece::Leg { rect: slope, corner: Tri::BotLeft, side: Side::Left },
            OutlinePiece::Hypotenuse { rect: slope, corner: Tri::BotLeft },
            OutlinePiece::Joint { rect: slope, kind: RampKind::BlBot },
        ]
    );
    let flat = brick(Direction::ZPositive, Rotation::Deg90, (5, 5, 5));
    assert_eq!(ramp(&flat, &r).len(), 2);
}

#[test]
fn ramp_corners_pair_rotations() {
    let r = rect(0, 0, 40, 40);
    for d in [Direction::XPositive, Direction::XNegative, Direction::YPositive, Direction::YNegative] {
        let a = ramp_corner(&brick(d, Rotation::Deg0, (5, 5, 5)), &r);
        assert_eq!(a, ramp_corner(&brick(d, Rotation::Deg90, (5, 5, 5)), &r));
        let b = ramp_corner(&brick(d, Rotation::Deg180, (5, 5, 5)), &r);
        assert_eq!(b, ramp_corner(&brick(d, Rotation::Deg270, (5, 5, 5)), &r));
        assert_ne!(a, b);
        let i = ramp_corner_inverted(&brick(d, Rotation::Deg0, (5, 5, 5)), &r);
        assert_eq!(i.len(), 3);
        assert_ne!(a, i);
    }
}

#[test]
fn crest_splits_along_the_ridge() {
    let r = rect(0, 0, 20, 10);
    let b = brick(Direction::YPositive, Rotation::Deg90, (5, 5, 5));
    assert_eq!(ramp_crest(&b, &r), vec![t(rect(0, 0, 10, 10), Tri::TopRight), t(rect(10, 0, 20, 10), Tri::TopLeft)]);
    let level = brick(Direction::YPositive, Rotation::Deg0, (5, 5, 5));
    assert_eq!(ramp_crest(&level, &r).len(), 2);
    assert_eq!(ramp_crest(&level, &r), vec![t(r, Tri::TopLeft), t(r, Tri::BotRight)]);
}

#[test]
fn crest_end_tapers_at_half_turns() {
    let r = rect(0, 0, 20, 10);
    let b = brick(Direction::XNegative, Rotation::Deg180, (5, 5, 5));
    assert_eq!(ramp_crest_end(&b, &r), vec![t(r, Tri::TopRight)]);
    let q = brick(Direction::XPositive, Rotation::Deg270, (5, 5, 5));
    assert_eq!(ramp_crest_end(&q, &r), vec![t(rect(0, 0, 20, 5), Tri::BotLeft), t(rect(0, 5, 20, 10), Tri::TopLeft)]);
}

#[test]
fn corner_plate_is_long_half_and_short_quarter() {
    let r = rect(0, 0, 20, 20);
    let b = brick(Direction::ZPositive, Rotation::Deg0, (10, 10, 6));
    let long = rect(0, 0, 20, 10);
    let short = rect(0, 10, 10, 20);
    assert_eq!(
        corner(&b, &r),
        vec![t(long, Tri::TopLeft), t(long, Tri::BotRight), t(short, Tri::TopLeft), t(short, Tri::BotRight)]
    );
    let ol = outline_of(ShapeTag::Corner(Tri::TopLeft), &r);
    assert_eq!(ol.len(), 7);
    assert_eq!(ol[6], OutlinePiece::Notch { at: Point { x: 10, y: 10 }, toward: Tri::TopLeft });
    let side = brick(Direction::XPositive, Rotation::Deg0, (10, 10, 6));
    assert_eq!(corner(&side, &r).len(), 2);
}

#[test]
fn rounds_are_discs_when_upright() {
    let r = rect(0, 0, 20, 20);
    let up = brick(Direction::ZNegative, Rotation::Deg0, (10, 10, 6));
    assert_eq!(round(&up, &r), vec![FillPiece::Disc { rect: r }]);
    assert_eq!(round_ol(&up, &r), vec![OutlinePiece::Ring { rect: r }]);
    let lying = brick(Direction::YPositive, Rotation::Deg0, (10, 10, 6));
    assert_eq!(round(&lying, &r).len(), 2);
}

#[test]
fn asset_names_map_to_families() {
    assert_eq!(family_of_name("B_2x2_Corner"), Family::Corner);
    assert_eq!(family_of_name("PB_DefaultMicroWedge"), Family::SideWedge);
    assert_eq!(family_of_name("PB_DefaultSideWedgeTile"), Family::SideWedge);
    assert_eq!(family_of_name("PB_DefaultRampCrestEnd"), Family::RampCrestEnd);
    assert_eq!(family_of_name("PB_DefaultPole"), Family::Round);
    assert_eq!(family_of_name("B_4x4_Round"), Family::Round);
    assert_eq!(family_of_name("PB_DefaultRam"), Family::Plain);
    assert_eq!(family_of_name(""), Family::Plain);
}

#[test]
fn catalogue_sizes() {
    assert_eq!(catalog_size_of("B_2x2_Corner"), Some((10, 10, 6)));
    assert_eq!(catalog_size_of("B_1x4_Brick_Side"), Some((20, 5, 6)));
    assert_eq!(catalog_size_of("B_2x2f_Plate_Center_Inv"), Some((10, 10, 2)));
    assert_eq!(catalog_size_of("B_4x4_Round"), Some((20, 20, 6)));
    assert_eq!(catalog_size_of("PB_DefaultBrick"), None);
}

#[test]
fn string_equality() {
    assert!(str_eq("abc", "abc"));
    assert!(!str_eq("abc", "abd"));
    assert!(!str_eq("abc", "ab"));
    assert!(str_eq("", ""));
}
