use brickmap::primitives::{
    rec, rec_bl, rec_bot, rec_br, rec_ol, rec_ol_open, rec_tl, rec_top, rec_tr, tri, tri_ol,
    FillPiece, OutlinePiece, Point, Rect, Side, Tri,
};

fn p(x: i64, y: i64) -> Point {
    Point { x, y }
}

fn rect(x1: i64, y1: i64, x2: i64, y2: i64) -> Rect {
    Rect { x1, y1, x2, y2 }
}

fn cross(a: Point, b: Point, c: Point) -> i64 {
    (b.x - a.x) * (c.y - a.y) - (b.y - a.y) * (c.x - a.x)
}

#[test]
fn triangles_of_each_corner() {
    let r = rect(0, 0, 4, 2);
    assert_eq!(tri(&r, Tri::TopLeft), vec![p(0, 0), p(0, 2), p(4, 0)]);
    assert_eq!(tri(&r, Tri::TopRight), vec![p(4, 0), p(0, 0), p(4, 2)]);
    assert_eq!(tri(&r, Tri::BotRight), vec![p(4, 2), p(4, 0), p(0, 2)]);
    assert_eq!(tri(&r, Tri::BotLeft), vec![p(0, 2), p(4, 2), p(0, 0)]);
}

#[test]
fn triangles_are_wound_alike() {
    let r = rect(-3, 1, 7, 6);
    for c in [Tri::TopLeft, Tri::TopRight, Tri::BotLeft, Tri::BotRight] {
        let t = tri(&r, c);
        assert_eq!(cross(t[0], t[1], t[2]), -(10 * 5));
    }
}

#[test]
fn rectangle_halves_cover_area_and_share_diagonal() {
    for r in [rect(0, 0, 10, 10), rect(-5, -5, 5, 5), rect(3, -7, 11, 2)] {
        let m = rec(&r);
        assert_eq!(m.len(), 6);
        let a0 = cross(m[0], m[1], m[2]).abs();
        let a1 = cross(m[3], m[4], m[5]).abs();
        let (w, h) = (r.x2 - r.x1, r.y2 - r.y1);
        assert_eq!(a0 + a1, 2 * w * h);
        let shared: Vec<Point> = m[0..3].iter().filter(|q| m[3..6].contains(q)).cloned().collect();
        assert_eq!(shared.len(), 2);
        assert!(shared.contains(&p(r.x1, r.y2)));
        assert!(shared.contains(&p(r.x2, r.y1)));
    }
}

#[test]
fn zero_area_rectangle_still_has_two_triangles() {
    let m = rec(&rect(2, 2, 2, 9));
    assert_eq!(m.len(), 6);
    assert_eq!(cross(m[0], m[1], m[2]), 0);
}

#[test]
fn halves_and_quarters() {
    let r = rect(0, 0, 20, 10);
    assert_eq!(rec_top(&r), rec(&rect(0, 0, 20, 5)));
    assert_eq!(rec_bot(&r), rec(&rect(0, 5, 20, 10)));
    assert_eq!(rec_tl(&r), rec(&rect(0, 0, 10, 5)));
    assert_eq!(rec_tr(&r), rec(&rect(10, 0, 20, 5)));
    assert_eq!(rec_bl(&r), rec(&rect(0, 5, 10, 10)));
    assert_eq!(rec_br(&r), rec(&rect(10, 5, 20, 10)));
}

#[test]
fn odd_extent_leaves_extra_unit_below_and_right() {
    let r = rect(0, 0, 5, 3);
    assert_eq!(rec_top(&r), rec(&rect(0, 0, 5, 1)));
    assert_eq!(rec_br(&r), rec(&rect(2, 1, 5, 3)));
}

#[test]
fn rectangle_outline_bands_every_side_once() {
    let r = rect(0, 0, 4, 4);
    let ol = rec_ol(&r);
    let sides: Vec<Side> = ol
        .iter()
        .map(|b| match b {
            OutlinePiece::Band { rect, side } => {
                assert_eq!(*rect, r);
                *side
            }
            _ => panic!("not a band"),
        })
        .collect();
    assert_eq!(sides, vec![Side::Top, Side::Right, Side::Bot, Side::Left]);
    for piece in &ol {
        assert_eq!(piece.vertex_count(), 6);
    }
}

#[test]
fn open_outline_leaves_out_the_seam() {
    let r = rect(0, 0, 4, 4);
    for open in [Side::Top, Side::Right, Side::Bot, Side::Left] {
        let ol = rec_ol_open(&r, open);
        assert_eq!(ol.len(), 3);
        assert!(!ol.contains(&OutlinePiece::Band { rect: r, side: open }));
    }
}

#[test]
fn complementary_triangle_outlines_close_the_border() {
    let r = rect(0, 0, 30, 10);
    for (c, d) in [(Tri::TopLeft, Tri::BotRight), (Tri::TopRight, Tri::BotLeft)] {
        let mut both = tri_ol(&r, c);
        both.extend(tri_ol(&r, d));
        let mut legs: Vec<Side> = both
            .iter()
            .filter_map(|q| match q {
                OutlinePiece::Leg { side, .. } => Some(*side),
                _ => None,
            })
            .collect();
        legs.sort_by_key(|s| *s as u8);
        assert_eq!(legs, vec![Side::Top, Side::Right, Side::Bot, Side::Left]);
        assert_eq!(both[2], OutlinePiece::Hypotenuse { rect: r, corner: c });
        assert_eq!(both[5], OutlinePiece::Hypotenuse { rect: r, corner: d });
        let (t1, t2) = (tri(&r, c), tri(&r, d));
        assert!(t2.contains(&t1[1]) && t2.contains(&t1[2]));
    }
}

#[test]
fn piece_vertex_counts() {
    let r = rect(0, 0, 10, 10);
    assert_eq!(FillPiece::Triangle { rect: r, corner: Tri::TopLeft }.vertex_count(), 3);
    assert_eq!(FillPiece::Disc { rect: r }.vertex_count(), 48);
    assert_eq!(OutlinePiece::Ring { rect: r }.vertex_count(), 96);
    assert_eq!(OutlinePiece::Joint { rect: r, kind: brickmap::primitives::RampKind::BrBot }.vertex_count(), 3);
}
