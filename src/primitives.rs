//! Triangles, rectangles and outline bands on the integer world grid.

use vstd::prelude::*;

verus! {

/// Every coordinate handled by the mesh builders stays within this bound, so
/// that offsets by a few studs never leave `i64`.
pub const COORD_LIMIT: i64 = 1099511627776;

/// Flat width of a ramp's plateau, in world units.
pub const STUD_WIDTH: i64 = 10;

/// Number of angular slices used for discs and rings.
pub const CIRCLE_RES: usize = 16;

/// A point of the world plane.
#[derive(Clone, Copy, Debug, PartialEq, Eq, Structural)]
pub struct Point {
    pub x: i64,
    pub y: i64,
}

/// An axis-aligned box of the world plane; `y` grows downwards on screen, so
/// `y1` is the top edge.
#[derive(Clone, Copy, Debug, PartialEq, Eq, Structural)]
pub struct Rect {
    pub x1: i64,
    pub y1: i64,
    pub x2: i64,
    pub y2: i64,
}

/// The right-angled corner of a right triangle cut from a rectangle.
#[derive(Clone, Copy, Debug, PartialEq, Eq, Structural)]
pub enum Tri {
    TopLeft,
    TopRight,
    BotLeft,
    BotRight,
}

pub open spec fn in_range(v: int) -> bool {
    -COORD_LIMIT <= v <= COORD_LIMIT
}

impl Rect {
    /// The box is not inverted (zero width or height is allowed).
    pub open spec fn valid(self) -> bool {
        self.x1 <= self.x2 && self.y1 <= self.y2
    }

    /// All four coordinates lie within `COORD_LIMIT`.
    pub open spec fn bounded(self) -> bool {
        in_range(self.x1 as int) && in_range(self.y1 as int) && in_range(self.x2 as int)
            && in_range(self.y2 as int)
    }

    pub open spec fn width(self) -> int {
        self.x2 - self.x1
    }

    pub open spec fn height(self) -> int {
        self.y2 - self.y1
    }
}

/// A side of a rectangle.
#[derive(Clone, Copy, Debug, PartialEq, Eq, Structural)]
pub enum Side {
    Top,
    Right,
    Bot,
    Left,
}

/// Where a ramp's flat plateau sits and which right triangle forms its slope:
/// `BrBot` is a slope with its right angle at the bottom right and a plateau
/// along the bottom edge.
#[derive(Clone, Copy, Debug, PartialEq, Eq, Structural)]
pub enum RampKind {
    BrBot,
    BlLeft,
    TlTop,
    TrRight,
    TlLeft,
    TrTop,
    BrRight,
    BlBot,
}

/// One filled part of a silhouette.
#[derive(Clone, Copy, Debug, PartialEq, Eq, Structural)]
pub enum FillPiece {
    /// The right triangle of `rect` with its right angle at `corner`.
    Triangle { rect: Rect, corner: Tri },
    /// The disc inscribed in `rect`, cut into `CIRCLE_RES` slices.
    Disc { rect: Rect },
}

/// One band of a mitred outline, of constant perceived thickness.
#[derive(Clone, Copy, Debug, PartialEq, Eq, Structural)]
pub enum OutlinePiece {
    /// Band lying inside `side` of `rect`.
    Band { rect: Rect, side: Side },
    /// Band along the leg on `side` of the right triangle `corner` of `rect`,
    /// shortened where it meets the hypotenuse.
    Leg { rect: Rect, corner: Tri, side: Side },
    /// Band along the hypotenuse of the right triangle `corner` of `rect`,
    /// widened for its slant.
    Hypotenuse { rect: Rect, corner: Tri },
    /// Wedge closing the seam between a ramp's slope `rect` and its plateau.
    Joint { rect: Rect, kind: RampKind },
    /// Square of the outline's thickness with one corner at `at`, reaching
    /// into the quadrant `toward`.
    Notch { at: Point, toward: Tri },
    /// Ring inside the disc inscribed in `rect`.
    Ring { rect: Rect },
}

impl RampKind {
    /// The right-angled corner of the slope.
    pub open spec fn corner(self) -> Tri {
        match self {
            RampKind::BrBot | RampKind::BrRight => Tri::BotRight,
            RampKind::BlLeft | RampKind::BlBot => Tri::BotLeft,
            RampKind::TlTop | RampKind::TlLeft => Tri::TopLeft,
            RampKind::TrRight | RampKind::TrTop => Tri::TopRight,
        }
    }

    /// The side holding the plateau.
    pub open spec fn side(self) -> Side {
        match self {
            RampKind::BrBot | RampKind::BlBot => Side::Bot,
            RampKind::BlLeft | RampKind::TlLeft => Side::Left,
            RampKind::TlTop | RampKind::TrTop => Side::Top,
            RampKind::TrRight | RampKind::BrRight => Side::Right,
        }
    }

    /// The slope's other leg, the one that is not on the plateau's side.
    pub open spec fn free_leg(self) -> Side {
        match self {
            RampKind::BrBot | RampKind::TrTop => Side::Right,
            RampKind::BlLeft | RampKind::BrRight => Side::Bot,
            RampKind::TlTop | RampKind::BlBot => Side::Left,
            RampKind::TrRight | RampKind::TlLeft => Side::Top,
        }
    }
}

/// Number of vertices a fill piece becomes.
pub open spec fn fill_piece_vertices(p: FillPiece) -> nat {
    match p {
        FillPiece::Triangle { .. } => 3,
        FillPiece::Disc { .. } => (3 * CIRCLE_RES) as nat,
    }
}

/// Number of vertices an outline piece becomes.
pub open spec fn outline_piece_vertices(p: OutlinePiece) -> nat {
    match p {
        OutlinePiece::Joint { .. } => 3,
        OutlinePiece::Ring { .. } => (6 * CIRCLE_RES) as nat,
        _ => 6,
    }
}

pub open spec fn fill_vertices(s: Seq<FillPiece>) -> nat
    decreases s.len(),
{
    if s.len() == 0 {
        0
    } else {
        fill_vertices(s.drop_last()) + fill_piece_vertices(s.last())
    }
}

pub open spec fn outline_vertices(s: Seq<OutlinePiece>) -> nat
    decreases s.len(),
{
    if s.len() == 0 {
        0
    } else {
        outline_vertices(s.drop_last()) + outline_piece_vertices(s.last())
    }
}

impl FillPiece {
    pub fn vertex_count(&self) -> (n: usize)
        ensures
            n == fill_piece_vertices(*self),
    {
        match self {
            FillPiece::Triangle { .. } => 3,
            FillPiece::Disc { .. } => 3 * CIRCLE_RES,
        }
    }
}

impl OutlinePiece {
    pub fn vertex_count(&self) -> (n: usize)
        ensures
            n == outline_piece_vertices(*self),
    {
        match self {
            OutlinePiece::Joint { .. } => 3,
            OutlinePiece::Ring { .. } => 6 * CIRCLE_RES,
            _ => 6,
        }
    }
}

/// The three vertices of the right triangle of `r` whose right angle sits at
/// corner `c`; all four are wound the same way.
pub open spec fn tri_spec(r: Rect, c: Tri) -> Seq<Point> {
    let (tl, tr, bl, br) = (
        Point { x: r.x1, y: r.y1 },
        Point { x: r.x2, y: r.y1 },
        Point { x: r.x1, y: r.y2 },
        Point { x: r.x2, y: r.y2 },
    );
    match c {
        Tri::TopLeft => seq![tl, bl, tr],
        Tri::TopRight => seq![tr, tl, br],
        Tri::BotRight => seq![br, tr, bl],
        Tri::BotLeft => seq![bl, br, tl],
    }
}

/// A rectangle as its top-left and bottom-right halves.
pub open spec fn rec_spec(r: Rect) -> Seq<Point> {
    tri_spec(r, Tri::TopLeft) + tri_spec(r, Tri::BotRight)
}

/// Right triangle of `shape` with its right angle at `tri_type`.
pub fn tri(shape: &Rect, tri_type: Tri) -> (r: Vec<Point>)
    ensures
        r@ == tri_spec(*shape, tri_type),
{
    let (x1, y1, x2, y2) = (shape.x1, shape.y1, shape.x2, shape.y2);
    let v = match tri_type {
        Tri::TopLeft => vec![Point { x: x1, y: y1 }, Point { x: x1, y: y2 }, Point { x: x2, y: y1 }],
        Tri::TopRight => vec![Point { x: x2, y: y1 }, Point { x: x1, y: y1 }, Point { x: x2, y: y2 }],
        Tri::BotRight => vec![Point { x: x2, y: y2 }, Point { x: x2, y: y1 }, Point { x: x1, y: y2 }],
        Tri::BotLeft => vec![Point { x: x1, y: y2 }, Point { x: x2, y: y2 }, Point { x: x1, y: y1 }],
    };
    assert(v@ =~= tri_spec(*shape, tri_type));
    v
}

/// Rectangle covering `shape` with two triangles sharing its anti-diagonal.
pub fn rec(shape: &Rect) -> (r: Vec<Point>)
    ensures
        r@ == rec_spec(*shape),
{
    let mut a = tri(shape, Tri::TopLeft);
    let mut b = tri(shape, Tri::BotRight);
    a.append(&mut b);
    a
}


pub open spec fn mid(a: i64, b: i64) -> i64 {
    (a + (b - a) / 2) as i64
}

/// Halves and quarters of a rectangle; an odd extent leaves the extra unit on
/// the right or bottom part.
pub open spec fn top_half(r: Rect) -> Rect {
    Rect { y2: mid(r.y1, r.y2), ..r }
}

pub open spec fn bot_half(r: Rect) -> Rect {
    Rect { y1: mid(r.y1, r.y2), ..r }
}

pub open spec fn left_half(r: Rect) -> Rect {
    Rect { x2: mid(r.x1, r.x2), ..r }
}

pub open spec fn right_half(r: Rect) -> Rect {
    Rect { x1: mid(r.x1, r.x2), ..r }
}

pub open spec fn quarter(r: Rect, q: Tri) -> Rect {
    match q {
        Tri::TopLeft => left_half(top_half(r)),
        Tri::TopRight => right_half(top_half(r)),
        Tri::BotLeft => left_half(bot_half(r)),
        Tri::BotRight => right_half(bot_half(r)),
    }
}

/// The band of `STUD_WIDTH` along `side` of `r`, and what is left of `r`
/// beside it.
pub open spec fn plateau(r: Rect, side: Side) -> Rect {
    match side {
        Side::Top => Rect { y2: (r.y1 + STUD_WIDTH) as i64, ..r },
        Side::Bot => Rect { y1: (r.y2 - STUD_WIDTH) as i64, ..r },
        Side::Left => Rect { x2: (r.x1 + STUD_WIDTH) as i64, ..r },
        Side::Right => Rect { x1: (r.x2 - STUD_WIDTH) as i64, ..r },
    }
}

pub open spec fn beside_plateau(r: Rect, side: Side) -> Rect {
    match side {
        Side::Top => Rect { y1: (r.y1 + STUD_WIDTH) as i64, ..r },
        Side::Bot => Rect { y2: (r.y2 - STUD_WIDTH) as i64, ..r },
        Side::Left => Rect { x1: (r.x1 + STUD_WIDTH) as i64, ..r },
        Side::Right => Rect { x2: (r.x2 - STUD_WIDTH) as i64, ..r },
    }
}

pub fn mid_exec(a: i64, b: i64) -> (m: i64)
    requires
        a <= b,
        in_range(a as int),
        in_range(b as int),
    ensures
        m == mid(a, b),
        a <= m <= b,
{
    a + (b - a) / 2
}

pub fn top_half_exec(r: &Rect) -> (h: Rect)
    requires
        r.valid(),
        r.bounded(),
    ensures
        h == top_half(*r),
        h.valid(),
        h.bounded(),
{
    Rect { y2: mid_exec(r.y1, r.y2), ..*r }
}

pub fn bot_half_exec(r: &Rect) -> (h: Rect)
    requires
        r.valid(),
        r.bounded(),
    ensures
        h == bot_half(*r),
        h.valid(),
        h.bounded(),
{
    Rect { y1: mid_exec(r.y1, r.y2), ..*r }
}

pub fn left_half_exec(r: &Rect) -> (h: Rect)
    requires
        r.valid(),
        r.bounded(),
    ensures
        h == left_half(*r),
        h.valid(),
        h.bounded(),
{
    Rect { x2: mid_exec(r.x1, r.x2), ..*r }
}

pub fn right_half_exec(r: &Rect) -> (h: Rect)
    requires
        r.valid(),
        r.bounded(),
    ensures
        h == right_half(*r),
        h.valid(),
        h.bounded(),
{
    Rect { x1: mid_exec(r.x1, r.x2), ..*r }
}

pub fn quarter_exec(r: &Rect, q: Tri) -> (h: Rect)
    requires
        r.valid(),
        r.bounded(),
    ensures
        h == quarter(*r, q),
        h.valid(),
        h.bounded(),
{
    match q {
        Tri::TopLeft => left_half_exec(&top_half_exec(r)),
        Tri::TopRight => right_half_exec(&top_half_exec(r)),
        Tri::BotLeft => left_half_exec(&bot_half_exec(r)),
        Tri::BotRight => right_half_exec(&bot_half_exec(r)),
    }
}

pub fn plateau_exec(r: &Rect, side: Side) -> (p: (Rect, Rect))
    requires
        r.bounded(),
    ensures
        p.0 == plateau(*r, side),
        p.1 == beside_plateau(*r, side),
{
    match side {
        Side::Top => (Rect { y2: r.y1 + STUD_WIDTH, ..*r }, Rect { y1: r.y1 + STUD_WIDTH, ..*r }),
        Side::Bot => (Rect { y1: r.y2 - STUD_WIDTH, ..*r }, Rect { y2: r.y2 - STUD_WIDTH, ..*r }),
        Side::Left => (Rect { x2: r.x1 + STUD_WIDTH, ..*r }, Rect { x1: r.x1 + STUD_WIDTH, ..*r }),
        Side::Right => (Rect { x1: r.x2 - STUD_WIDTH, ..*r }, Rect { x2: r.x2 - STUD_WIDTH, ..*r }),
    }
}

/// Top half of `shape`, as a rectangle mesh.
pub fn rec_top(shape: &Rect) -> (r: Vec<Point>)
    requires
        shape.valid(),
        shape.bounded(),
    ensures
        r@ == rec_spec(top_half(*shape)),
{
    rec(&top_half_exec(shape))
}

/// Bottom half of `shape`, as a rectangle mesh.
pub fn rec_bot(shape: &Rect) -> (r: Vec<Point>)
    requires
        shape.valid(),
        shape.bounded(),
    ensures
        r@ == rec_spec(bot_half(*shape)),
{
    rec(&bot_half_exec(shape))
}

/// Top-left quarter of `shape`, as a rectangle mesh.
pub fn rec_tl(shape: &Rect) -> (r: Vec<Point>)
    requires
        shape.valid(),
        shape.bounded(),
    ensures
        r@ == rec_spec(quarter(*shape, Tri::TopLeft)),
{
    rec(&quarter_exec(shape, Tri::TopLeft))
}

/// Top-right quarter of `shape`, as a rectangle mesh.
pub fn rec_tr(shape: &Rect) -> (r: Vec<Point>)
    requires
        shape.valid(),
        shape.bounded(),
    ensures
        r@ == rec_spec(quarter(*shape, Tri::TopRight)),
{
    rec(&quarter_exec(shape, Tri::TopRight))
}

/// Bottom-left quarter of `shape`, as a rectangle mesh.
pub fn rec_bl(shape: &Rect) -> (r: Vec<Point>)
    requires
        shape.valid(),
        shape.bounded(),
    ensures
        r@ == rec_spec(quarter(*shape, Tri::BotLeft)),
{
    rec(&quarter_exec(shape, Tri::BotLeft))
}

/// Bottom-right quarter of `shape`, as a rectangle mesh.
pub fn rec_br(shape: &Rect) -> (r: Vec<Point>)
    requires
        shape.valid(),
        shape.bounded(),
    ensures
        r@ == rec_spec(quarter(*shape, Tri::BotRight)),
{
    rec(&quarter_exec(shape, Tri::BotRight))
}

/// The two legs of the right triangle with its right angle at `c`.
pub open spec fn legs(c: Tri) -> (Side, Side) {
    match c {
        Tri::TopLeft => (Side::Top, Side::Left),
        Tri::TopRight => (Side::Top, Side::Right),
        Tri::BotLeft => (Side::Bot, Side::Left),
        Tri::BotRight => (Side::Bot, Side::Right),
    }
}

/// Outline of a right triangle: both legs, then the hypotenuse.
pub open spec fn tri_ol_spec(r: Rect, c: Tri) -> Seq<OutlinePiece> {
    seq![
        OutlinePiece::Leg { rect: r, corner: c, side: legs(c).0 },
        OutlinePiece::Leg { rect: r, corner: c, side: legs(c).1 },
        OutlinePiece::Hypotenuse { rect: r, corner: c },
    ]
}

/// Outline of a rectangle: top, right, bottom and left bands.
pub open spec fn rec_ol_spec(r: Rect) -> Seq<OutlinePiece> {
    seq![
        OutlinePiece::Band { rect: r, side: Side::Top },
        OutlinePiece::Band { rect: r, side: Side::Right },
        OutlinePiece::Band { rect: r, side: Side::Bot },
        OutlinePiece::Band { rect: r, side: Side::Left },
    ]
}

/// Outline of a rectangle without the band on `open`, for a seam with a
/// neighbouring piece.
pub open spec fn rec_ol_open_spec(r: Rect, open: Side) -> Seq<OutlinePiece> {
    let band = |s: Side| OutlinePiece::Band { rect: r, side: s };
    match open {
        Side::Top => seq![band(Side::Right), band(Side::Bot), band(Side::Left)],
        Side::Right => seq![band(Side::Top), band(Side::Bot), band(Side::Left)],
        Side::Bot => seq![band(Side::Top), band(Side::Right), band(Side::Left)],
        Side::Left => seq![band(Side::Top), band(Side::Right), band(Side::Bot)],
    }
}

pub fn tri_ol(shape: &Rect, tri_type: Tri) -> (r: Vec<OutlinePiece>)
    ensures
        r@ == tri_ol_spec(*shape, tri_type),
{
    let (a, b) = match tri_type {
        Tri::TopLeft => (Side::Top, Side::Left),
        Tri::TopRight => (Side::Top, Side::Right),
        Tri::BotLeft => (Side::Bot, Side::Left),
        Tri::BotRight => (Side::Bot, Side::Right),
    };
    let v = vec![
        OutlinePiece::Leg { rect: *shape, corner: tri_type, side: a },
        OutlinePiece::Leg { rect: *shape, corner: tri_type, side: b },
        OutlinePiece::Hypotenuse { rect: *shape, corner: tri_type },
    ];
    assert(v@ =~= tri_ol_spec(*shape, tri_type));
    v
}

pub fn rec_ol(shape: &Rect) -> (r: Vec<OutlinePiece>)
    ensures
        r@ == rec_ol_spec(*shape),
{
    let v = vec![
        OutlinePiece::Band { rect: *shape, side: Side::Top },
        OutlinePiece::Band { rect: *shape, side: Side::Right },
        OutlinePiece::Band { rect: *shape, side: Side::Bot },
        OutlinePiece::Band { rect: *shape, side: Side::Left },
    ];
    assert(v@ =~= rec_ol_spec(*shape));
    v
}

/// Rectangle outline without its band on `open`.
pub fn rec_ol_open(shape: &Rect, open: Side) -> (r: Vec<OutlinePiece>)
    ensures
        r@ == rec_ol_open_spec(*shape, open),
{
    let r = *shape;
    let v = match open {
        Side::Top => vec![
            OutlinePiece::Band { rect: r, side: Side::Right },
            OutlinePiece::Band { rect: r, side: Side::Bot },
            OutlinePiece::Band { rect: r, side: Side::Left },
        ],
        Side::Right => vec![
            OutlinePiece::Band { rect: r, side: Side::Top },
            OutlinePiece::Band { rect: r, side: Side::Bot },
            OutlinePiece::Band { rect: r, side: Side::Left },
        ],
        Side::Bot => vec![
            OutlinePiece::Band { rect: r, side: Side::Top },
            OutlinePiece::Band { rect: r, side: Side::Right },
            OutlinePiece::Band { rect: r, side: Side::Left },
        ],
        Side::Left => vec![
            OutlinePiece::Band { rect: r, side: Side::Top },
            OutlinePiece::Band { rect: r, side: Side::Right },
            OutlinePiece::Band { rect: r, side: Side::Bot },
        ],
    };
    assert(v@ =~= rec_ol_open_spec(r, open));
    v
}

/// The corner diagonally across the rectangle.
pub open spec fn across(c: Tri) -> Tri {
    match c {
        Tri::TopLeft => Tri::BotRight,
        Tri::BotRight => Tri::TopLeft,
        Tri::TopRight => Tri::BotLeft,
        Tri::BotLeft => Tri::TopRight,
    }
}

/// The side a leg band lies on, if the piece is a leg band.
pub open spec fn leg_side(p: OutlinePiece) -> Option<Side> {
    match p {
        OutlinePiece::Leg { side, .. } => Some(side),
        _ => None,
    }
}

/// Some piece of `ps` is a leg band on side `s`.
pub open spec fn has_leg_on(ps: Seq<OutlinePiece>, s: Side) -> bool {
    exists|i: int| 0 <= i < ps.len() && leg_side(ps[i]) == Some(s)
}

/// The two ends of the hypotenuse of the triangle `c` of `r`.
pub open spec fn hypotenuse_ends(r: Rect, c: Tri) -> Set<Point> {
    set![tri_spec(r, c)[1], tri_spec(r, c)[2]]
}

/// The outlines of a right triangle and of the one across from it, taken
/// together, band each side of the rectangle exactly once and band their
/// common hypotenuse from both sides.
pub proof fn lemma_complementary_outlines(r: Rect, c: Tri)
    ensures
        ({
            let both = tri_ol_spec(r, c) + tri_ol_spec(r, across(c));
            &&& both.len() == 6
            &&& forall|s: Side| #[trigger] has_leg_on(both, s)
            &&& forall|i: int, j: int|
                0 <= i < j < 6 && leg_side(both[i]) is Some ==> #[trigger] leg_side(both[i]) != #[trigger] leg_side(both[j])
            &&& both[2] == OutlinePiece::Hypotenuse { rect: r, corner: c }
            &&& both[5] == OutlinePiece::Hypotenuse { rect: r, corner: across(c) }
            &&& hypotenuse_ends(r, c) == hypotenuse_ends(r, across(c))
        }),
{
    let both = tri_ol_spec(r, c) + tri_ol_spec(r, across(c));
    assert(both.len() == 6);
    assert forall|s: Side| #[trigger] has_leg_on(both, s) by {
        let w = if s == legs(c).0 { 0int } else if s == legs(c).1 { 1int } else if s == legs(across(c)).0 { 3int } else { 4int };
        assert(leg_side(both[w]) == Some(s));
    }
    assert(hypotenuse_ends(r, c) =~= hypotenuse_ends(r, across(c)));
}

/// Twice the signed area of the triangle `a b c` (negative when clockwise in
/// the y-up convention, which is how every triangle here is wound).
pub open spec fn cross(a: Point, b: Point, c: Point) -> int {
    (b.x - a.x) * (c.y - a.y) - (b.y - a.y) * (c.x - a.x)
}

pub open spec fn abs(v: int) -> int {
    if v < 0 { -v } else { v }
}

/// Twice the area of the `k`-th triangle of a flat triangle list.
pub open spec fn doubled_area_at(m: Seq<Point>, k: int) -> int {
    abs(cross(m[3 * k], m[3 * k + 1], m[3 * k + 2]))
}

pub proof fn lemma_tri_winding(r: Rect, c: Tri)
    ensures
        cross(tri_spec(r, c)[0], tri_spec(r, c)[1], tri_spec(r, c)[2]) == -(r.width() * r.height()),
{
    let w = r.width();
    let h = r.height();
    assert((0int) * 0 - h * w == -(w * h)) by (nonlinear_arith);
    assert((-w) * h - 0 * 0 == -(w * h)) by (nonlinear_arith);
    assert((0int) * (-w) - (-h) * 0 == 0) by (nonlinear_arith);
    assert((0int) * 0 - (-h) * (-w) == -(w * h)) by (nonlinear_arith);
    assert(w * (-h) - 0 * 0 == -(w * h)) by (nonlinear_arith);
}

/// A valid rectangle's two triangles together cover exactly its area, and
/// when it has positive width and height they share exactly the two ends of
/// one diagonal.
pub proof fn lemma_rectangle_halves(r: Rect)
    requires
        r.valid(),
    ensures
        rec_spec(r).len() == 6,
        doubled_area_at(rec_spec(r), 0) + doubled_area_at(rec_spec(r), 1) == 2 * (r.width()
            * r.height()),
        r.width() > 0 && r.height() > 0 ==> rec_spec(r).subrange(0, 3).to_set().intersect(
            rec_spec(r).subrange(3, 6).to_set(),
        ) == set![Point { x: r.x1, y: r.y2 }, Point { x: r.x2, y: r.y1 }],
{
    let m = rec_spec(r);
    lemma_tri_winding(r, Tri::TopLeft);
    lemma_tri_winding(r, Tri::BotRight);
    assert(m.subrange(0, 3) =~= tri_spec(r, Tri::TopLeft));
    assert(m.subrange(3, 6) =~= tri_spec(r, Tri::BotRight));
    assert(r.width() * r.height() >= 0) by (nonlinear_arith)
        requires r.width() >= 0, r.height() >= 0;
    assert(doubled_area_at(m, 0) == r.width() * r.height());
    assert(doubled_area_at(m, 1) == r.width() * r.height());
    if r.width() > 0 && r.height() > 0 {
        let a = tri_spec(r, Tri::TopLeft).to_set();
        let b = tri_spec(r, Tri::BotRight).to_set();
        let d = set![Point { x: r.x1, y: r.y2 }, Point { x: r.x2, y: r.y1 }];
        assert forall|p: Point| a.intersect(b).contains(p) <==> d.contains(p) by {
            assert(tri_spec(r, Tri::TopLeft).contains(p) <==> (p == tri_spec(r, Tri::TopLeft)[0]
                || p == tri_spec(r, Tri::TopLeft)[1] || p == tri_spec(r, Tri::TopLeft)[2]));
            assert(tri_spec(r, Tri::BotRight).contains(p) <==> (p == tri_spec(r, Tri::BotRight)[0]
                || p == tri_spec(r, Tri::BotRight)[1] || p == tri_spec(r, Tri::BotRight)[2]));
        }
        assert(a.intersect(b) =~= d);
    }
}

} // verus!
