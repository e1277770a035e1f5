//! The silhouette dispatcher: lookup tables from a brick's family, direction
//! and rotation to a shape, and the fill and outline pieces of each shape.

use vstd::prelude::*;
use crate::assets::{family_of, family_of_name};
use crate::brick::{Brick, Direction, Rotation, footprint, footprint_of};
use crate::primitives::{
    fill_piece_vertices, fill_vertices, outline_piece_vertices, outline_vertices, CIRCLE_RES,
    bot_half_exec, left_half_exec, mid_exec, plateau_exec, quarter_exec, rec_ol, rec_ol_open,
    right_half_exec, top_half_exec, tri_ol,
    beside_plateau, bot_half, left_half, mid, plateau, quarter, rec_ol_open_spec, rec_ol_spec,
    right_half, top_half, tri_ol_spec, FillPiece, OutlinePiece, Point, RampKind, Rect, Side, Tri,
};

verus! {

/// The shape families that get their own silhouette; everything else is
/// drawn as its footprint rectangle.
#[derive(Clone, Copy, Debug, PartialEq, Eq, Structural)]
pub enum Family {
    Plain,
    Corner,
    SideWedge,
    Wedge,
    Ramp,
    RampCorner,
    RampCornerInverted,
    RampCrest,
    RampCrestEnd,
    Round,
}

/// The composed shape a brick is drawn as, before it is laid on a footprint.
#[derive(Clone, Copy, Debug, PartialEq, Eq, Structural)]
pub enum ShapeTag {
    /// The whole footprint.
    Rectangle,
    /// The right triangle with its right angle at the given corner.
    Triangle(Tri),
    /// A plateau of one stud beside a sloped right triangle.
    Ramp(RampKind),
    /// Two half-width slopes meeting at a ridge that points toward the side.
    Crest(Side),
    /// An L-shaped plate: a long half and a short quarter, the given corner
    /// naming the orientation.
    Corner(Tri),
    /// The inscribed disc.
    Disc,
}

pub open spec fn side_wedge_table(d: Direction, r: Rotation) -> ShapeTag {
    match d {
        Direction::ZPositive => match r {
            Rotation::Deg0 => ShapeTag::Triangle(Tri::TopLeft),
            Rotation::Deg90 => ShapeTag::Triangle(Tri::TopRight),
            Rotation::Deg180 => ShapeTag::Triangle(Tri::BotRight),
            Rotation::Deg270 => ShapeTag::Triangle(Tri::BotLeft),
        },
        Direction::ZNegative => match r {
            Rotation::Deg0 => ShapeTag::Triangle(Tri::TopRight),
            Rotation::Deg90 => ShapeTag::Triangle(Tri::TopLeft),
            Rotation::Deg180 => ShapeTag::Triangle(Tri::BotLeft),
            Rotation::Deg270 => ShapeTag::Triangle(Tri::BotRight),
        },
        _ => ShapeTag::Rectangle,
    }
}

pub open spec fn wedge_table(d: Direction, r: Rotation) -> ShapeTag {
    match r {
        Rotation::Deg90 => match d {
            Direction::XPositive => ShapeTag::Triangle(Tri::BotLeft),
            Direction::XNegative => ShapeTag::Triangle(Tri::TopRight),
            Direction::YPositive => ShapeTag::Triangle(Tri::TopLeft),
            Direction::YNegative => ShapeTag::Triangle(Tri::BotRight),
            _ => ShapeTag::Rectangle,
        },
        Rotation::Deg270 => match d {
            Direction::XPositive => ShapeTag::Triangle(Tri::TopLeft),
            Direction::XNegative => ShapeTag::Triangle(Tri::BotRight),
            Direction::YPositive => ShapeTag::Triangle(Tri::TopRight),
            Direction::YNegative => ShapeTag::Triangle(Tri::BotLeft),
            _ => ShapeTag::Rectangle,
        },
        _ => ShapeTag::Rectangle,
    }
}

pub open spec fn ramp_table(d: Direction, r: Rotation) -> ShapeTag {
    match (d, r) {
        (Direction::XPositive, Rotation::Deg90) => ShapeTag::Ramp(RampKind::BlBot),
        (Direction::XPositive, Rotation::Deg270) => ShapeTag::Ramp(RampKind::TlTop),
        (Direction::XNegative, Rotation::Deg90) => ShapeTag::Ramp(RampKind::TrTop),
        (Direction::XNegative, Rotation::Deg270) => ShapeTag::Ramp(RampKind::BrBot),
        (Direction::YPositive, Rotation::Deg90) => ShapeTag::Ramp(RampKind::TlLeft),
        (Direction::YPositive, Rotation::Deg270) => ShapeTag::Ramp(RampKind::TrRight),
        (Direction::YNegative, Rotation::Deg90) => ShapeTag::Ramp(RampKind::BrRight),
        (Direction::YNegative, Rotation::Deg270) => ShapeTag::Ramp(RampKind::BlLeft),
        _ => ShapeTag::Rectangle,
    }
}

/// Rotations 0 and 90 degrees, then 180 and 270, give the same corner piece.
pub open spec fn first_pair(r: Rotation) -> bool {
    r == Rotation::Deg0 || r == Rotation::Deg90
}

pub open spec fn ramp_corner_table(d: Direction, r: Rotation) -> ShapeTag {
    match d {
        Direction::XPositive => ShapeTag::Ramp(if first_pair(r) { RampKind::BlBot } else { RampKind::TlTop }),
        Direction::XNegative => ShapeTag::Ramp(if first_pair(r) { RampKind::TrTop } else { RampKind::BrBot }),
        Direction::YPositive => ShapeTag::Ramp(if first_pair(r) { RampKind::TlLeft } else { RampKind::TrRight }),
        Direction::YNegative => ShapeTag::Ramp(if first_pair(r) { RampKind::BrRight } else { RampKind::BlLeft }),
        _ => ShapeTag::Rectangle,
    }
}

pub open spec fn ramp_corner_inverted_table(d: Direction, r: Rotation) -> ShapeTag {
    match d {
        Direction::XPositive => ShapeTag::Ramp(if first_pair(r) { RampKind::BrBot } else { RampKind::TrTop }),
        Direction::XNegative => ShapeTag::Ramp(if first_pair(r) { RampKind::TlTop } else { RampKind::BlBot }),
        Direction::YPositive => ShapeTag::Ramp(if first_pair(r) { RampKind::BlLeft } else { RampKind::BrRight }),
        Direction::YNegative => ShapeTag::Ramp(if first_pair(r) { RampKind::TrRight } else { RampKind::TlLeft }),
        _ => ShapeTag::Rectangle,
    }
}

/// The ridge direction of a crest lying along direction `d`, if any.
pub open spec fn crest_side(d: Direction) -> Option<Side> {
    match d {
        Direction::YPositive => Some(Side::Bot),
        Direction::YNegative => Some(Side::Top),
        Direction::XPositive => Some(Side::Right),
        Direction::XNegative => Some(Side::Left),
        _ => None,
    }
}

pub open spec fn quarter_turn(r: Rotation) -> bool {
    r == Rotation::Deg90 || r == Rotation::Deg270
}

pub open spec fn ramp_crest_table(d: Direction, r: Rotation) -> ShapeTag {
    match crest_side(d) {
        Some(s) => if quarter_turn(r) { ShapeTag::Crest(s) } else { ShapeTag::Rectangle },
        None => ShapeTag::Rectangle,
    }
}

pub open spec fn ramp_crest_end_table(d: Direction, r: Rotation) -> ShapeTag {
    match (d, r) {
        (Direction::YPositive, Rotation::Deg0) => ShapeTag::Triangle(Tri::TopRight),
        (Direction::YPositive, Rotation::Deg180) => ShapeTag::Triangle(Tri::TopLeft),
        (Direction::YNegative, Rotation::Deg0) => ShapeTag::Triangle(Tri::BotLeft),
        (Direction::YNegative, Rotation::Deg180) => ShapeTag::Triangle(Tri::BotRight),
        (Direction::XPositive, Rotation::Deg0) => ShapeTag::Triangle(Tri::TopLeft),
        (Direction::XPositive, Rotation::Deg180) => ShapeTag::Triangle(Tri::BotLeft),
        (Direction::XNegative, Rotation::Deg0) => ShapeTag::Triangle(Tri::BotRight),
        (Direction::XNegative, Rotation::Deg180) => ShapeTag::Triangle(Tri::TopRight),
        _ => ramp_crest_table(d, r),
    }
}

pub open spec fn corner_table(d: Direction, r: Rotation) -> ShapeTag {
    match d {
        Direction::ZPositive => match r {
            Rotation::Deg0 => ShapeTag::Corner(Tri::TopLeft),
            Rotation::Deg90 => ShapeTag::Corner(Tri::TopRight),
            Rotation::Deg180 => ShapeTag::Corner(Tri::BotRight),
            Rotation::Deg270 => ShapeTag::Corner(Tri::BotLeft),
        },
        Direction::ZNegative => match r {
            Rotation::Deg0 => ShapeTag::Corner(Tri::TopRight),
            Rotation::Deg90 => ShapeTag::Corner(Tri::TopLeft),
            Rotation::Deg180 => ShapeTag::Corner(Tri::BotLeft),
            Rotation::Deg270 => ShapeTag::Corner(Tri::BotRight),
        },
        _ => ShapeTag::Rectangle,
    }
}

pub open spec fn round_table(d: Direction) -> ShapeTag {
    match d {
        Direction::ZPositive | Direction::ZNegative => ShapeTag::Disc,
        _ => ShapeTag::Rectangle,
    }
}

/// The shape of a brick of family `f` facing `d` and turned by `r`.
pub open spec fn shape_table(f: Family, d: Direction, r: Rotation) -> ShapeTag {
    match f {
        Family::Plain => ShapeTag::Rectangle,
        Family::Corner => corner_table(d, r),
        Family::SideWedge => side_wedge_table(d, r),
        Family::Wedge => wedge_table(d, r),
        Family::Ramp => ramp_table(d, r),
        Family::RampCorner => ramp_corner_table(d, r),
        Family::RampCornerInverted => ramp_corner_inverted_table(d, r),
        Family::RampCrest => ramp_crest_table(d, r),
        Family::RampCrestEnd => ramp_crest_end_table(d, r),
        Family::Round => round_table(d),
    }
}

pub open spec fn tri_piece(r: Rect, c: Tri) -> FillPiece {
    FillPiece::Triangle { rect: r, corner: c }
}

pub open spec fn rect_pieces(r: Rect) -> Seq<FillPiece> {
    seq![tri_piece(r, Tri::TopLeft), tri_piece(r, Tri::BotRight)]
}

/// The two halves of a crest and the corner each slope has its right angle at.
pub open spec fn crest_halves(r: Rect, s: Side) -> (Rect, Tri, Rect, Tri) {
    match s {
        Side::Bot => (left_half(r), Tri::TopRight, right_half(r), Tri::TopLeft),
        Side::Right => (top_half(r), Tri::BotLeft, bot_half(r), Tri::TopLeft),
        Side::Top => (left_half(r), Tri::BotRight, right_half(r), Tri::BotLeft),
        Side::Left => (top_half(r), Tri::BotRight, bot_half(r), Tri::TopRight),
    }
}

/// The leg that both halves of a crest draw: the one on the far side from the
/// ridge.
pub open spec fn opposite(s: Side) -> Side {
    match s {
        Side::Top => Side::Bot,
        Side::Bot => Side::Top,
        Side::Left => Side::Right,
        Side::Right => Side::Left,
    }
}

/// The long half and the short quarter of an L-shaped plate.
pub open spec fn corner_parts(r: Rect, c: Tri) -> (Rect, Rect) {
    match c {
        Tri::TopLeft => (top_half(r), quarter(r, Tri::BotLeft)),
        Tri::TopRight => (top_half(r), quarter(r, Tri::BotRight)),
        Tri::BotRight => (bot_half(r), quarter(r, Tri::TopRight)),
        Tri::BotLeft => (bot_half(r), quarter(r, Tri::TopLeft)),
    }
}

/// The fill pieces of shape `t` laid on footprint `r`.
pub open spec fn fill_spec(t: ShapeTag, r: Rect) -> Seq<FillPiece> {
    match t {
        ShapeTag::Rectangle => rect_pieces(r),
        ShapeTag::Triangle(c) => seq![tri_piece(r, c)],
        ShapeTag::Ramp(k) => rect_pieces(plateau(r, k.side())).push(
            tri_piece(beside_plateau(r, k.side()), k.corner()),
        ),
        ShapeTag::Crest(s) => {
            let (a, ca, b, cb) = crest_halves(r, s);
            seq![tri_piece(a, ca), tri_piece(b, cb)]
        },
        ShapeTag::Corner(c) => rect_pieces(corner_parts(r, c).0) + rect_pieces(corner_parts(r, c).1),
        ShapeTag::Disc => seq![FillPiece::Disc { rect: r }],
    }
}

pub open spec fn band(r: Rect, s: Side) -> OutlinePiece {
    OutlinePiece::Band { rect: r, side: s }
}

pub open spec fn center(r: Rect) -> Point {
    Point { x: mid(r.x1, r.x2), y: mid(r.y1, r.y2) }
}

/// Outline of an L-shaped plate: the outer bands, the bands along the inner
/// step, and a notch filling the inner corner.
pub open spec fn corner_outline(r: Rect, c: Tri) -> Seq<OutlinePiece> {
    let q = |x: Tri| quarter(r, x);
    match c {
        Tri::TopLeft => seq![
            band(r, Side::Top), band(r, Side::Left), band(left_half(r), Side::Bot),
            band(q(Tri::BotLeft), Side::Right), band(q(Tri::TopRight), Side::Bot),
            band(top_half(r), Side::Right), OutlinePiece::Notch { at: center(r), toward: Tri::TopLeft },
        ],
        Tri::TopRight => seq![
            band(r, Side::Top), band(r, Side::Right), band(top_half(r), Side::Left),
            band(q(Tri::TopLeft), Side::Bot), band(q(Tri::BotRight), Side::Left),
            band(right_half(r), Side::Bot), OutlinePiece::Notch { at: center(r), toward: Tri::TopRight },
        ],
        Tri::BotRight => seq![
            band(r, Side::Bot), band(r, Side::Right), band(right_half(r), Side::Top),
            band(q(Tri::TopRight), Side::Left), band(q(Tri::BotLeft), Side::Top),
            band(bot_half(r), Side::Left), OutlinePiece::Notch { at: center(r), toward: Tri::BotRight },
        ],
        Tri::BotLeft => seq![
            band(r, Side::Bot), band(r, Side::Left), band(left_half(r), Side::Top),
            band(q(Tri::TopLeft), Side::Right), band(q(Tri::BotRight), Side::Top),
            band(bot_half(r), Side::Right), OutlinePiece::Notch { at: center(r), toward: Tri::BotLeft },
        ],
    }
}

/// The outline pieces of shape `t` laid on footprint `r`; seams between the
/// parts of a composed shape get no band.
pub open spec fn outline_spec(t: ShapeTag, r: Rect) -> Seq<OutlinePiece> {
    match t {
        ShapeTag::Rectangle => rec_ol_spec(r),
        ShapeTag::Triangle(c) => tri_ol_spec(r, c),
        ShapeTag::Ramp(k) => {
            let rest = beside_plateau(r, k.side());
            rec_ol_open_spec(plateau(r, k.side()), opposite(k.side())) + seq![
                OutlinePiece::Leg { rect: rest, corner: k.corner(), side: k.free_leg() },
                OutlinePiece::Hypotenuse { rect: rest, corner: k.corner() },
                OutlinePiece::Joint { rect: rest, kind: k },
            ]
        },
        ShapeTag::Crest(s) => {
            let (a, ca, b, cb) = crest_halves(r, s);
            let leg = opposite(s);
            seq![
                OutlinePiece::Leg { rect: a, corner: ca, side: leg },
                OutlinePiece::Hypotenuse { rect: a, corner: ca },
                OutlinePiece::Leg { rect: b, corner: cb, side: leg },
                OutlinePiece::Hypotenuse { rect: b, corner: cb },
            ]
        },
        ShapeTag::Corner(c) => corner_outline(r, c),
        ShapeTag::Disc => seq![OutlinePiece::Ring { rect: r }],
    }
}


pub fn side_wedge_shape(d: Direction, r: Rotation) -> (t: ShapeTag)
    ensures
        t == side_wedge_table(d, r),
{
    match d {
        Direction::ZPositive => match r {
            Rotation::Deg0 => ShapeTag::Triangle(Tri::TopLeft),
            Rotation::Deg90 => ShapeTag::Triangle(Tri::TopRight),
            Rotation::Deg180 => ShapeTag::Triangle(Tri::BotRight),
            Rotation::Deg270 => ShapeTag::Triangle(Tri::BotLeft),
        },
        Direction::ZNegative => match r {
            Rotation::Deg0 => ShapeTag::Triangle(Tri::TopRight),
            Rotation::Deg90 => ShapeTag::Triangle(Tri::TopLeft),
            Rotation::Deg180 => ShapeTag::Triangle(Tri::BotLeft),
            Rotation::Deg270 => ShapeTag::Triangle(Tri::BotRight),
        },
        _ => ShapeTag::Rectangle,
    }
}

pub fn wedge_shape(d: Direction, r: Rotation) -> (t: ShapeTag)
    ensures
        t == wedge_table(d, r),
{
    match r {
        Rotation::Deg90 => match d {
            Direction::XPositive => ShapeTag::Triangle(Tri::BotLeft),
            Direction::XNegative => ShapeTag::Triangle(Tri::TopRight),
            Direction::YPositive => ShapeTag::Triangle(Tri::TopLeft),
            Direction::YNegative => ShapeTag::Triangle(Tri::BotRight),
            _ => ShapeTag::Rectangle,
        },
        Rotation::Deg270 => match d {
            Direction::XPositive => ShapeTag::Triangle(Tri::TopLeft),
            Direction::XNegative => ShapeTag::Triangle(Tri::BotRight),
            Direction::YPositive => ShapeTag::Triangle(Tri::TopRight),
            Direction::YNegative => ShapeTag::Triangle(Tri::BotLeft),
            _ => ShapeTag::Rectangle,
        },
        _ => ShapeTag::Rectangle,
    }
}

pub fn ramp_shape(d: Direction, r: Rotation) -> (t: ShapeTag)
    ensures
        t == ramp_table(d, r),
{
    match (d, r) {
        (Direction::XPositive, Rotation::Deg90) => ShapeTag::Ramp(RampKind::BlBot),
        (Direction::XPositive, Rotation::Deg270) => ShapeTag::Ramp(RampKind::TlTop),
        (Direction::XNegative, Rotation::Deg90) => ShapeTag::Ramp(RampKind::TrTop),
        (Direction::XNegative, Rotation::Deg270) => ShapeTag::Ramp(RampKind::BrBot),
        (Direction::YPositive, Rotation::Deg90) => ShapeTag::Ramp(RampKind::TlLeft),
        (Direction::YPositive, Rotation::Deg270) => ShapeTag::Ramp(RampKind::TrRight),
        (Direction::YNegative, Rotation::Deg90) => ShapeTag::Ramp(RampKind::BrRight),
        (Direction::YNegative, Rotation::Deg270) => ShapeTag::Ramp(RampKind::BlLeft),
        _ => ShapeTag::Rectangle,
    }
}

fn is_first_pair(r: Rotation) -> (b: bool)
    ensures
        b == first_pair(r),
{
    r == Rotation::Deg0 || r == Rotation::Deg90
}

pub fn ramp_corner_shape(d: Direction, r: Rotation) -> (t: ShapeTag)
    ensures
        t == ramp_corner_table(d, r),
{
    let first = is_first_pair(r);
    match d {
        Direction::XPositive => ShapeTag::Ramp(if first { RampKind::BlBot } else { RampKind::TlTop }),
        Direction::XNegative => ShapeTag::Ramp(if first { RampKind::TrTop } else { RampKind::BrBot }),
        Direction::YPositive => ShapeTag::Ramp(if first { RampKind::TlLeft } else { RampKind::TrRight }),
        Direction::YNegative => ShapeTag::Ramp(if first { RampKind::BrRight } else { RampKind::BlLeft }),
        _ => ShapeTag::Rectangle,
    }
}

pub fn ramp_corner_inverted_shape(d: Direction, r: Rotation) -> (t: ShapeTag)
    ensures
        t == ramp_corner_inverted_table(d, r),
{
    let first = is_first_pair(r);
    match d {
        Direction::XPositive => ShapeTag::Ramp(if first { RampKind::BrBot } else { RampKind::TrTop }),
        Direction::XNegative => ShapeTag::Ramp(if first { RampKind::TlTop } else { RampKind::BlBot }),
        Direction::YPositive => ShapeTag::Ramp(if first { RampKind::BlLeft } else { RampKind::BrRight }),
        Direction::YNegative => ShapeTag::Ramp(if first { RampKind::TrRight } else { RampKind::TlLeft }),
        _ => ShapeTag::Rectangle,
    }
}

pub fn ramp_crest_shape(d: Direction, r: Rotation) -> (t: ShapeTag)
    ensures
        t == ramp_crest_table(d, r),
{
    let side = match d {
        Direction::YPositive => Some(Side::Bot),
        Direction::YNegative => Some(Side::Top),
        Direction::XPositive => Some(Side::Right),
        Direction::XNegative => Some(Side::Left),
        _ => None,
    };
    match side {
        Some(s) => if r == Rotation::Deg90 || r == Rotation::Deg270 {
            ShapeTag::Crest(s)
        } else {
            ShapeTag::Rectangle
        },
        None => ShapeTag::Rectangle,
    }
}

pub fn ramp_crest_end_shape(d: Direction, r: Rotation) -> (t: ShapeTag)
    ensures
        t == ramp_crest_end_table(d, r),
{
    match (d, r) {
        (Direction::YPositive, Rotation::Deg0) => ShapeTag::Triangle(Tri::TopRight),
        (Direction::YPositive, Rotation::Deg180) => ShapeTag::Triangle(Tri::TopLeft),
        (Direction::YNegative, Rotation::Deg0) => ShapeTag::Triangle(Tri::BotLeft),
        (Direction::YNegative, Rotation::Deg180) => ShapeTag::Triangle(Tri::BotRight),
        (Direction::XPositive, Rotation::Deg0) => ShapeTag::Triangle(Tri::TopLeft),
        (Direction::XPositive, Rotation::Deg180) => ShapeTag::Triangle(Tri::BotLeft),
        (Direction::XNegative, Rotation::Deg0) => ShapeTag::Triangle(Tri::BotRight),
        (Direction::XNegative, Rotation::Deg180) => ShapeTag::Triangle(Tri::TopRight),
        _ => ramp_crest_shape(d, r),
    }
}

pub fn corner_shape(d: Direction, r: Rotation) -> (t: ShapeTag)
    ensures
        t == corner_table(d, r),
{
    match d {
        Direction::ZPositive => match r {
            Rotation::Deg0 => ShapeTag::Corner(Tri::TopLeft),
            Rotation::Deg90 => ShapeTag::Corner(Tri::TopRight),
            Rotation::Deg180 => ShapeTag::Corner(Tri::BotRight),
            Rotation::Deg270 => ShapeTag::Corner(Tri::BotLeft),
        },
        Direction::ZNegative => match r {
            Rotation::Deg0 => ShapeTag::Corner(Tri::TopRight),
            Rotation::Deg90 => ShapeTag::Corner(Tri::TopLeft),
            Rotation::Deg180 => ShapeTag::Corner(Tri::BotLeft),
            Rotation::Deg270 => ShapeTag::Corner(Tri::BotRight),
        },
        _ => ShapeTag::Rectangle,
    }
}

pub fn round_shape(d: Direction) -> (t: ShapeTag)
    ensures
        t == round_table(d),
{
    match d {
        Direction::ZPositive | Direction::ZNegative => ShapeTag::Disc,
        _ => ShapeTag::Rectangle,
    }
}

/// The shape a brick of family `family` is drawn as.
pub fn shape_of(family: Family, d: Direction, r: Rotation) -> (t: ShapeTag)
    ensures
        t == shape_table(family, d, r),
{
    match family {
        Family::Plain => ShapeTag::Rectangle,
        Family::Corner => corner_shape(d, r),
        Family::SideWedge => side_wedge_shape(d, r),
        Family::Wedge => wedge_shape(d, r),
        Family::Ramp => ramp_shape(d, r),
        Family::RampCorner => ramp_corner_shape(d, r),
        Family::RampCornerInverted => ramp_corner_inverted_shape(d, r),
        Family::RampCrest => ramp_crest_shape(d, r),
        Family::RampCrestEnd => ramp_crest_end_shape(d, r),
        Family::Round => round_shape(d),
    }
}

fn rect_pieces_exec(r: Rect) -> (v: Vec<FillPiece>)
    ensures
        v@ == rect_pieces(r),
{
    let v = vec![
        FillPiece::Triangle { rect: r, corner: Tri::TopLeft },
        FillPiece::Triangle { rect: r, corner: Tri::BotRight },
    ];
    assert(v@ =~= rect_pieces(r));
    v
}

fn crest_halves_exec(r: &Rect, s: Side) -> (h: (Rect, Tri, Rect, Tri))
    requires
        r.valid(),
        r.bounded(),
    ensures
        h == crest_halves(*r, s),
{
    match s {
        Side::Bot => (left_half_exec(r), Tri::TopRight, right_half_exec(r), Tri::TopLeft),
        Side::Right => (top_half_exec(r), Tri::BotLeft, bot_half_exec(r), Tri::TopLeft),
        Side::Top => (left_half_exec(r), Tri::BotRight, right_half_exec(r), Tri::BotLeft),
        Side::Left => (top_half_exec(r), Tri::BotRight, bot_half_exec(r), Tri::TopRight),
    }
}

fn corner_parts_exec(r: &Rect, c: Tri) -> (p: (Rect, Rect))
    requires
        r.valid(),
        r.bounded(),
    ensures
        p == corner_parts(*r, c),
{
    match c {
        Tri::TopLeft => (top_half_exec(r), quarter_exec(r, Tri::BotLeft)),
        Tri::TopRight => (top_half_exec(r), quarter_exec(r, Tri::BotRight)),
        Tri::BotRight => (bot_half_exec(r), quarter_exec(r, Tri::TopRight)),
        Tri::BotLeft => (bot_half_exec(r), quarter_exec(r, Tri::TopLeft)),
    }
}

fn ramp_parts(k: RampKind) -> (p: (Tri, Side, Side))
    ensures
        p == (k.corner(), k.side(), k.free_leg()),
{
    match k {
        RampKind::BrBot => (Tri::BotRight, Side::Bot, Side::Right),
        RampKind::BlLeft => (Tri::BotLeft, Side::Left, Side::Bot),
        RampKind::TlTop => (Tri::TopLeft, Side::Top, Side::Left),
        RampKind::TrRight => (Tri::TopRight, Side::Right, Side::Top),
        RampKind::TlLeft => (Tri::TopLeft, Side::Left, Side::Top),
        RampKind::TrTop => (Tri::TopRight, Side::Top, Side::Right),
        RampKind::BrRight => (Tri::BotRight, Side::Right, Side::Bot),
        RampKind::BlBot => (Tri::BotLeft, Side::Bot, Side::Left),
    }
}

fn opposite_exec(s: Side) -> (o: Side)
    ensures
        o == opposite(s),
{
    match s {
        Side::Top => Side::Bot,
        Side::Bot => Side::Top,
        Side::Left => Side::Right,
        Side::Right => Side::Left,
    }
}

/// The fill pieces of shape `tag` on footprint `shape`.
pub fn fill_of(tag: ShapeTag, shape: &Rect) -> (v: Vec<FillPiece>)
    requires
        shape.valid(),
        shape.bounded(),
    ensures
        v@ == fill_spec(tag, *shape),
{
    match tag {
        ShapeTag::Rectangle => rect_pieces_exec(*shape),
        ShapeTag::Triangle(c) => {
            let v = vec![FillPiece::Triangle { rect: *shape, corner: c }];
            assert(v@ =~= fill_spec(tag, *shape));
            v
        },
        ShapeTag::Ramp(k) => {
            let (c, side, _) = ramp_parts(k);
            let (top, rest) = plateau_exec(shape, side);
            let mut v = rect_pieces_exec(top);
            v.push(FillPiece::Triangle { rect: rest, corner: c });
            v
        },
        ShapeTag::Crest(s) => {
            let (a, ca, b, cb) = crest_halves_exec(shape, s);
            let v = vec![
                FillPiece::Triangle { rect: a, corner: ca },
                FillPiece::Triangle { rect: b, corner: cb },
            ];
            assert(v@ =~= fill_spec(tag, *shape));
            v
        },
        ShapeTag::Corner(c) => {
            let (long, short) = corner_parts_exec(shape, c);
            let mut v = rect_pieces_exec(long);
            let mut w = rect_pieces_exec(short);
            v.append(&mut w);
            v
        },
        ShapeTag::Disc => {
            let v = vec![FillPiece::Disc { rect: *shape }];
            assert(v@ =~= fill_spec(tag, *shape));
            v
        },
    }
}

fn corner_outline_exec(r: &Rect, c: Tri) -> (v: Vec<OutlinePiece>)
    requires
        r.valid(),
        r.bounded(),
    ensures
        v@ == corner_outline(*r, c),
{
    let r0 = *r;
    let at = Point { x: mid_exec(r.x1, r.x2), y: mid_exec(r.y1, r.y2) };
    let b = |x: Rect, s: Side| -> (p: OutlinePiece)
        ensures
            p == band(x, s),
        { OutlinePiece::Band { rect: x, side: s } };
    let v = match c {
        Tri::TopLeft => vec![
            b(r0, Side::Top), b(r0, Side::Left), b(left_half_exec(r), Side::Bot),
            b(quarter_exec(r, Tri::BotLeft), Side::Right), b(quarter_exec(r, Tri::TopRight), Side::Bot),
            b(top_half_exec(r), Side::Right), OutlinePiece::Notch { at, toward: Tri::TopLeft },
        ],
        Tri::TopRight => vec![
            b(r0, Side::Top), b(r0, Side::Right), b(top_half_exec(r), Side::Left),
            b(quarter_exec(r, Tri::TopLeft), Side::Bot), b(quarter_exec(r, Tri::BotRight), Side::Left),
            b(right_half_exec(r), Side::Bot), OutlinePiece::Notch { at, toward: Tri::TopRight },
        ],
        Tri::BotRight => vec![
            b(r0, Side::Bot), b(r0, Side::Right), b(right_half_exec(r), Side::Top),
            b(quarter_exec(r, Tri::TopRight), Side::Left), b(quarter_exec(r, Tri::BotLeft), Side::Top),
            b(bot_half_exec(r), Side::Left), OutlinePiece::Notch { at, toward: Tri::BotRight },
        ],
        Tri::BotLeft => vec![
            b(r0, Side::Bot), b(r0, Side::Left), b(left_half_exec(r), Side::Top),
            b(quarter_exec(r, Tri::TopLeft), Side::Right), b(quarter_exec(r, Tri::BotRight), Side::Top),
            b(bot_half_exec(r), Side::Right), OutlinePiece::Notch { at, toward: Tri::BotLeft },
        ],
    };
    assert(v@ =~= corner_outline(*r, c));
    v
}

/// The outline pieces of shape `tag` on footprint `shape`.
pub fn outline_of(tag: ShapeTag, shape: &Rect) -> (v: Vec<OutlinePiece>)
    requires
        shape.valid(),
        shape.bounded(),
    ensures
        v@ == outline_spec(tag, *shape),
{
    match tag {
        ShapeTag::Rectangle => rec_ol(shape),
        ShapeTag::Triangle(c) => tri_ol(shape, c),
        ShapeTag::Ramp(k) => {
            let (c, side, leg) = ramp_parts(k);
            let (top, rest) = plateau_exec(shape, side);
            let mut v = rec_ol_open(&top, opposite_exec(side));
            v.push(OutlinePiece::Leg { rect: rest, corner: c, side: leg });
            v.push(OutlinePiece::Hypotenuse { rect: rest, corner: c });
            v.push(OutlinePiece::Joint { rect: rest, kind: k });
            assert(v@ =~= outline_spec(tag, *shape));
            v
        },
        ShapeTag::Crest(s) => {
            let (a, ca, b, cb) = crest_halves_exec(shape, s);
            let leg = opposite_exec(s);
            let v = vec![
                OutlinePiece::Leg { rect: a, corner: ca, side: leg },
                OutlinePiece::Hypotenuse { rect: a, corner: ca },
                OutlinePiece::Leg { rect: b, corner: cb, side: leg },
                OutlinePiece::Hypotenuse { rect: b, corner: cb },
            ];
            assert(v@ =~= outline_spec(tag, *shape));
            v
        },
        ShapeTag::Corner(c) => corner_outline_exec(shape, c),
        ShapeTag::Disc => {
            let v = vec![OutlinePiece::Ring { rect: *shape }];
            assert(v@ =~= outline_spec(tag, *shape));
            v
        },
    }
}


/// Fill of a L-shaped corner plate on `shape`.
pub fn corner(brick: &Brick, shape: &Rect) -> (v: Vec<FillPiece>)
    requires
        shape.valid(),
        shape.bounded(),
    ensures
        v@ == fill_spec(corner_table(brick.direction, brick.rotation), *shape),
{
    fill_of(corner_shape(brick.direction, brick.rotation), shape)
}

/// Outline of a L-shaped corner plate on `shape`.
pub fn corner_ol(brick: &Brick, shape: &Rect) -> (v: Vec<OutlinePiece>)
    requires
        shape.valid(),
        shape.bounded(),
    ensures
        v@ == outline_spec(corner_table(brick.direction, brick.rotation), *shape),
{
    outline_of(corner_shape(brick.direction, brick.rotation), shape)
}

/// Fill of a side wedge on `shape`.
pub fn side_wedge(brick: &Brick, shape: &Rect) -> (v: Vec<FillPiece>)
    requires
        shape.valid(),
        shape.bounded(),
    ensures
        v@ == fill_spec(side_wedge_table(brick.direction, brick.rotation), *shape),
{
    fill_of(side_wedge_shape(brick.direction, brick.rotation), shape)
}

/// Outline of a side wedge on `shape`.
pub fn side_wedge_ol(brick: &Brick, shape: &Rect) -> (v: Vec<OutlinePiece>)
    requires
        shape.valid(),
        shape.bounded(),
    ensures
        v@ == outline_spec(side_wedge_table(brick.direction, brick.rotation), *shape),
{
    outline_of(side_wedge_shape(brick.direction, brick.rotation), shape)
}

/// Fill of a wedge on `shape`.
pub fn wedge(brick: &Brick, shape: &Rect) -> (v: Vec<FillPiece>)
    requires
        shape.valid(),
        shape.bounded(),
    ensures
        v@ == fill_spec(wedge_table(brick.direction, brick.rotation), *shape),
{
    fill_of(wedge_shape(brick.direction, brick.rotation), shape)
}

/// Outline of a wedge on `shape`.
pub fn wedge_ol(brick: &Brick, shape: &Rect) -> (v: Vec<OutlinePiece>)
    requires
        shape.valid(),
        shape.bounded(),
    ensures
        v@ == outline_spec(wedge_table(brick.direction, brick.rotation), *shape),
{
    outline_of(wedge_shape(brick.direction, brick.rotation), shape)
}

/// Fill of a ramp on `shape`.
pub fn ramp(brick: &Brick, shape: &Rect) -> (v: Vec<FillPiece>)
    requires
        shape.valid(),
        shape.bounded(),
    ensures
        v@ == fill_spec(ramp_table(brick.direction, brick.rotation), *shape),
{
    fill_of(ramp_shape(brick.direction, brick.rotation), shape)
}

/// Outline of a ramp on `shape`.
pub fn ramp_ol(brick: &Brick, shape: &Rect) -> (v: Vec<OutlinePiece>)
    requires
        shape.valid(),
        shape.bounded(),
    ensures
        v@ == outline_spec(ramp_table(brick.direction, brick.rotation), *shape),
{
    outline_of(ramp_shape(brick.direction, brick.rotation), shape)
}

/// Fill of a ramp corner on `shape`.
pub fn ramp_corner(brick: &Brick, shape: &Rect) -> (v: Vec<FillPiece>)
    requires
        shape.valid(),
        shape.bounded(),
    ensures
        v@ == fill_spec(ramp_corner_table(brick.direction, brick.rotation), *shape),
{
    fill_of(ramp_corner_shape(brick.direction, brick.rotation), shape)
}

/// Outline of a ramp corner on `shape`.
pub fn ramp_corner_ol(brick: &Brick, shape: &Rect) -> (v: Vec<OutlinePiece>)
    requires
        shape.valid(),
        shape.bounded(),
    ensures
        v@ == outline_spec(ramp_corner_table(brick.direction, brick.rotation), *shape),
{
    outline_of(ramp_corner_shape(brick.direction, brick.rotation), shape)
}

/// Fill of a inverted ramp corner on `shape`.
pub fn ramp_corner_inverted(brick: &Brick, shape: &Rect) -> (v: Vec<FillPiece>)
    requires
        shape.valid(),
        shape.bounded(),
    ensures
        v@ == fill_spec(ramp_corner_inverted_table(brick.direction, brick.rotation), *shape),
{
    fill_of(ramp_corner_inverted_shape(brick.direction, brick.rotation), shape)
}

/// Outline of a inverted ramp corner on `shape`.
pub fn ramp_corner_inverted_ol(brick: &Brick, shape: &Rect) -> (v: Vec<OutlinePiece>)
    requires
        shape.valid(),
        shape.bounded(),
    ensures
        v@ == outline_spec(ramp_corner_inverted_table(brick.direction, brick.rotation), *shape),
{
    outline_of(ramp_corner_inverted_shape(brick.direction, brick.rotation), shape)
}

/// Fill of a ramp crest on `shape`.
pub fn ramp_crest(brick: &Brick, shape: &Rect) -> (v: Vec<FillPiece>)
    requires
        shape.valid(),
        shape.bounded(),
    ensures
        v@ == fill_spec(ramp_crest_table(brick.direction, brick.rotation), *shape),
{
    fill_of(ramp_crest_shape(brick.direction, brick.rotation), shape)
}

/// Outline of a ramp crest on `shape`.
pub fn ramp_crest_ol(brick: &Brick, shape: &Rect) -> (v: Vec<OutlinePiece>)
    requires
        shape.valid(),
        shape.bounded(),
    ensures
        v@ == outline_spec(ramp_crest_table(brick.direction, brick.rotation), *shape),
{
    outline_of(ramp_crest_shape(brick.direction, brick.rotation), shape)
}

/// Fill of a ramp crest end on `shape`.
pub fn ramp_crest_end(brick: &Brick, shape: &Rect) -> (v: Vec<FillPiece>)
    requires
        shape.valid(),
        shape.bounded(),
    ensures
        v@ == fill_spec(ramp_crest_end_table(brick.direction, brick.rotation), *shape),
{
    fill_of(ramp_crest_end_shape(brick.direction, brick.rotation), shape)
}

/// Outline of a ramp crest end on `shape`.
pub fn ramp_crest_end_ol(brick: &Brick, shape: &Rect) -> (v: Vec<OutlinePiece>)
    requires
        shape.valid(),
        shape.bounded(),
    ensures
        v@ == outline_spec(ramp_crest_end_table(brick.direction, brick.rotation), *shape),
{
    outline_of(ramp_crest_end_shape(brick.direction, brick.rotation), shape)
}

/// Fill of a round brick on `shape`.
pub fn round(brick: &Brick, shape: &Rect) -> (v: Vec<FillPiece>)
    requires
        shape.valid(),
        shape.bounded(),
    ensures
        v@ == fill_spec(round_table(brick.direction), *shape),
{
    fill_of(round_shape(brick.direction), shape)
}

/// Outline of a round brick on `shape`.
pub fn round_ol(brick: &Brick, shape: &Rect) -> (v: Vec<OutlinePiece>)
    requires
        shape.valid(),
        shape.bounded(),
    ensures
        v@ == outline_spec(round_table(brick.direction), *shape),
{
    outline_of(round_shape(brick.direction), shape)
}

/// The fill pieces of a brick whose asset is called `name`, laid on its
/// footprint. Every brick gets a non-empty fill of whole triangles.
pub fn calculate_brick_vertices(name: &str, brick: &Brick) -> (v: Vec<FillPiece>)
    ensures
        v@ == fill_spec(
            shape_table(family_of(name@), brick.direction, brick.rotation),
            footprint_of(*brick),
        ),
        v@.len() > 0,
        fill_vertices(v@) > 0,
        fill_vertices(v@) % 3 == 0,
{
    let tag = shape_of(family_of_name(name), brick.direction, brick.rotation);
    let shape = footprint(brick);
    proof {
        lemma_shape_well_formed(tag, shape);
    }
    fill_of(tag, &shape)
}

/// The outline pieces of a brick whose asset is called `name`, laid on its
/// footprint. Every brick gets a non-empty outline of whole triangles.
pub fn calculate_brick_outline_vertices(name: &str, brick: &Brick) -> (v: Vec<OutlinePiece>)
    ensures
        v@ == outline_spec(
            shape_table(family_of(name@), brick.direction, brick.rotation),
            footprint_of(*brick),
        ),
        v@.len() > 0,
        outline_vertices(v@) > 0,
        outline_vertices(v@) % 3 == 0,
{
    let tag = shape_of(family_of_name(name), brick.direction, brick.rotation);
    let shape = footprint(brick);
    proof {
        lemma_shape_well_formed(tag, shape);
    }
    outline_of(tag, &shape)
}

proof fn lemma_fill_uniform(s: Seq<FillPiece>, k: nat)
    requires
        forall|i: int| 0 <= i < s.len() ==> fill_piece_vertices(#[trigger] s[i]) == k,
    ensures
        fill_vertices(s) == k * s.len(),
    decreases s.len(),
{
    if s.len() > 0 {
        lemma_fill_uniform(s.drop_last(), k);
        assert(k * (s.len() - 1) + k == k * s.len()) by (nonlinear_arith);
    }
}

proof fn lemma_outline_uniform(s: Seq<OutlinePiece>, k: nat)
    requires
        forall|i: int| 0 <= i < s.len() ==> outline_piece_vertices(#[trigger] s[i]) == k,
    ensures
        outline_vertices(s) == k * s.len(),
    decreases s.len(),
{
    if s.len() > 0 {
        lemma_outline_uniform(s.drop_last(), k);
        assert(k * (s.len() - 1) + k == k * s.len()) by (nonlinear_arith);
    }
}

/// Vertices in the fill of shape `t`, whatever the footprint.
pub open spec fn fill_count(t: ShapeTag) -> nat {
    match t {
        ShapeTag::Rectangle => 6,
        ShapeTag::Triangle(_) => 3,
        ShapeTag::Ramp(_) => 9,
        ShapeTag::Crest(_) => 6,
        ShapeTag::Corner(_) => 12,
        ShapeTag::Disc => (3 * CIRCLE_RES) as nat,
    }
}

/// Vertices in the outline of shape `t`, whatever the footprint.
pub open spec fn outline_count(t: ShapeTag) -> nat {
    match t {
        ShapeTag::Rectangle => 24,
        ShapeTag::Triangle(_) => 18,
        ShapeTag::Ramp(_) => 33,
        ShapeTag::Crest(_) => 24,
        ShapeTag::Corner(_) => 42,
        ShapeTag::Disc => (6 * CIRCLE_RES) as nat,
    }
}

pub fn fill_count_of(t: ShapeTag) -> (n: usize)
    ensures
        n == fill_count(t),
{
    match t {
        ShapeTag::Rectangle => 6,
        ShapeTag::Triangle(_) => 3,
        ShapeTag::Ramp(_) => 9,
        ShapeTag::Crest(_) => 6,
        ShapeTag::Corner(_) => 12,
        ShapeTag::Disc => 3 * CIRCLE_RES,
    }
}

pub fn outline_count_of(t: ShapeTag) -> (n: usize)
    ensures
        n == outline_count(t),
{
    match t {
        ShapeTag::Rectangle => 24,
        ShapeTag::Triangle(_) => 18,
        ShapeTag::Ramp(_) => 33,
        ShapeTag::Crest(_) => 24,
        ShapeTag::Corner(_) => 42,
        ShapeTag::Disc => 6 * CIRCLE_RES,
    }
}

/// Every shape on every footprint has a non-empty fill and a non-empty
/// outline, each a whole number of triangles.
pub proof fn lemma_shape_well_formed(t: ShapeTag, r: Rect)
    ensures
        fill_vertices(fill_spec(t, r)) == fill_count(t),
        outline_vertices(outline_spec(t, r)) == outline_count(t),
        fill_spec(t, r).len() > 0,
        fill_vertices(fill_spec(t, r)) > 0,
        fill_vertices(fill_spec(t, r)) % 3 == 0,
        outline_spec(t, r).len() > 0,
        outline_vertices(outline_spec(t, r)) > 0,
        outline_vertices(outline_spec(t, r)) % 3 == 0,
{
    let f = fill_spec(t, r);
    let o = outline_spec(t, r);
    match t {
        ShapeTag::Disc => {
            lemma_fill_uniform(f, (3 * CIRCLE_RES) as nat);
            lemma_outline_uniform(o, (6 * CIRCLE_RES) as nat);
        },
        ShapeTag::Ramp(k) => {
            lemma_fill_uniform(f, 3);
            let head = o.drop_last();
            assert(o == head.push(o.last()));
            lemma_outline_uniform(head, 6);
            assert(o.last() == OutlinePiece::Joint { rect: beside_plateau(r, k.side()), kind: k });
        },
        _ => {
            lemma_fill_uniform(f, 3);
            lemma_outline_uniform(o, 6);
        },
    }
}


/// Whatever the family, direction and rotation, a brick's silhouette on any
/// footprint has a non-empty fill and a non-empty outline, each a whole
/// number of triangles.
pub proof fn lemma_dispatch_total(f: Family, d: Direction, r: Rotation, footprint: Rect)
    ensures
        fill_vertices(fill_spec(shape_table(f, d, r), footprint)) > 0,
        fill_vertices(fill_spec(shape_table(f, d, r), footprint)) % 3 == 0,
        outline_vertices(outline_spec(shape_table(f, d, r), footprint)) > 0,
        outline_vertices(outline_spec(shape_table(f, d, r), footprint)) % 3 == 0,
{
    lemma_shape_well_formed(shape_table(f, d, r), footprint);
}

} // verus!
